use kalosm_sample::{
    ChoiceParser, ChoiceParserState, CreateParserState, Either, IgnoreOutputThenParser,
    IntegerParser, LiteralParser, ParseError, ParseStatus, Parser, ParserExt, SequenceParser,
    SequenceParserState,
};

#[test]
fn sequence_keeps_both_outputs() {
    let parser = SequenceParser::new(IntegerParser::new(0..=9), LiteralParser::new("!"));
    let state = parser.create_parser_state();
    assert_eq!(
        parser.parse(&state, b"7!?"),
        Ok(ParseStatus::Finished {
            result: (7, ()),
            remaining: b"?",
        })
    );
}

#[test]
fn sequence_resumes_in_the_second_parser() {
    let parser = IntegerParser::new(0..=9).then(LiteralParser::new("ab"));
    let state = parser.create_parser_state();
    let paused = match parser.parse(&state, b"3a") {
        Ok(ParseStatus::Incomplete {
            new_state,
            required_next,
        }) => {
            assert_eq!(required_next.as_bytes(), b"b");
            new_state
        }
        other => panic!("expected a pause, got {:?}", other),
    };
    assert!(matches!(paused, SequenceParserState::SecondParser(_, 3)));
    assert_eq!(
        parser.parse(&paused, b"b"),
        Ok(ParseStatus::Finished {
            result: (3, ()),
            remaining: b"",
        })
    );
}

#[test]
fn sequence_forwards_the_first_hint() {
    let parser = LiteralParser::new("[[").then(IntegerParser::new(0..=9));
    let state = parser.create_parser_state();
    match parser.parse(&state, b"[") {
        Ok(ParseStatus::Incomplete {
            new_state,
            required_next,
        }) => {
            assert!(matches!(new_state, SequenceParserState::FirstParser(_)));
            assert_eq!(required_next.as_bytes(), b"[");
        }
        other => panic!("expected a pause, got {:?}", other),
    }
}

#[test]
fn sequence_error_in_either_part() {
    let parser = LiteralParser::new("a").then(LiteralParser::new("b"));
    let state = parser.create_parser_state();
    assert_eq!(parser.parse(&state, b"x"), Err(ParseError));
    assert_eq!(parser.parse(&state, b"ax"), Err(ParseError));
}

#[test]
fn ignore_output_then_keeps_the_second_output() {
    let parser = IgnoreOutputThenParser::new(LiteralParser::new("  "), IntegerParser::new(1..=3));
    let state = parser.create_parser_state();
    assert_eq!(
        parser.parse(&state, b"  2x"),
        Ok(ParseStatus::Finished {
            result: 2,
            remaining: b"x",
        })
    );
}

#[test]
fn choice_takes_the_alternative_that_finishes() {
    let parser = LiteralParser::new("yes").or(LiteralParser::new("no"));
    let state = parser.create_parser_state();
    assert_eq!(
        parser.parse(&state, b"no."),
        Ok(ParseStatus::Finished {
            result: Either::Right(()),
            remaining: b".",
        })
    );
    assert_eq!(
        parser.parse(&state, b"yes"),
        Ok(ParseStatus::Finished {
            result: Either::Left(()),
            remaining: b"",
        })
    );
}

#[test]
fn choice_requires_only_the_shared_prefix() {
    let parser = ChoiceParser::new(LiteralParser::new("abcx"), LiteralParser::new("abdy"));
    let state = parser.create_parser_state();
    match parser.parse(&state, b"a") {
        Ok(ParseStatus::Incomplete {
            new_state,
            required_next,
        }) => {
            assert!(new_state.state1.is_some());
            assert!(new_state.state2.is_some());
            assert_eq!(required_next.as_bytes(), b"b");
        }
        other => panic!("expected a pause, got {:?}", other),
    }
}

#[test]
fn choice_drops_a_failed_alternative() {
    let parser = ChoiceParser::new(LiteralParser::new("abc"), LiteralParser::new("axy"));
    let state = parser.create_parser_state();
    let paused = match parser.parse(&state, b"ab") {
        Ok(ParseStatus::Incomplete {
            new_state,
            required_next,
        }) => {
            assert_eq!(required_next.as_bytes(), b"c");
            new_state
        }
        other => panic!("expected a pause, got {:?}", other),
    };
    assert!(paused.state1.is_some());
    assert!(paused.state2.is_none());
    assert_eq!(
        parser.parse(&paused, b"c"),
        Ok(ParseStatus::Finished {
            result: Either::Left(()),
            remaining: b"",
        })
    );
}

#[test]
fn choice_fails_when_every_alternative_fails() {
    let parser = ChoiceParser::new(LiteralParser::new("a"), LiteralParser::new("b"));
    let state = parser.create_parser_state();
    assert_eq!(parser.parse(&state, b"c"), Err(ParseError));
    let dead = ChoiceParserState {
        state1: None,
        state2: None,
    };
    assert_eq!(parser.parse(&dead, b""), Err(ParseError));
}
