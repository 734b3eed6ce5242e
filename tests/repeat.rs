use kalosm_sample::{
    CreateParserState, IntegerParser, LiteralParser, ParseError, ParseStatus, Parser, ParserExt,
    RepeatParser, RepeatParserState, RequiredNext,
};

#[test]
fn repeat_parser() {
    let parser = RepeatParser::new(LiteralParser::new("a"), 1..=3);
    let state = parser.create_parser_state();
    let result = parser.parse(&state, b"aaa");
    assert_eq!(
        result,
        Ok(ParseStatus::Finished {
            result: vec![(); 3],
            remaining: b"",
        })
    );

    let int_parser = IntegerParser::new(1..=3);
    let parser = RepeatParser::new(int_parser.clone(), 1..=3);
    let state = parser.create_parser_state();
    let result = parser.parse(&state, b"123");
    assert_eq!(
        result,
        Ok(ParseStatus::Finished {
            result: vec![1, 2, 3],
            remaining: b"",
        })
    );

    let parser = RepeatParser::new(int_parser.clone(), 1..=3);
    let state = parser.create_parser_state();
    let result = parser.parse(&state, b"12");
    assert_eq!(
        result,
        Ok(ParseStatus::Incomplete {
            new_state: RepeatParserState {
                new_state_in_progress: false,
                last_state: int_parser.create_parser_state(),
                outputs: vec![1, 2],
            },
            required_next: Default::default()
        })
    );

    // It is not valid to stop the sequence here, required next must be some
    let separated_int_parser = LiteralParser::new("  ").ignore_output_then(int_parser);
    let repeat_separated_int_parser = RepeatParser::new(separated_int_parser.clone(), 3..=5);
    let state = repeat_separated_int_parser.create_parser_state();
    let result = repeat_separated_int_parser.parse(&state, b"  1  2");
    assert_eq!(
        result,
        Ok(ParseStatus::Incomplete {
            new_state: RepeatParserState {
                new_state_in_progress: false,
                last_state: separated_int_parser.create_parser_state(),
                outputs: vec![1, 2],
            },
            required_next: RequiredNext::Borrowed(b"  ")
        })
    );

    // It is valid to stop here. Required next must be none
    let state = repeat_separated_int_parser.create_parser_state();
    let result = repeat_separated_int_parser.parse(&state, b"  1  2  3");
    assert_eq!(
        result,
        Ok(ParseStatus::Incomplete {
            new_state: RepeatParserState {
                new_state_in_progress: false,
                last_state: separated_int_parser.create_parser_state(),
                outputs: vec![1, 2, 3],
            },
            required_next: Default::default()
        })
    );
}

#[test]
fn max_repetitions_stop_even_when_more_could_follow() {
    let parser = RepeatParser::new(LiteralParser::new("ab"), 1..=2);
    let state = parser.create_parser_state();
    assert_eq!(
        parser.parse(&state, b"abab"),
        Ok(ParseStatus::Finished {
            result: vec![(), ()],
            remaining: b"",
        })
    );
    assert_eq!(
        parser.parse(&state, b"ababab"),
        Ok(ParseStatus::Finished {
            result: vec![(), ()],
            remaining: b"ab",
        })
    );
}

#[test]
fn max_integer_repetitions_leave_the_tail() {
    let parser = RepeatParser::new(IntegerParser::new(1..=3), 1..=3);
    let state = parser.create_parser_state();
    assert_eq!(
        parser.parse(&state, b"1231"),
        Ok(ParseStatus::Finished {
            result: vec![1, 2, 3],
            remaining: b"1",
        })
    );
}

#[test]
fn rerunning_a_copied_checkpoint_gives_the_same_outcome() {
    let separated = LiteralParser::new("  ").ignore_output_then(IntegerParser::new(1..=3));
    let parser = RepeatParser::new(separated, 3..=5);
    let state = parser.create_parser_state();
    let paused = match parser.parse(&state, b"  1  ") {
        Ok(ParseStatus::Incomplete { new_state, .. }) => new_state,
        other => panic!("expected a pause, got {:?}", other),
    };
    let copy = paused.clone();
    let first = parser.parse(&paused, b"2  3");
    let second = parser.parse(&copy, b"2  3");
    assert_eq!(first, second);
    assert_eq!(
        first,
        Ok(ParseStatus::Incomplete {
            new_state: RepeatParserState::new(parser.parser.create_parser_state(), vec![1, 2, 3]),
            required_next: RequiredNext::empty(),
        })
    );
    // The checkpoint handed in is left as it was.
    assert_eq!(paused, copy);
}

#[test]
fn pause_inside_a_repetition_forwards_the_child_hint() {
    let parser = RepeatParser::new(LiteralParser::new("abc"), 0..=4);
    let state = parser.create_parser_state();
    match parser.parse(&state, b"abcab") {
        Ok(ParseStatus::Incomplete {
            new_state,
            required_next,
        }) => {
            assert!(new_state.new_state_in_progress);
            assert_eq!(new_state.outputs, vec![()]);
            assert_eq!(required_next.as_bytes(), b"c");
        }
        other => panic!("expected a pause, got {:?}", other),
    }
}

#[test]
fn child_error_between_repetitions_ends_the_sequence() {
    let parser = RepeatParser::new(LiteralParser::new("a"), 1..=5);
    let state = parser.create_parser_state();
    assert_eq!(
        parser.parse(&state, b"aab"),
        Ok(ParseStatus::Finished {
            result: vec![(), ()],
            remaining: b"b",
        })
    );
}

#[test]
fn child_error_below_the_minimum_is_an_error() {
    let parser = RepeatParser::new(LiteralParser::new("a"), 3..=5);
    let state = parser.create_parser_state();
    assert_eq!(parser.parse(&state, b"aab"), Err(ParseError));
}

#[test]
fn child_error_in_a_started_repetition_is_an_error() {
    let parser = RepeatParser::new(LiteralParser::new("ab"), 0..=5);
    let state = parser.create_parser_state();
    let paused = match parser.parse(&state, b"a") {
        Ok(ParseStatus::Incomplete { new_state, .. }) => new_state,
        other => panic!("expected a pause, got {:?}", other),
    };
    assert!(paused.new_state_in_progress);
    assert_eq!(parser.parse(&paused, b"x"), Err(ParseError));
}

#[test]
fn zero_minimum_allows_an_empty_sequence() {
    let parser = RepeatParser::new(LiteralParser::new("a"), 0..=2);
    let state = parser.create_parser_state();
    assert_eq!(
        parser.parse(&state, b"z"),
        Ok(ParseStatus::Finished {
            result: vec![],
            remaining: b"z",
        })
    );
}

#[test]
fn empty_input_pauses_with_the_child_hint() {
    let parser = RepeatParser::new(LiteralParser::new("xy"), 1..=2);
    let state = parser.create_parser_state();
    match parser.parse(&state, b"") {
        Ok(ParseStatus::Incomplete {
            new_state,
            required_next,
        }) => {
            assert!(new_state.new_state_in_progress);
            assert_eq!(required_next.as_bytes(), b"xy");
        }
        other => panic!("expected a pause, got {:?}", other),
    }
}

#[test]
fn resuming_continues_the_count() {
    let parser = LiteralParser::new("a").repeat(1..=3);
    let state = parser.create_parser_state();
    let paused = match parser.parse(&state, b"a") {
        Ok(ParseStatus::Incomplete { new_state, .. }) => new_state,
        other => panic!("expected a pause, got {:?}", other),
    };
    assert_eq!(paused.outputs, vec![()]);
    assert_eq!(
        parser.parse(&paused, b"aa"),
        Ok(ParseStatus::Finished {
            result: vec![(), (), ()],
            remaining: b"",
        })
    );
}

#[test]
fn default_repeat_parser_allows_any_count() {
    let parser: RepeatParser<IntegerParser> = RepeatParser {
        parser: IntegerParser::new(0..=9),
        ..Default::default()
    };
    assert_eq!(parser.min, 0);
    assert_eq!(parser.max, usize::MAX);
    let state = parser.create_parser_state();
    assert_eq!(
        parser.parse(&state, b"4567x"),
        Ok(ParseStatus::Finished {
            result: vec![4, 5, 6, 7],
            remaining: b"x",
        })
    );
}

#[test]
fn new_reads_both_bounds_of_the_range() {
    let parser = RepeatParser::new(IntegerParser::new(4..=250), 2..=7);
    assert_eq!(parser.min, 2);
    assert_eq!(parser.max, 7);
    assert_eq!(parser.parser.min, 4);
    assert_eq!(parser.parser.max, 250);
}

#[test]
fn new_state_starts_between_repetitions() {
    let state: RepeatParserState<IntegerParser> = RepeatParserState::new(
        IntegerParser::new(0..=9).create_parser_state(),
        vec![5],
    );
    assert!(!state.new_state_in_progress);
    assert_eq!(state.outputs, vec![5]);
    let default_state: RepeatParserState<IntegerParser> = RepeatParserState::default();
    assert!(!default_state.new_state_in_progress);
    assert!(default_state.outputs.is_empty());
}
