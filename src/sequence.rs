use vstd::prelude::*;

use crate::parser::{CreateParserState, ExactClone, OutputModel, Parser, StateModel};
use crate::status::{progress_of, ParseResult, ParseStatus, Progress};

verus! {

/// Where a sequence stands: still in the first parser, or in the second with the first's output.
#[derive(Debug, Clone, PartialEq, Eq)]
pub enum SequenceParserState<S1, S2, O1> {
    FirstParser(S1),
    SecondParser(S2, O1),
}

impl<S1: DeepView, S2: DeepView, O1: DeepView> DeepView for SequenceParserState<S1, S2, O1> {
    type V = SequenceParserState<S1::V, S2::V, O1::V>;

    open spec fn deep_view(&self) -> Self::V {
        match self {
            SequenceParserState::FirstParser(s1) => SequenceParserState::FirstParser(
                s1.deep_view(),
            ),
            SequenceParserState::SecondParser(s2, o1) => SequenceParserState::SecondParser(
                s2.deep_view(),
                o1.deep_view(),
            ),
        }
    }
}

impl<S1: ExactClone, S2: ExactClone, O1: ExactClone> ExactClone for SequenceParserState<
    S1,
    S2,
    O1,
> {
    fn exact_clone(&self) -> (r: Self) {
        match self {
            SequenceParserState::FirstParser(s1) => SequenceParserState::FirstParser(
                s1.exact_clone(),
            ),
            SequenceParserState::SecondParser(s2, o1) => SequenceParserState::SecondParser(
                s2.exact_clone(),
                o1.exact_clone(),
            ),
        }
    }
}

/// A parser for `parser1` followed by `parser2`, with both outputs.
#[derive(Debug, Clone, PartialEq, Eq)]
pub struct SequenceParser<P1, P2> {
    pub parser1: P1,
    pub parser2: P2,
}

impl<P1, P2> SequenceParser<P1, P2> {
    /// Create a parser for `parser1` followed by `parser2`.
    pub fn new(parser1: P1, parser2: P2) -> (r: Self)
        ensures
            r.parser1 == parser1,
            r.parser2 == parser2,
    {
        SequenceParser { parser1, parser2 }
    }
}

/// The model of a sequence checkpoint.
pub type SequenceStateModel<P1, P2, O1> = SequenceParserState<StateModel<P1>, StateModel<P2>, O1>;

impl<P1: Parser, P2: Parser + CreateParserState> SequenceParser<P1, P2> {
    /// The second parser run from `s2` over `input`, after the first produced `o1`.
    pub open spec fn spec_second(
        &self,
        s2: StateModel<P2>,
        o1: OutputModel<P1>,
        input: Seq<u8>,
    ) -> Progress<SequenceStateModel<P1, P2, OutputModel<P1>>, (OutputModel<P1>, OutputModel<P2>)> {
        match self.parser2.spec_parse(s2, input) {
            Progress::Finished { result, remaining } => Progress::Finished {
                result: (o1, result),
                remaining,
            },
            Progress::Incomplete { new_state, required_next } => Progress::Incomplete {
                new_state: SequenceParserState::SecondParser(new_state, o1),
                required_next,
            },
            Progress::Failed => Progress::Failed,
        }
    }
}

impl<P1: Parser + CreateParserState, P2: Parser + CreateParserState> CreateParserState for SequenceParser<
    P1,
    P2,
> {
    open spec fn spec_initial_state(&self) -> SequenceStateModel<P1, P2, OutputModel<P1>> {
        SequenceParserState::FirstParser(self.parser1.spec_initial_state())
    }

    fn create_parser_state(&self) -> (r: SequenceParserState<
        P1::PartialState,
        P2::PartialState,
        P1::Output,
    >) {
        SequenceParserState::FirstParser(self.parser1.create_parser_state())
    }
}

impl<P1: Parser, P2: Parser + CreateParserState> Parser for SequenceParser<P1, P2> {
    type Output = (P1::Output, P2::Output);

    type PartialState = SequenceParserState<P1::PartialState, P2::PartialState, P1::Output>;

    open spec fn spec_parse(
        &self,
        state: SequenceStateModel<P1, P2, OutputModel<P1>>,
        input: Seq<u8>,
    ) -> Progress<SequenceStateModel<P1, P2, OutputModel<P1>>, (OutputModel<P1>, OutputModel<P2>)> {
        match state {
            SequenceParserState::FirstParser(s1) => match self.parser1.spec_parse(s1, input) {
                Progress::Finished { result, remaining } => self.spec_second(
                    self.parser2.spec_initial_state(),
                    result,
                    remaining,
                ),
                Progress::Incomplete { new_state, required_next } => Progress::Incomplete {
                    new_state: SequenceParserState::FirstParser(new_state),
                    required_next,
                },
                Progress::Failed => Progress::Failed,
            },
            SequenceParserState::SecondParser(s2, o1) => self.spec_second(s2, o1, input),
        }
    }

    fn parse<'a>(
        &'a self,
        state: &SequenceParserState<P1::PartialState, P2::PartialState, P1::Output>,
        input: &'a [u8],
    ) -> (r: ParseResult<
        ParseStatus<
            'a,
            SequenceParserState<P1::PartialState, P2::PartialState, P1::Output>,
            (P1::Output, P2::Output),
        >,
    >) {
        let (s2, o1, rest) = match state {
            SequenceParserState::FirstParser(s1) => {
                let first = self.parser1.parse(s1, input);
                assert(progress_of(first) == self.parser1.spec_parse(s1.deep_view(), input@));
                match first {
                    Ok(ParseStatus::Finished { result, remaining }) => {
                        (self.parser2.create_parser_state(), result, remaining)
                    },
                    Ok(ParseStatus::Incomplete { new_state, required_next }) => {
                        return Ok(
                            ParseStatus::Incomplete {
                                new_state: SequenceParserState::FirstParser(new_state),
                                required_next,
                            },
                        );
                    },
                    Err(e) => {
                        return Err(e);
                    },
                }
            },
            SequenceParserState::SecondParser(s2, o1) => {
                (s2.exact_clone(), o1.exact_clone(), input)
            },
        };
        let second = self.parser2.parse(&s2, rest);
        assert(progress_of(second) == self.parser2.spec_parse(s2.deep_view(), rest@));
        match second {
            Ok(ParseStatus::Finished { result, remaining }) => {
                Ok(ParseStatus::Finished { result: (o1, result), remaining })
            },
            Ok(ParseStatus::Incomplete { new_state, required_next }) => {
                Ok(
                    ParseStatus::Incomplete {
                        new_state: SequenceParserState::SecondParser(new_state, o1),
                        required_next,
                    },
                )
            },
            Err(e) => Err(e),
        }
    }
}

/// A parser for `parser1` followed by `parser2`, keeping only the output of `parser2`.
#[derive(Debug, Clone, PartialEq, Eq)]
pub struct IgnoreOutputThenParser<P1, P2> {
    pub parser1: P1,
    pub parser2: P2,
}

impl<P1, P2> IgnoreOutputThenParser<P1, P2> {
    /// Create a parser for `parser1` followed by `parser2`, keeping the second output.
    pub fn new(parser1: P1, parser2: P2) -> (r: Self)
        ensures
            r.parser1 == parser1,
            r.parser2 == parser2,
    {
        IgnoreOutputThenParser { parser1, parser2 }
    }
}

impl<P1: Parser, P2: Parser + CreateParserState> IgnoreOutputThenParser<P1, P2> {
    /// The second parser run from `s2` over `input`.
    pub open spec fn spec_second(&self, s2: StateModel<P2>, input: Seq<u8>) -> Progress<
        SequenceStateModel<P1, P2, ()>,
        OutputModel<P2>,
    > {
        match self.parser2.spec_parse(s2, input) {
            Progress::Finished { result, remaining } => Progress::Finished { result, remaining },
            Progress::Incomplete { new_state, required_next } => Progress::Incomplete {
                new_state: SequenceParserState::SecondParser(new_state, ()),
                required_next,
            },
            Progress::Failed => Progress::Failed,
        }
    }
}

impl<P1: Parser + CreateParserState, P2: Parser + CreateParserState> CreateParserState for IgnoreOutputThenParser<
    P1,
    P2,
> {
    open spec fn spec_initial_state(&self) -> SequenceStateModel<P1, P2, ()> {
        SequenceParserState::FirstParser(self.parser1.spec_initial_state())
    }

    fn create_parser_state(&self) -> (r: SequenceParserState<
        P1::PartialState,
        P2::PartialState,
        (),
    >) {
        SequenceParserState::FirstParser(self.parser1.create_parser_state())
    }
}

impl<P1: Parser, P2: Parser + CreateParserState> Parser for IgnoreOutputThenParser<P1, P2> {
    type Output = P2::Output;

    type PartialState = SequenceParserState<P1::PartialState, P2::PartialState, ()>;

    open spec fn spec_parse(&self, state: SequenceStateModel<P1, P2, ()>, input: Seq<u8>) -> Progress<
        SequenceStateModel<P1, P2, ()>,
        OutputModel<P2>,
    > {
        match state {
            SequenceParserState::FirstParser(s1) => match self.parser1.spec_parse(s1, input) {
                Progress::Finished { remaining, .. } => self.spec_second(
                    self.parser2.spec_initial_state(),
                    remaining,
                ),
                Progress::Incomplete { new_state, required_next } => Progress::Incomplete {
                    new_state: SequenceParserState::FirstParser(new_state),
                    required_next,
                },
                Progress::Failed => Progress::Failed,
            },
            SequenceParserState::SecondParser(s2, _) => self.spec_second(s2, input),
        }
    }

    fn parse<'a>(
        &'a self,
        state: &SequenceParserState<P1::PartialState, P2::PartialState, ()>,
        input: &'a [u8],
    ) -> (r: ParseResult<
        ParseStatus<'a, SequenceParserState<P1::PartialState, P2::PartialState, ()>, P2::Output>,
    >) {
        let (s2, rest) = match state {
            SequenceParserState::FirstParser(s1) => {
                let first = self.parser1.parse(s1, input);
                assert(progress_of(first) == self.parser1.spec_parse(s1.deep_view(), input@));
                match first {
                    Ok(ParseStatus::Finished { remaining, .. }) => {
                        (self.parser2.create_parser_state(), remaining)
                    },
                    Ok(ParseStatus::Incomplete { new_state, required_next }) => {
                        return Ok(
                            ParseStatus::Incomplete {
                                new_state: SequenceParserState::FirstParser(new_state),
                                required_next,
                            },
                        );
                    },
                    Err(e) => {
                        return Err(e);
                    },
                }
            },
            SequenceParserState::SecondParser(s2, _) => (s2.exact_clone(), input),
        };
        let second = self.parser2.parse(&s2, rest);
        assert(progress_of(second) == self.parser2.spec_parse(s2.deep_view(), rest@));
        match second {
            Ok(ParseStatus::Finished { result, remaining }) => {
                Ok(ParseStatus::Finished { result, remaining })
            },
            Ok(ParseStatus::Incomplete { new_state, required_next }) => {
                Ok(
                    ParseStatus::Incomplete {
                        new_state: SequenceParserState::SecondParser(new_state, ()),
                        required_next,
                    },
                )
            },
            Err(e) => Err(e),
        }
    }
}

} // verus!
