use vstd::prelude::*;

use crate::parser::{CreateParserState, ExactClone, OutputModel, Parser, StateModel};
use crate::status::{
    common_prefix, common_prefix_len, progress_of, ParseError, ParseResult, ParseStatus, Progress,
    RequiredNext,
};

verus! {

/// The output of one of two alternatives.
#[derive(Debug, Clone, Copy, PartialEq, Eq)]
pub enum Either<L, R> {
    Left(L),
    Right(R),
}

impl<L: DeepView, R: DeepView> DeepView for Either<L, R> {
    type V = Either<L::V, R::V>;

    open spec fn deep_view(&self) -> Self::V {
        match self {
            Either::Left(l) => Either::Left(l.deep_view()),
            Either::Right(r) => Either::Right(r.deep_view()),
        }
    }
}

impl<L: ExactClone, R: ExactClone> ExactClone for Either<L, R> {
    fn exact_clone(&self) -> (r: Self) {
        match self {
            Either::Left(l) => Either::Left(l.exact_clone()),
            Either::Right(r) => Either::Right(r.exact_clone()),
        }
    }
}

/// The checkpoints of the alternatives still alive; `None` marks one that has failed.
#[derive(Debug, Clone, PartialEq, Eq)]
pub struct ChoiceParserState<S1, S2> {
    pub state1: Option<S1>,
    pub state2: Option<S2>,
}

impl<S1: DeepView, S2: DeepView> DeepView for ChoiceParserState<S1, S2> {
    type V = ChoiceParserState<S1::V, S2::V>;

    open spec fn deep_view(&self) -> Self::V {
        ChoiceParserState {
            state1: match self.state1 {
                Some(s) => Some(s.deep_view()),
                None => None,
            },
            state2: match self.state2 {
                Some(s) => Some(s.deep_view()),
                None => None,
            },
        }
    }
}

impl<S1: ExactClone, S2: ExactClone> ExactClone for ChoiceParserState<S1, S2> {
    fn exact_clone(&self) -> (r: Self) {
        ChoiceParserState {
            state1: match &self.state1 {
                Some(s) => Some(s.exact_clone()),
                None => None,
            },
            state2: match &self.state2 {
                Some(s) => Some(s.exact_clone()),
                None => None,
            },
        }
    }
}

/// The number of leading bytes that `a` and `b` share.
fn shared_prefix_len(a: &[u8], b: &[u8]) -> (r: usize)
    ensures
        r == common_prefix_len(a@, b@),
        r <= a@.len(),
{
    let mut i: usize = 0;
    proof {
        assert(a@.skip(0) =~= a@);
        assert(b@.skip(0) =~= b@);
    }
    while i < a.len() && i < b.len() && a[i] == b[i]
        invariant
            i <= a@.len(),
            i <= b@.len(),
            common_prefix_len(a@, b@) == i + common_prefix_len(a@.skip(i as int), b@.skip(i as int)),
        decreases a@.len() - i,
    {
        proof {
            assert(a@.skip(i as int).drop_first() =~= a@.skip(i + 1));
            assert(b@.skip(i as int).drop_first() =~= b@.skip(i + 1));
        }
        i = i + 1;
    }
    proof {
        if i < a@.len() && i < b@.len() {
            assert(a@.skip(i as int)[0] == a@[i as int]);
            assert(b@.skip(i as int)[0] == b@[i as int]);
        }
    }
    i
}

/// A parser for either of two alternatives. Both are advanced on the same input; one that
/// fails is dropped, and the first to finish gives the output.
#[derive(Debug, Clone, PartialEq, Eq)]
pub struct ChoiceParser<P1, P2> {
    pub parser1: P1,
    pub parser2: P2,
}

impl<P1, P2> ChoiceParser<P1, P2> {
    /// Create a parser for either `parser1` or `parser2`.
    pub fn new(parser1: P1, parser2: P2) -> (r: Self)
        ensures
            r.parser1 == parser1,
            r.parser2 == parser2,
    {
        ChoiceParser { parser1, parser2 }
    }
}

/// The model of a choice checkpoint.
pub type ChoiceStateModel<P1, P2> = ChoiceParserState<StateModel<P1>, StateModel<P2>>;

/// An alternative's step: a dead one stays failed.
pub open spec fn spec_alternative<P: Parser>(p: P, state: Option<StateModel<P>>, input: Seq<u8>) -> Progress<
    StateModel<P>,
    OutputModel<P>,
> {
    match state {
        Some(s) => p.spec_parse(s, input),
        None => Progress::Failed,
    }
}

impl<P1: Parser, P2: Parser> ChoiceParser<P1, P2> {
    /// Combines two alternatives that have not finished.
    pub open spec fn spec_combine(
        r1: Progress<StateModel<P1>, OutputModel<P1>>,
        r2: Progress<StateModel<P2>, OutputModel<P2>>,
    ) -> Progress<ChoiceStateModel<P1, P2>, Either<OutputModel<P1>, OutputModel<P2>>> {
        match (r1, r2) {
            (
                Progress::Incomplete { new_state: s1, required_next: n1 },
                Progress::Incomplete { new_state: s2, required_next: n2 },
            ) => Progress::Incomplete {
                new_state: ChoiceParserState { state1: Some(s1), state2: Some(s2) },
                required_next: common_prefix(n1, n2),
            },
            (Progress::Incomplete { new_state: s1, required_next: n1 }, _) => Progress::Incomplete {
                new_state: ChoiceParserState { state1: Some(s1), state2: None },
                required_next: n1,
            },
            (_, Progress::Incomplete { new_state: s2, required_next: n2 }) => Progress::Incomplete {
                new_state: ChoiceParserState { state1: None, state2: Some(s2) },
                required_next: n2,
            },
            _ => Progress::Failed,
        }
    }
}

impl<P1: Parser + CreateParserState, P2: Parser + CreateParserState> CreateParserState for ChoiceParser<
    P1,
    P2,
> {
    open spec fn spec_initial_state(&self) -> ChoiceStateModel<P1, P2> {
        ChoiceParserState {
            state1: Some(self.parser1.spec_initial_state()),
            state2: Some(self.parser2.spec_initial_state()),
        }
    }

    fn create_parser_state(&self) -> (r: ChoiceParserState<P1::PartialState, P2::PartialState>) {
        ChoiceParserState {
            state1: Some(self.parser1.create_parser_state()),
            state2: Some(self.parser2.create_parser_state()),
        }
    }
}

impl<P1: Parser, P2: Parser> Parser for ChoiceParser<P1, P2> {
    type Output = Either<P1::Output, P2::Output>;

    type PartialState = ChoiceParserState<P1::PartialState, P2::PartialState>;

    open spec fn spec_parse(&self, state: ChoiceStateModel<P1, P2>, input: Seq<u8>) -> Progress<
        ChoiceStateModel<P1, P2>,
        Either<OutputModel<P1>, OutputModel<P2>>,
    > {
        let r1 = spec_alternative(self.parser1, state.state1, input);
        let r2 = spec_alternative(self.parser2, state.state2, input);
        match r1 {
            Progress::Finished { result, remaining } => Progress::Finished {
                result: Either::Left(result),
                remaining,
            },
            _ => match r2 {
                Progress::Finished { result, remaining } => Progress::Finished {
                    result: Either::Right(result),
                    remaining,
                },
                _ => Self::spec_combine(r1, r2),
            },
        }
    }

    fn parse<'a>(
        &'a self,
        state: &ChoiceParserState<P1::PartialState, P2::PartialState>,
        input: &'a [u8],
    ) -> (r: ParseResult<
        ParseStatus<
            'a,
            ChoiceParserState<P1::PartialState, P2::PartialState>,
            Either<P1::Output, P2::Output>,
        >,
    >) {
        let first = match &state.state1 {
            Some(s1) => self.parser1.parse(s1, input),
            None => Err(ParseError),
        };
        assert(progress_of(first) == spec_alternative(
            self.parser1,
            state.deep_view().state1,
            input@,
        ));
        let alive1 = match first {
            Ok(ParseStatus::Finished { result, remaining }) => {
                return Ok(ParseStatus::Finished { result: Either::Left(result), remaining });
            },
            Ok(ParseStatus::Incomplete { new_state, required_next }) => Some(
                (new_state, required_next),
            ),
            Err(_) => None,
        };
        let second = match &state.state2 {
            Some(s2) => self.parser2.parse(s2, input),
            None => Err(ParseError),
        };
        assert(progress_of(second) == spec_alternative(
            self.parser2,
            state.deep_view().state2,
            input@,
        ));
        let alive2 = match second {
            Ok(ParseStatus::Finished { result, remaining }) => {
                return Ok(ParseStatus::Finished { result: Either::Right(result), remaining });
            },
            Ok(ParseStatus::Incomplete { new_state, required_next }) => Some(
                (new_state, required_next),
            ),
            Err(_) => None,
        };
        match (alive1, alive2) {
            (Some((s1, n1)), Some((s2, n2))) => {
                // Only the bytes that both alternatives require are required.
                let k = shared_prefix_len(n1.as_bytes(), n2.as_bytes());
                let required_next = n1.truncated(k);
                Ok(
                    ParseStatus::Incomplete {
                        new_state: ChoiceParserState { state1: Some(s1), state2: Some(s2) },
                        required_next,
                    },
                )
            },
            (Some((s1, n1)), None) => Ok(
                ParseStatus::Incomplete {
                    new_state: ChoiceParserState { state1: Some(s1), state2: None },
                    required_next: n1,
                },
            ),
            (None, Some((s2, n2))) => Ok(
                ParseStatus::Incomplete {
                    new_state: ChoiceParserState { state1: None, state2: Some(s2) },
                    required_next: n2,
                },
            ),
            (None, None) => Err(ParseError),
        }
    }
}

} // verus!
