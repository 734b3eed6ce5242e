use vstd::prelude::*;

use crate::status::{progress_of, ParseResult, ParseStatus, Progress};

verus! {

/// A value whose copies denote the same thing: checkpoints and outputs are copied before a
/// step changes them, so that the caller's value stays as it was.
pub trait ExactClone: DeepView + Sized {
    fn exact_clone(&self) -> (r: Self)
        ensures
            r.deep_view() == self.deep_view(),
    ;
}

impl ExactClone for u64 {
    fn exact_clone(&self) -> (r: u64) {
        *self
    }
}

impl ExactClone for () {
    fn exact_clone(&self) -> (r: ()) {
    }
}

impl<A: ExactClone, B: ExactClone> ExactClone for (A, B) {
    fn exact_clone(&self) -> (r: (A, B)) {
        (self.0.exact_clone(), self.1.exact_clone())
    }
}

impl<T: ExactClone> ExactClone for Vec<T> {
    fn exact_clone(&self) -> (r: Vec<T>) {
        let mut r: Vec<T> = Vec::new();
        let mut i: usize = 0;
        while i < self.len()
            invariant
                i <= self@.len(),
                r@.len() == i,
                forall|j: int| 0 <= j < i ==> #[trigger] r@[j].deep_view() == self@[j].deep_view(),
            decreases self@.len() - i,
        {
            r.push(self[i].exact_clone());
            i = i + 1;
        }
        proof {
            assert(r.deep_view() =~= self.deep_view());
        }
        r
    }
}

/// The model of a parser's checkpoint.
pub type StateModel<P> = <<P as Parser>::PartialState as DeepView>::V;

/// The model of a parser's output.
pub type OutputModel<P> = <<P as Parser>::Output as DeepView>::V;

/// The model of a parser's step.
pub type ParserProgress<P> = Progress<StateModel<P>, OutputModel<P>>;

/// An incremental parser. A step takes a checkpoint and newly available bytes and either
/// finishes with an output and the unconsumed bytes, pauses with a new checkpoint and the bytes
/// that must come next, or fails.
pub trait Parser {
    type Output: ExactClone;
    type PartialState: ExactClone;

    /// What one step from a checkpoint on the given bytes results in.
    spec fn spec_parse(&self, state: <Self::PartialState as DeepView>::V, input: Seq<u8>) -> Progress<
        <Self::PartialState as DeepView>::V,
        <Self::Output as DeepView>::V,
    >;

    /// Advances `state` over `input`. The step depends on the checkpoint's model and the bytes
    /// alone, so running it again on a copy of the checkpoint gives the same outcome.
    fn parse<'a>(&'a self, state: &Self::PartialState, input: &'a [u8]) -> (r: ParseResult<
        ParseStatus<'a, Self::PartialState, Self::Output>,
    >)
        ensures
            progress_of(r) == self.spec_parse(state.deep_view(), input@),
    ;
}

/// A parser that can build its starting checkpoint without any input.
pub trait CreateParserState: Parser {
    /// The model of the starting checkpoint.
    spec fn spec_initial_state(&self) -> <Self::PartialState as DeepView>::V;

    fn create_parser_state(&self) -> (r: Self::PartialState)
        ensures
            r.deep_view() == self.spec_initial_state(),
    ;
}

/// A step is a function of the checkpoint and the bytes: running it on a checkpoint and again
/// on an exact copy of that checkpoint, with the same bytes, gives the same outcome.
pub proof fn lemma_parse_repeatable<'a, P: Parser>(
    parser: &'a P,
    state: &P::PartialState,
    copy: P::PartialState,
    input: &'a [u8],
    first: ParseResult<ParseStatus<'a, P::PartialState, P::Output>>,
    second: ParseResult<ParseStatus<'a, P::PartialState, P::Output>>,
)
    requires
        call_ensures(P::PartialState::exact_clone, (state,), copy),
        call_ensures(P::parse, (parser, state, input), first),
        call_ensures(P::parse, (parser, &copy, input), second),
    ensures
        progress_of(first) == progress_of(second),
{
}

} // verus!
