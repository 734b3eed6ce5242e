use vstd::prelude::*;

use crate::parser::{
    CreateParserState, ExactClone, OutputModel, Parser, ParserProgress, StateModel,
};
use crate::status::{progress_of, ParseResult, ParseStatus, Progress, RequiredNext};

verus! {

/// The model of a repetition checkpoint.
pub struct RepeatStateModel<S, O> {
    /// A repetition attempt has consumed input and not finished yet.
    pub in_progress: bool,
    /// The checkpoint of the repeated parser.
    pub last_state: S,
    /// The outputs of the completed repetitions, in order.
    pub outputs: Seq<O>,
}

/// State of a repeat parser.
#[derive(Debug, Clone, PartialEq, Eq)]
pub struct RepeatParserState<P: Parser> {
    pub new_state_in_progress: bool,
    pub last_state: P::PartialState,
    pub outputs: Vec<P::Output>,
}

impl<P: Parser> DeepView for RepeatParserState<P> {
    type V = RepeatStateModel<StateModel<P>, OutputModel<P>>;

    open spec fn deep_view(&self) -> Self::V {
        RepeatStateModel {
            in_progress: self.new_state_in_progress,
            last_state: self.last_state.deep_view(),
            outputs: self.outputs.deep_view(),
        }
    }
}

impl<P: Parser> ExactClone for RepeatParserState<P> {
    fn exact_clone(&self) -> (r: Self) {
        RepeatParserState {
            new_state_in_progress: self.new_state_in_progress,
            last_state: self.last_state.exact_clone(),
            outputs: self.outputs.exact_clone(),
        }
    }
}

impl<P: Parser> RepeatParserState<P> {
    /// Create a new repeat parser state.
    pub fn new(state: P::PartialState, outputs: Vec<P::Output>) -> (r: Self)
        ensures
            r.deep_view() == (RepeatStateModel {
                in_progress: false,
                last_state: state.deep_view(),
                outputs: outputs.deep_view(),
            }),
    {
        RepeatParserState { new_state_in_progress: false, last_state: state, outputs }
    }
}

/// A parser that runs another parser repeatedly, between `min` and `max` times (inclusive).
/// `max` is a hard ceiling: the repetition finishes as soon as it holds `max` outputs.
#[derive(Debug, Clone, PartialEq, Eq)]
pub struct RepeatParser<P> {
    pub parser: P,
    pub min: usize,
    pub max: usize,
}

impl<P: Parser> Default for RepeatParserState<P> where P::PartialState: Default {
    fn default() -> (r: Self)
        ensures
            r.new_state_in_progress == false,
            r.outputs@.len() == 0,
    {
        RepeatParserState {
            new_state_in_progress: false,
            last_state: P::PartialState::default(),
            outputs: Vec::new(),
        }
    }
}

impl<P: Default> Default for RepeatParser<P> {
    /// Any number of repetitions.
    fn default() -> (r: Self)
        ensures
            r.min == 0,
            r.max == usize::MAX,
    {
        RepeatParser { parser: P::default(), min: 0, max: usize::MAX }
    }
}

impl<P> RepeatParser<P> {
    /// Create a new repeat parser.
    pub fn new(parser: P, length_range: core::ops::RangeInclusive<usize>) -> (r: Self)
        ensures
            r.parser == parser,
            !length_range@.exhausted ==> r.min == length_range@.start && r.max
                == length_range@.end,
    {
        let min = *length_range.start();
        let max = *length_range.end();
        RepeatParser { parser, min, max }
    }
}

impl<P: Parser + CreateParserState> RepeatParser<P> {
    /// The count of repetitions lies within the bound.
    pub open spec fn spec_in_bounds(&self, count: int) -> bool {
        self.min <= count <= self.max
    }

    /// The hint at a pause after `count` completed repetitions with no input left: nothing
    /// where stopping is legal, else what a fresh repetition needs first.
    pub open spec fn spec_pause_hint(&self, count: int) -> Seq<u8> {
        if self.spec_in_bounds(count) {
            Seq::empty()
        } else {
            match self.parser.spec_parse(self.parser.spec_initial_state(), Seq::empty()) {
                Progress::Incomplete { required_next, .. } => required_next,
                _ => Seq::empty(),
            }
        }
    }

    /// A checkpoint right after a completed repetition.
    pub open spec fn spec_fresh(&self, outputs: Seq<OutputModel<P>>) -> RepeatStateModel<
        StateModel<P>,
        OutputModel<P>,
    > {
        RepeatStateModel {
            in_progress: false,
            last_state: self.parser.spec_initial_state(),
            outputs,
        }
    }

    /// Repeats the parser greedily from `st` over `input`:
    /// - a finished repetition appends its output and restarts the child from a fresh
    ///   checkpoint; reaching `max` outputs finishes at once, running out of input pauses with
    ///   `spec_pause_hint`, and otherwise the next repetition starts on the remaining bytes;
    /// - a paused repetition pauses the whole, marked in progress, with the child's hint;
    /// - a failed repetition ends the sequence, leaving the bytes it was given, where no
    ///   repetition is in progress and the count lies within the bound; else the step fails.
    pub open spec fn spec_repeat(
        &self,
        st: RepeatStateModel<StateModel<P>, OutputModel<P>>,
        input: Seq<u8>,
    ) -> Progress<RepeatStateModel<StateModel<P>, OutputModel<P>>, Seq<OutputModel<P>>>
        decreases self.max - st.outputs.len(),
    {
        match self.parser.spec_parse(st.last_state, input) {
            Progress::Finished { result, remaining } => {
                let outputs = st.outputs.push(result);
                if outputs.len() >= self.max {
                    Progress::Finished { result: outputs, remaining }
                } else if remaining.len() == 0 {
                    Progress::Incomplete {
                        new_state: self.spec_fresh(outputs),
                        required_next: self.spec_pause_hint(outputs.len() as int),
                    }
                } else {
                    self.spec_repeat(self.spec_fresh(outputs), remaining)
                }
            },
            Progress::Incomplete { new_state, required_next } => Progress::Incomplete {
                new_state: RepeatStateModel {
                    in_progress: true,
                    last_state: new_state,
                    outputs: st.outputs,
                },
                required_next,
            },
            Progress::Failed => {
                if !st.in_progress && self.spec_in_bounds(st.outputs.len() as int) {
                    Progress::Finished { result: st.outputs, remaining: input }
                } else {
                    Progress::Failed
                }
            },
        }
    }
}

impl<P: Parser + CreateParserState> CreateParserState for RepeatParser<P> {
    open spec fn spec_initial_state(&self) -> RepeatStateModel<StateModel<P>, OutputModel<P>> {
        self.spec_fresh(Seq::empty())
    }

    fn create_parser_state(&self) -> (r: RepeatParserState<P>) {
        let r = RepeatParserState {
            new_state_in_progress: false,
            last_state: self.parser.create_parser_state(),
            outputs: Vec::new(),
        };
        proof {
            assert(r.outputs.deep_view() =~= Seq::<OutputModel<P>>::empty());
        }
        r
    }
}

impl<P: Parser + CreateParserState> Parser for RepeatParser<P> {
    type Output = Vec<P::Output>;

    type PartialState = RepeatParserState<P>;

    open spec fn spec_parse(
        &self,
        state: RepeatStateModel<StateModel<P>, OutputModel<P>>,
        input: Seq<u8>,
    ) -> Progress<RepeatStateModel<StateModel<P>, OutputModel<P>>, Seq<OutputModel<P>>> {
        self.spec_repeat(state, input)
    }

    fn parse<'a>(&'a self, state: &RepeatParserState<P>, input: &'a [u8]) -> (r: ParseResult<
        ParseStatus<'a, RepeatParserState<P>, Vec<P::Output>>,
    >) {
        let ghost start = state.deep_view();
        let mut current = state.exact_clone();
        let mut remaining: &'a [u8] = input;
        loop
            invariant
                start == state.deep_view(),
                self.spec_repeat(current.deep_view(), remaining@) == self.spec_repeat(start, input@),
            decreases self.max - current.outputs@.len(),
        {
            let ghost st = current.deep_view();
            let ghost rem = remaining@;
            let result = self.parser.parse(&current.last_state, remaining);
            assert(progress_of(result) == self.parser.spec_parse(st.last_state, rem));
            match result {
                Ok(ParseStatus::Finished { result, remaining: new_remaining }) => {
                    let ghost out = result.deep_view();
                    current.outputs.push(result);
                    current.last_state = self.parser.create_parser_state();
                    current.new_state_in_progress = false;
                    remaining = new_remaining;
                    proof {
                        assert(current.outputs.deep_view() =~= st.outputs.push(out));
                    }
                    // The upper bound is a hard ceiling: stop as soon as it is reached.
                    if current.outputs.len() >= self.max {
                        return Ok(ParseStatus::Finished { result: current.outputs, remaining });
                    }
                    if remaining.len() == 0 {
                        let count = current.outputs.len();
                        let required_next = if self.min <= count && count <= self.max {
                            RequiredNext::empty()
                        } else {
                            // Another repetition is mandatory: ask a fresh one what it needs.
                            let probe = self.parser.parse(&current.last_state, remaining);
                            proof {
                                assert(remaining@ =~= Seq::<u8>::empty());
                                assert(progress_of(probe) == self.parser.spec_parse(
                                    self.parser.spec_initial_state(),
                                    Seq::empty(),
                                ));
                            }
                            match probe {
                                Ok(ParseStatus::Incomplete { required_next, .. }) => required_next,
                                _ => RequiredNext::empty(),
                            }
                        };
                        return Ok(ParseStatus::Incomplete { new_state: current, required_next });
                    }
                },
                Ok(ParseStatus::Incomplete { new_state, required_next }) => {
                    current.last_state = new_state;
                    current.new_state_in_progress = true;
                    return Ok(ParseStatus::Incomplete { new_state: current, required_next });
                },
                Err(e) => {
                    // The sequence may end here only between repetitions and within the bound.
                    let count = current.outputs.len();
                    if !current.new_state_in_progress && self.min <= count && count <= self.max {
                        return Ok(ParseStatus::Finished { result: current.outputs, remaining });
                    } else {
                        return Err(e);
                    }
                },
            }
        }
    }
}

/// The model of a repetition's step.
pub type RepeatProgress<P> = Progress<
    RepeatStateModel<StateModel<P>, OutputModel<P>>,
    Seq<OutputModel<P>>,
>;

/// The repeated parser, run from fresh checkpoints, reads `outs[i]` from `tails[i]` and leaves
/// `tails[i + 1]`, for every `i` below the upper bound.
pub open spec fn spec_chain<P: Parser + CreateParserState>(
    rp: RepeatParser<P>,
    tails: Seq<Seq<u8>>,
    outs: Seq<OutputModel<P>>,
) -> bool {
    &&& tails.len() == rp.max + 1
    &&& outs.len() == rp.max
    &&& forall|i: int|
        0 <= i < rp.max ==> #[trigger] rp.parser.spec_parse(rp.parser.spec_initial_state(), tails[i])
            == (ParserProgress::<P>::Finished { result: outs[i], remaining: tails[i + 1] })
}

proof fn lemma_chain_from<P: Parser + CreateParserState>(
    rp: RepeatParser<P>,
    tails: Seq<Seq<u8>>,
    outs: Seq<OutputModel<P>>,
    i: int,
)
    requires
        spec_chain(rp, tails, outs),
        0 <= i < rp.max,
        forall|j: int| 0 < j < rp.max ==> #[trigger] tails[j].len() > 0,
    ensures
        rp.spec_repeat(rp.spec_fresh(outs.take(i)), tails[i]) == (RepeatProgress::<P>::Finished {
            result: outs,
            remaining: tails[rp.max as int],
        }),
    decreases rp.max - i,
{
    assert(outs.take(i).push(outs[i]) =~= outs.take(i + 1));
    assert(rp.parser.spec_parse(rp.parser.spec_initial_state(), tails[i]) == (ParserProgress::<P>::Finished {
        result: outs[i],
        remaining: tails[i + 1],
    }));
    if i + 1 < rp.max {
        assert(tails[i + 1].len() > 0);
        lemma_chain_from(rp, tails, outs, i + 1);
    } else {
        assert(outs.take(i + 1) =~= outs);
    }
}

/// Feeding a repetition with upper bound `max` an input that holds `max` complete
/// repetitions finishes it with those `max` outputs and leaves exactly the bytes after the
/// last one, even where more repetitions could follow. Every repetition but the last leaves
/// input behind (a repetition that reads nothing at the end of the input pauses instead).
/// With an input of exactly `max` repetitions, the remainder is empty.
pub proof fn lemma_max_repetitions_finish<P: Parser + CreateParserState>(
    rp: RepeatParser<P>,
    tails: Seq<Seq<u8>>,
    outs: Seq<OutputModel<P>>,
)
    requires
        rp.max >= 1,
        spec_chain(rp, tails, outs),
        forall|j: int| 0 < j < rp.max ==> #[trigger] tails[j].len() > 0,
    ensures
        rp.spec_parse(rp.spec_initial_state(), tails[0]) == (RepeatProgress::<P>::Finished {
            result: outs,
            remaining: tails[rp.max as int],
        }),
{
    assert(outs.take(0) =~= Seq::<OutputModel<P>>::empty());
    lemma_chain_from(rp, tails, outs, 0);
}

/// A paused checkpoint holds fewer than `max` outputs, and a finished repetition returns at
/// most `max` outputs.
pub open spec fn spec_within_bound<S, O>(p: Progress<RepeatStateModel<S, O>, Seq<O>>, max: int) -> bool {
    match p {
        Progress::Incomplete { new_state, .. } => new_state.outputs.len() < max,
        Progress::Finished { result, .. } => result.len() <= max,
        Progress::Failed => true,
    }
}

/// A checkpoint never holds more outputs than the upper bound: a step from a checkpoint below
/// the bound pauses below it, or finishes with at most `max` outputs. The starting checkpoint
/// is below the bound whenever `max` is at least one.
pub proof fn lemma_repeat_within_bound<P: Parser + CreateParserState>(
    rp: RepeatParser<P>,
    st: RepeatStateModel<StateModel<P>, OutputModel<P>>,
    input: Seq<u8>,
)
    requires
        st.outputs.len() < rp.max,
    ensures
        spec_within_bound(rp.spec_parse(st, input), rp.max as int),
    decreases rp.max - st.outputs.len(),
{
    match rp.parser.spec_parse(st.last_state, input) {
        Progress::Finished { result, remaining } => {
            let outputs = st.outputs.push(result);
            if outputs.len() < rp.max && remaining.len() != 0 {
                lemma_repeat_within_bound(rp, rp.spec_fresh(outputs), remaining);
            }
        },
        _ => {},
    }
}

} // verus!
