use vstd::prelude::*;
use vstd::slice::slice_subrange;

use crate::parser::{CreateParserState, ExactClone, Parser};
use crate::status::{progress_of, ParseError, ParseResult, ParseStatus, Progress, RequiredNext};

verus! {

/// The digits of an integer read so far.
#[derive(Debug, Clone, Copy, PartialEq, Eq)]
pub struct IntegerParserState {
    /// At least one digit has been read.
    pub started: bool,
    /// The value of the digits read.
    pub value: u64,
}

impl DeepView for IntegerParserState {
    type V = IntegerParserState;

    open spec fn deep_view(&self) -> IntegerParserState {
        *self
    }
}

impl Default for IntegerParserState {
    /// No digit read yet.
    fn default() -> (r: Self)
        ensures
            r == (IntegerParserState { started: false, value: 0 }),
    {
        IntegerParserState { started: false, value: 0 }
    }
}

impl ExactClone for IntegerParserState {
    fn exact_clone(&self) -> (r: Self) {
        *self
    }
}

/// A parser for an unsigned decimal integer within an inclusive range. It reads digits while
/// the value stays at most `max`, and ends the integer at the first byte that cannot extend it.
#[derive(Debug, Clone, PartialEq, Eq)]
pub struct IntegerParser {
    pub min: u64,
    pub max: u64,
}

/// An ASCII decimal digit.
pub open spec fn is_digit(b: u8) -> bool {
    48 <= b <= 57
}

/// The value after appending the digit `d`.
pub open spec fn extended(st: IntegerParserState, d: int) -> int {
    if st.started {
        st.value * 10 + d
    } else {
        d
    }
}

/// One step of reading an integer in `[min, max]` from `st` over `input`.
pub open spec fn spec_integer_step(
    min: u64,
    max: u64,
    st: IntegerParserState,
    input: Seq<u8>,
) -> Progress<IntegerParserState, u64>
    decreases input.len(),
{
    if input.len() == 0 {
        if st.started && st.value * 10 > max {
            // No digit can follow: the integer ends here.
            if min <= st.value <= max {
                Progress::Finished { result: st.value, remaining: input }
            } else {
                Progress::Failed
            }
        } else {
            Progress::Incomplete { new_state: st, required_next: Seq::empty() }
        }
    } else {
        let b = input[0];
        if is_digit(b) && extended(st, b - 48) <= max {
            spec_integer_step(
                min,
                max,
                IntegerParserState { started: true, value: extended(st, b - 48) as u64 },
                input.drop_first(),
            )
        } else if st.started && min <= st.value <= max {
            Progress::Finished { result: st.value, remaining: input }
        } else {
            Progress::Failed
        }
    }
}

proof fn lemma_times_ten_bound(v: u64, max: u64)
    ensures
        v <= max / 10 ==> v * 10 <= max,
        v > max / 10 ==> v * 10 > max,
{
    assert(v <= max / 10 ==> v * 10 <= max) by (nonlinear_arith);
    assert(v > max / 10 ==> v * 10 > max) by (nonlinear_arith);
}

/// The value after appending the digit `d`, where it stays at most `max`.
fn extend_within(st: IntegerParserState, d: u64, max: u64) -> (r: Option<u64>)
    requires
        d <= 9,
    ensures
        r matches Some(v) ==> v == extended(st, d as int) && v <= max,
        r is None ==> extended(st, d as int) > max,
{
    proof {
        lemma_times_ten_bound(st.value, max);
    }
    if !st.started {
        if d <= max {
            Some(d)
        } else {
            None
        }
    } else if st.value <= max / 10 {
        let v = st.value * 10;
        if d <= max - v {
            Some(v + d)
        } else {
            None
        }
    } else {
        None
    }
}

impl Default for IntegerParser {
    /// Any unsigned 64-bit integer.
    fn default() -> (r: Self)
        ensures
            r.min == 0,
            r.max == u64::MAX,
    {
        IntegerParser { min: 0, max: u64::MAX }
    }
}

impl IntegerParser {
    /// Create a parser for integers within `range`.
    pub fn new(range: core::ops::RangeInclusive<u64>) -> (r: Self)
        ensures
            !range@.exhausted ==> r.min == range@.start && r.max == range@.end,
    {
        let min = *range.start();
        let max = *range.end();
        IntegerParser { min, max }
    }
}

impl CreateParserState for IntegerParser {
    open spec fn spec_initial_state(&self) -> IntegerParserState {
        IntegerParserState { started: false, value: 0 }
    }

    fn create_parser_state(&self) -> (r: IntegerParserState) {
        IntegerParserState { started: false, value: 0 }
    }
}

impl Parser for IntegerParser {
    type Output = u64;

    type PartialState = IntegerParserState;

    open spec fn spec_parse(&self, state: IntegerParserState, input: Seq<u8>) -> Progress<
        IntegerParserState,
        u64,
    > {
        spec_integer_step(self.min, self.max, state, input)
    }

    fn parse<'a>(&'a self, state: &IntegerParserState, input: &'a [u8]) -> (r: ParseResult<
        ParseStatus<'a, IntegerParserState, u64>,
    >) {
        let mut current = *state;
        let mut i: usize = 0;
        proof {
            assert(input@.skip(0) =~= input@);
        }
        while i < input.len()
            invariant
                i <= input@.len(),
                spec_integer_step(self.min, self.max, current, input@.skip(i as int))
                    == spec_integer_step(self.min, self.max, *state, input@),
            decreases input@.len() - i,
        {
            let b = input[i];
            proof {
                assert(input@.skip(i as int)[0] == b);
                assert(input@.skip(i as int).drop_first() =~= input@.skip(i + 1));
            }
            let next = if 48 <= b && b <= 57 {
                extend_within(current, (b - 48) as u64, self.max)
            } else {
                None
            };
            match next {
                Some(v) => {
                    current = IntegerParserState { started: true, value: v };
                },
                None => {
                    if current.started && self.min <= current.value && current.value <= self.max {
                        return Ok(
                            ParseStatus::Finished {
                                result: current.value,
                                remaining: slice_subrange(input, i, input.len()),
                            },
                        );
                    } else {
                        return Err(ParseError);
                    }
                },
            }
            i = i + 1;
        }
        proof {
            lemma_times_ten_bound(current.value, self.max);
            assert(input@.skip(i as int) =~= Seq::<u8>::empty());
        }
        if current.started && current.value > self.max / 10 {
            if self.min <= current.value && current.value <= self.max {
                Ok(
                    ParseStatus::Finished {
                        result: current.value,
                        remaining: slice_subrange(input, i, input.len()),
                    },
                )
            } else {
                Err(ParseError)
            }
        } else {
            Ok(ParseStatus::Incomplete { new_state: current, required_next: RequiredNext::empty() })
        }
    }
}

} // verus!
