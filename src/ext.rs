use vstd::prelude::*;

use crate::choice::ChoiceParser;
use crate::parser::Parser;
use crate::repeat::RepeatParser;
use crate::sequence::{IgnoreOutputThenParser, SequenceParser};

verus! {

/// Builders for the combinators, available on every parser.
pub trait ParserExt: Parser + Sized {
    /// This parser followed by `other`, with both outputs.
    fn then<P2>(self, other: P2) -> (r: SequenceParser<Self, P2>)
        ensures
            r.parser1 == self,
            r.parser2 == other,
    {
        SequenceParser::new(self, other)
    }

    /// This parser followed by `other`, keeping only the output of `other`.
    fn ignore_output_then<P2>(self, other: P2) -> (r: IgnoreOutputThenParser<Self, P2>)
        ensures
            r.parser1 == self,
            r.parser2 == other,
    {
        IgnoreOutputThenParser::new(self, other)
    }

    /// Either this parser or `other`.
    fn or<P2>(self, other: P2) -> (r: ChoiceParser<Self, P2>)
        ensures
            r.parser1 == self,
            r.parser2 == other,
    {
        ChoiceParser::new(self, other)
    }

    /// This parser repeated a number of times within `length_range`.
    fn repeat(self, length_range: core::ops::RangeInclusive<usize>) -> (r: RepeatParser<Self>)
        ensures
            r.parser == self,
            !length_range@.exhausted ==> r.min == length_range@.start && r.max
                == length_range@.end,
    {
        RepeatParser::new(self, length_range)
    }
}

impl<P: Parser> ParserExt for P {

}

} // verus!
