use vstd::prelude::*;
use vstd::slice::{slice_subrange, slice_to_vec};
use vstd::string::StringSliceAdditionalSpecFns;

use crate::parser::{CreateParserState, ExactClone, Parser};
use crate::status::{progress_of, ParseError, ParseResult, ParseStatus, Progress, RequiredNext};

verus! {

/// How much of a literal has been matched.
#[derive(Debug, Clone, Copy, PartialEq, Eq)]
pub struct LiteralParserOffset {
    pub offset: usize,
}

impl DeepView for LiteralParserOffset {
    type V = usize;

    open spec fn deep_view(&self) -> usize {
        self.offset
    }
}

impl ExactClone for LiteralParserOffset {
    fn exact_clone(&self) -> (r: Self) {
        *self
    }
}

impl LiteralParserOffset {
    /// A checkpoint after `offset` bytes of the literal.
    pub fn new(offset: usize) -> (r: Self)
        ensures
            r.deep_view() == offset,
    {
        LiteralParserOffset { offset }
    }

    /// The number of bytes of the literal matched so far.
    pub fn offset(&self) -> (r: usize)
        ensures
            r == self.deep_view(),
    {
        self.offset
    }
}

/// A parser for one fixed byte sequence.
#[derive(Debug, Clone, PartialEq, Eq)]
pub struct LiteralParser {
    pub literal: Vec<u8>,
}

/// One step of matching `literal` from `offset` over `input`.
pub open spec fn spec_literal_step(literal: Seq<u8>, offset: int, input: Seq<u8>) -> Progress<
    usize,
    (),
> {
    if offset > literal.len() {
        Progress::Failed
    } else {
        let rest = literal.skip(offset);
        if input.len() >= rest.len() {
            if input.take(rest.len() as int) == rest {
                Progress::Finished { result: (), remaining: input.skip(rest.len() as int) }
            } else {
                Progress::Failed
            }
        } else if rest.take(input.len() as int) == input {
            Progress::Incomplete {
                new_state: (offset + input.len()) as usize,
                required_next: rest.skip(input.len() as int),
            }
        } else {
            Progress::Failed
        }
    }
}

impl LiteralParser {
    /// The bytes this parser matches.
    pub open spec fn spec_literal(&self) -> Seq<u8> {
        self.literal@
    }

    /// Create a parser for the UTF-8 bytes of `literal`.
    pub fn new(literal: &str) -> (r: Self)
        ensures
            r.spec_literal() == literal.spec_bytes(),
    {
        LiteralParser { literal: slice_to_vec(literal.as_bytes()) }
    }

    /// Create a parser for the given bytes.
    pub fn from_bytes(literal: &[u8]) -> (r: Self)
        ensures
            r.spec_literal() == literal@,
    {
        LiteralParser { literal: slice_to_vec(literal) }
    }

    /// The bytes this parser matches.
    pub fn literal(&self) -> (r: &[u8])
        ensures
            r@ == self.spec_literal(),
    {
        self.literal.as_slice()
    }
}

impl CreateParserState for LiteralParser {
    open spec fn spec_initial_state(&self) -> usize {
        0
    }

    fn create_parser_state(&self) -> (r: LiteralParserOffset) {
        LiteralParserOffset { offset: 0 }
    }
}

impl Parser for LiteralParser {
    type Output = ();

    type PartialState = LiteralParserOffset;

    open spec fn spec_parse(&self, state: usize, input: Seq<u8>) -> Progress<usize, ()> {
        spec_literal_step(self.literal@, state as int, input)
    }

    fn parse<'a>(&'a self, state: &LiteralParserOffset, input: &'a [u8]) -> (r: ParseResult<
        ParseStatus<'a, LiteralParserOffset, ()>,
    >) {
        let offset = state.offset;
        let literal = self.literal.as_slice();
        if offset > literal.len() {
            return Err(ParseError);
        }
        let rest_len = literal.len() - offset;
        let n = if input.len() < rest_len {
            input.len()
        } else {
            rest_len
        };
        let ghost rest = literal@.skip(offset as int);
        let mut i: usize = 0;
        while i < n
            invariant
                literal@ == self.literal@,
                offset == state.deep_view(),
                offset <= literal@.len(),
                rest == literal@.skip(offset as int),
                offset + rest_len == literal@.len(),
                offset + rest_len <= usize::MAX,
                n <= input@.len(),
                n <= rest_len,
                i <= n,
                input@.take(i as int) == rest.take(i as int),
            decreases n - i,
        {
            if input[i] != literal[offset + i] {
                proof {
                    assert(input@.take(n as int)[i as int] != rest.take(n as int)[i as int]);
                    assert(input@.take(n as int) != rest.take(n as int));
                    assert(rest.take(rest.len() as int) =~= rest);
                    assert(input@.take(input@.len() as int) =~= input@);
                }
                return Err(ParseError);
            }
            proof {
                assert(input@.take(i + 1) =~= input@.take(i as int).push(input@[i as int]));
                assert(rest.take(i + 1) =~= rest.take(i as int).push(rest[i as int]));
            }
            i = i + 1;
        }
        if input.len() >= rest_len {
            proof {
                assert(rest.take(rest.len() as int) =~= rest);
            }
            Ok(ParseStatus::Finished { result: (), remaining: slice_subrange(input, rest_len, input.len()) })
        } else {
            proof {
                assert(input@.take(n as int) =~= input@);
                assert(literal@.skip(offset + input@.len()) =~= rest.skip(input@.len() as int));
            }
            Ok(
                ParseStatus::Incomplete {
                    new_state: LiteralParserOffset { offset: offset + input.len() },
                    required_next: RequiredNext::Borrowed(
                        slice_subrange(literal, offset + input.len(), literal.len()),
                    ),
                },
            )
        }
    }
}

} // verus!
