//! An incremental, resumable parser-combinator engine for grammar-constrained decoding.
//!
//! Every parser consumes input in arbitrary increments, returns a checkpoint when it needs more
//! bytes, and reports the bytes that any further input must start with. Each step is stated as
//! a spec function of the checkpoint's model and the input, and the executable step is proved
//! to compute exactly that.
mod choice;
mod ext;
mod integer;
mod literal;
mod parser;
mod range;
mod repeat;
mod sequence;
mod status;

pub use choice::{ChoiceParser, ChoiceParserState, Either};
pub use ext::ParserExt;
pub use integer::{IntegerParser, IntegerParserState};
pub use literal::{LiteralParser, LiteralParserOffset};
pub use parser::{lemma_parse_repeatable, CreateParserState, ExactClone, Parser};
pub use repeat::{
    lemma_max_repetitions_finish, lemma_repeat_within_bound, RepeatParser, RepeatParserState,
    RepeatStateModel,
};
pub use sequence::{IgnoreOutputThenParser, SequenceParser, SequenceParserState};
pub use status::{ParseError, ParseResult, ParseStatus, Progress, RequiredNext};
