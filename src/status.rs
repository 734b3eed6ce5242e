use vstd::prelude::*;
use vstd::slice::slice_subrange;

verus! {

/// The error of a parse step: the input cannot continue the grammar from the given checkpoint.
#[derive(Debug, Clone, Copy, PartialEq, Eq)]
pub struct ParseError;

/// The result of a parse step.
pub type ParseResult<T> = Result<T, ParseError>;

/// Bytes that must prefix any further input. Literal fragments are borrowed from the parser;
/// computed hints are owned.
#[derive(Debug, Clone)]
pub enum RequiredNext<'a> {
    Borrowed(&'a [u8]),
    Owned(Vec<u8>),
}

impl<'a> View for RequiredNext<'a> {
    type V = Seq<u8>;

    open spec fn view(&self) -> Seq<u8> {
        match self {
            RequiredNext::Borrowed(b) => b@,
            RequiredNext::Owned(v) => v@,
        }
    }
}

impl<'a> RequiredNext<'a> {
    /// The empty hint: stopping here is legal.
    pub fn empty() -> (r: Self)
        ensures
            r@ == Seq::<u8>::empty(),
    {
        RequiredNext::Owned(Vec::new())
    }

    /// The bytes of the hint.
    pub fn as_bytes(&self) -> (r: &[u8])
        ensures
            r@ == self@,
    {
        match self {
            RequiredNext::Borrowed(b) => b,
            RequiredNext::Owned(v) => v.as_slice(),
        }
    }

    pub fn len(&self) -> (r: usize)
        ensures
            r == self@.len(),
    {
        match self {
            RequiredNext::Borrowed(b) => b.len(),
            RequiredNext::Owned(v) => v.len(),
        }
    }

    pub fn is_empty(&self) -> (r: bool)
        ensures
            r == (self@.len() == 0),
    {
        self.len() == 0
    }

    /// Keeps the first `n` bytes of the hint.
    pub fn truncated(self, n: usize) -> (r: Self)
        requires
            n <= self@.len(),
        ensures
            r@ == self@.take(n as int),
    {
        match self {
            RequiredNext::Borrowed(b) => RequiredNext::Borrowed(slice_subrange(b, 0, n)),
            RequiredNext::Owned(v) => {
                let mut v = v;
                v.truncate(n);
                RequiredNext::Owned(v)
            },
        }
    }
}

/// The number of leading bytes that `a` and `b` share.
pub open spec fn common_prefix_len(a: Seq<u8>, b: Seq<u8>) -> nat
    decreases a.len(),
{
    if a.len() == 0 || b.len() == 0 || a[0] != b[0] {
        0
    } else {
        1 + common_prefix_len(a.drop_first(), b.drop_first())
    }
}

/// The longest common prefix of two byte sequences.
pub open spec fn common_prefix(a: Seq<u8>, b: Seq<u8>) -> Seq<u8> {
    a.take(common_prefix_len(a, b) as int)
}

impl<'a> PartialEq for RequiredNext<'a> {
    fn eq(&self, other: &Self) -> (r: bool) {
        let a = self.as_bytes();
        let b = other.as_bytes();
        if a.len() != b.len() {
            proof {
                assert(a@.len() != b@.len());
            }
            return false;
        }
        let mut i: usize = 0;
        while i < a.len()
            invariant
                a@ == self@,
                b@ == other@,
                a@.len() == b@.len(),
                i <= a@.len(),
                a@.take(i as int) == b@.take(i as int),
            decreases a@.len() - i,
        {
            if a[i] != b[i] {
                proof {
                    assert(a@[i as int] != b@[i as int]);
                }
                return false;
            }
            proof {
                assert(a@.take(i + 1) == a@.take(i as int).push(a@[i as int]));
                assert(b@.take(i + 1) == b@.take(i as int).push(b@[i as int]));
            }
            i = i + 1;
        }
        proof {
            assert(a@ == a@.take(i as int));
            assert(b@ == b@.take(i as int));
        }
        true
    }
}

impl<'a> vstd::std_specs::cmp::PartialEqSpecImpl for RequiredNext<'a> {
    open spec fn obeys_eq_spec() -> bool {
        true
    }

    open spec fn eq_spec(&self, other: &Self) -> bool {
        self@ == other@
    }
}

impl<'a> Eq for RequiredNext<'a> {}

impl<'a> Default for RequiredNext<'a> {
    fn default() -> (r: Self)
        ensures
            r@ == Seq::<u8>::empty(),
    {
        RequiredNext::empty()
    }
}

/// The outcome of one parse step.
#[derive(Debug, Clone, PartialEq, Eq)]
pub enum ParseStatus<'a, S, O> {
    /// The parse needs more input: resume from `new_state`. Any further input must start with
    /// `required_next`; an empty `required_next` means that stopping here is legal.
    Incomplete { new_state: S, required_next: RequiredNext<'a> },
    /// The parse produced `result`; `remaining` is the unconsumed tail of the input.
    Finished { result: O, remaining: &'a [u8] },
}

/// What a parse step means, with the checkpoint and the output taken by their models.
pub enum Progress<S, O> {
    Incomplete { new_state: S, required_next: Seq<u8> },
    Finished { result: O, remaining: Seq<u8> },
    Failed,
}

/// The meaning of a parse step's result.
pub open spec fn progress_of<'a, S: DeepView, O: DeepView>(
    r: ParseResult<ParseStatus<'a, S, O>>,
) -> Progress<S::V, O::V> {
    match r {
        Ok(ParseStatus::Incomplete { new_state, required_next }) => Progress::Incomplete {
            new_state: new_state.deep_view(),
            required_next: required_next@,
        },
        Ok(ParseStatus::Finished { result, remaining }) => Progress::Finished {
            result: result.deep_view(),
            remaining: remaining@,
        },
        Err(_) => Progress::Failed,
    }
}

} // verus!
