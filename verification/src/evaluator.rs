//! Evaluation: from a constructor expression back to the node that it builds.
//!
//! Evaluating reads a constructor expression as the host would: a path names the variant or the
//! struct to build, the arguments build its fields, and each field is read in the form that
//! its type asks for: an owned text where the tree holds a string, a fresh indirection where it
//! holds a box. An expression that names a variant with the wrong number of arguments, or a
//! struct with other fields than its own, builds nothing. A name that the host is to resolve
//! is read as the text by which it is spelled.
//!
//! For every node `n`, evaluating the constructor expression of `n` gives `n` back: nothing of
//! the node is lost in its code, and no two nodes share their code. Each kind of node has its
//! own statement of this below, proved by induction over the node.
//!
//! An evaluator that lies on no cycle of the grammar is opaque, so that a proof unfolds no more
//! of the grammar than it asks for; the lemma about an evaluator reveals it.

use crate::code::{SpecCode, optional_owned_code};
use vstd::prelude::*;

pub mod expr;
pub mod qualifiers;
pub mod types;
pub mod declarations;
pub mod statements;
pub mod preprocessor;
pub mod unit;

verus! {

/// The text of which a constructor expression makes an owned copy, if it makes one.
pub open spec fn eval_owned(c: SpecCode) -> Option<Seq<char>> {
    match c {
        SpecCode::Owned(x) => Some(x),
        _ => None,
    }
}

/// The name that a constructor expression stands for, if it is one.
pub open spec fn eval_name(c: SpecCode) -> Option<Seq<char>> {
    match c {
        SpecCode::Name(x) => Some(x),
        _ => None,
    }
}

/// The signed integer that a constructor expression denotes, if it denotes one.
pub open spec fn eval_int(c: SpecCode) -> Option<i32> {
    match c {
        SpecCode::Int(x) => Some(x),
        _ => None,
    }
}

/// The unsigned integer that a constructor expression denotes, if it denotes one.
pub open spec fn eval_uint(c: SpecCode) -> Option<u32> {
    match c {
        SpecCode::UInt(x) => Some(x),
        _ => None,
    }
}

/// The 16-bit integer that a constructor expression denotes, if it denotes one.
pub open spec fn eval_short(c: SpecCode) -> Option<u16> {
    match c {
        SpecCode::Short(x) => Some(x),
        _ => None,
    }
}

/// The boolean that a constructor expression denotes, if it denotes one.
pub open spec fn eval_bool(c: SpecCode) -> Option<bool> {
    match c {
        SpecCode::Bool(x) => Some(x),
        _ => None,
    }
}

/// The bit pattern of the single-precision number that a constructor expression denotes,
/// if it denotes one.
pub open spec fn eval_float(c: SpecCode) -> Option<u32> {
    match c {
        SpecCode::Float(x) => Some(x),
        _ => None,
    }
}

/// The bit pattern of the double-precision number that a constructor expression denotes,
/// if it denotes one.
pub open spec fn eval_double(c: SpecCode) -> Option<u64> {
    match c {
        SpecCode::Double(x) => Some(x),
        _ => None,
    }
}

/// What a constructor expression builds where an owned text may be absent: nothing, or the
/// text, if it builds either.
pub open spec fn eval_optional_owned(c: SpecCode) -> Option<Option<Seq<char>>> {
    match c {
        SpecCode::Absent => Some(None),
        SpecCode::Present(inner) => match eval_owned(*inner) {
            Some(x) => Some(Some(x)),
            None => None,
        },
        _ => None,
    }
}

/// Evaluating the constructor expression of an owned text that may be absent gives it back.
pub proof fn lemma_optional_owned_round_trip(o: Option<Seq<char>>)
    ensures
        eval_optional_owned(optional_owned_code(o)) == Some(o),
{
}

} // verus!
