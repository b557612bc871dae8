//! Lifts of the shapes that recur in every node: a value that may be absent, an owned
//! indirection, and a piece of text.
//!
//! The tokenizers never spell out how presence or indirection is written. They tokenize what
//! is inside and hand the result to [`Quoted::quote`].

use crate::code::{Code, SpecCode};
use vstd::prelude::*;

verus! {

/// A value that is lifted into a constructor expression as a whole.
pub trait Quoted: Sized {
    /// The code that [`Quoted::quote`] yields.
    spec fn quoted(self) -> SpecCode;

    /// Lifts the value into a constructor expression.
    fn quote(self) -> (code: Code)
        ensures
            code@ == self.quoted(),
    ;
}

/// An element that may be absent, already tokenized: the absent form, or the present form
/// around the element.
impl Quoted for Option<Code> {
    open spec fn quoted(self) -> SpecCode {
        SpecCode::optional(
            match self {
                Some(code) => Some(code@),
                None => None,
            },
        )
    }

    fn quote(self) -> (code: Code) {
        match self {
            Some(x) => Code::Present(Box::new(x)),
            None => Code::Absent,
        }
    }
}

/// An owned sub-tree, already tokenized: a fresh allocation around it.
impl Quoted for Box<Code> {
    open spec fn quoted(self) -> SpecCode {
        SpecCode::boxed((*self)@)
    }

    fn quote(self) -> (code: Code) {
        Code::Boxed(self)
    }
}

/// A piece of text: an owned copy of it.
impl<'a> Quoted for &'a str {
    open spec fn quoted(self) -> SpecCode {
        SpecCode::Owned(self@)
    }

    fn quote(self) -> (code: Code) {
        Code::Owned(self.to_owned())
    }
}

} // verus!
