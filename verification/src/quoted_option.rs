//! The lift of a value that may be absent, for callers that need nothing else.

use crate::code::{Code, SpecCode};
use vstd::prelude::*;

verus! {

/// A value that may be absent and is lifted into a constructor expression as a whole.
pub trait QuotedOption: Sized {
    /// The code that [`QuotedOption::quote`] yields.
    spec fn quoted(self) -> SpecCode;

    /// Lifts the value into a constructor expression.
    fn quote(self) -> (code: Code)
        ensures
            code@ == self.quoted(),
    ;
}

/// An element that may be absent, already tokenized: the absent form, or the present form
/// around the element.
impl QuotedOption for Option<Code> {
    open spec fn quoted(self) -> SpecCode {
        SpecCode::optional(
            match self {
                Some(code) => Some(code@),
                None => None,
            },
        )
    }

    fn quote(self) -> (code: Code) {
        match self {
            Some(x) => Code::Present(Box::new(x)),
            None => Code::Absent,
        }
    }
}

} // verus!
