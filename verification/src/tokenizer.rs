//! The tokenizers: from a node of the syntax tree to the constructor expression that rebuilds
//! it.
//!
//! There is one tokenizer for each kind of node, and one case in it for each variant of that
//! kind. A tokenizer of a composite node calls the tokenizers of its parts; what may be absent,
//! what is owned through an indirection and what is text goes through the lifts of
//! [`crate::quoted`]. Beside each tokenizer stands the specification function that says which
//! expression it yields; a tokenizer has no other effect and cannot fail.

pub mod expr;
pub mod qualifiers;
pub mod types;
pub mod declarations;
pub mod statements;
pub mod preprocessor;
pub mod unit;
