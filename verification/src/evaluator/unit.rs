//! Evaluation of external declarations and the sequence of them that makes a shader.

use crate::code::SpecCode;
use crate::evaluator::declarations::{eval_declaration, lemma_declaration_round_trip};
use crate::evaluator::preprocessor::{eval_preprocessor, lemma_preprocessor_round_trip};
use crate::evaluator::statements::{eval_function_definition, lemma_function_definition_round_trip};
use crate::model::SpecExternalDeclaration;
use crate::names::Variant;
use crate::tokenizer::unit::{external_declaration_code, translation_unit_code};
use vstd::prelude::*;

verus! {

/// The external declaration that a constructor expression builds, if it builds one.
#[verifier::opaque]
pub open spec fn eval_external_declaration(c: SpecCode) -> Option<SpecExternalDeclaration> {
    match c {
        SpecCode::Call(Variant::ExternalDeclarationPreprocessor, args) => {
            if args.len() == 1 {
                match eval_preprocessor(args[0]) {
                    Some(pp) => Some(SpecExternalDeclaration::Preprocessor(pp)),
                    None => None,
                }
            } else {
                None
            }
        },
        SpecCode::Call(Variant::ExternalDeclarationFunctionDefinition, args) => {
            if args.len() == 1 {
                match eval_function_definition(args[0]) {
                    Some(fd) => Some(SpecExternalDeclaration::FunctionDefinition(fd)),
                    None => None,
                }
            } else {
                None
            }
        },
        SpecCode::Call(Variant::ExternalDeclarationDeclaration, args) => {
            if args.len() == 1 {
                match eval_declaration(args[0]) {
                    Some(d) => Some(SpecExternalDeclaration::Declaration(d)),
                    None => None,
                }
            } else {
                None
            }
        },
        _ => None,
    }
}

/// Evaluating the constructor expression of an external declaration gives it back.
pub proof fn lemma_external_declaration_round_trip(ed: SpecExternalDeclaration)
    ensures
        eval_external_declaration(external_declaration_code(ed)) == Some(ed),
{
    reveal(eval_external_declaration);
    match ed {
        SpecExternalDeclaration::Preprocessor(pp) => {
            lemma_preprocessor_round_trip(pp);
        },
        SpecExternalDeclaration::FunctionDefinition(fd) => {
            lemma_function_definition_round_trip(fd);
        },
        SpecExternalDeclaration::Declaration(d) => {
            lemma_declaration_round_trip(d);
        },
    }
}

/// The sequence of external declarations that a constructor expression builds, if it builds one:
/// element by element, in the order of the vector.
#[verifier::opaque]
pub open spec fn eval_translation_unit(c: SpecCode) -> Option<Seq<SpecExternalDeclaration>> {
    match c {
        SpecCode::List(items) => {
            if forall|i: int|
                0 <= i < items.len() ==> eval_external_declaration(#[trigger] items[i]) is Some {
                Some(
                    Seq::new(
                        items.len(),
                        |i: int|
                            if 0 <= i < items.len() {
                                eval_external_declaration(items[i])->Some_0
                            } else {
                                arbitrary()
                            },
                    ),
                )
            } else {
                None
            }
        },
        _ => None,
    }
}

/// Evaluating the constructor expression of a sequence of external declarations gives the sequence
/// back.
pub proof fn lemma_translation_unit_round_trip(s: Seq<SpecExternalDeclaration>)
    ensures
        eval_translation_unit(translation_unit_code(s)) == Some(s),
{
    reveal(eval_translation_unit);
    let items = translation_unit_code(s)->List_0;
    assert forall|i: int| 0 <= i < items.len() implies
        eval_external_declaration(#[trigger] items[i]) == Some(s[i]) by {
        lemma_external_declaration_round_trip(s[i]);
    }
    assert(eval_translation_unit(translation_unit_code(s))->Some_0 =~= s);
}

} // verus!
