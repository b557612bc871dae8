//! The translation unit: external declarations and the sequence of them that makes a shader.

use crate::code::{Code, SpecCode, codes_view};
use crate::model::{SpecExternalDeclaration, translation_unit_view};
use crate::names::Variant;
use crate::syntax::{ExternalDeclaration, TranslationUnit};
use crate::tokenizer::declarations::{declaration_code, tokenize_declaration};
use crate::tokenizer::preprocessor::{preprocessor_code, tokenize_preprocessor};
use crate::tokenizer::statements::{function_definition_code, tokenize_function_definition};
use vstd::prelude::*;

verus! {

/// The constructor expression of an external declaration.
pub open spec fn external_declaration_code(ed: SpecExternalDeclaration) -> SpecCode {
    match ed {
        SpecExternalDeclaration::Preprocessor(pp) => SpecCode::Call(
            Variant::ExternalDeclarationPreprocessor,
            seq![preprocessor_code(pp)],
        ),
        SpecExternalDeclaration::FunctionDefinition(fd) => SpecCode::Call(
            Variant::ExternalDeclarationFunctionDefinition,
            seq![function_definition_code(fd)],
        ),
        SpecExternalDeclaration::Declaration(d) => SpecCode::Call(
            Variant::ExternalDeclarationDeclaration,
            seq![declaration_code(d)],
        ),
    }
}

/// Tokenizes an external declaration.
pub fn tokenize_external_declaration(ed: &ExternalDeclaration) -> (code: Code)
    ensures
        code@ == external_declaration_code(ed@),
{
    match ed {
        ExternalDeclaration::Preprocessor(pp) => {
            let pp = tokenize_preprocessor(pp);
            Code::call1(Variant::ExternalDeclarationPreprocessor, pp)
        },
        ExternalDeclaration::FunctionDefinition(fd) => {
            let fd = tokenize_function_definition(fd);
            Code::call1(Variant::ExternalDeclarationFunctionDefinition, fd)
        },
        ExternalDeclaration::Declaration(d) => {
            let d = tokenize_declaration(d);
            Code::call1(Variant::ExternalDeclarationDeclaration, d)
        },
    }
}

/// The constructor expression of a sequence of external declarations: a vector of their constructor
/// expressions, as many and in the same order.
pub open spec fn translation_unit_code(s: Seq<SpecExternalDeclaration>) -> SpecCode {
    SpecCode::List(
        Seq::new(
            s.len(),
            |i: int|
                if 0 <= i < s.len() {
                    external_declaration_code(s[i])
                } else {
                    arbitrary()
                },
        ),
    )
}

/// Tokenizes a sequence of external declarations, one after the other.
pub fn tokenize_translation_unit(tu: &TranslationUnit) -> (code: Code)
    ensures
        code@ == translation_unit_code(translation_unit_view(*tu)),
{
    let mut items: Vec<Code> = Vec::new();
    let mut i: usize = 0;
    while i < tu.len()
        invariant
            i <= tu.len(),
            items@.len() == i,
            forall|j: int|
                0 <= j < i ==> (#[trigger] items@[j])@ == external_declaration_code(tu@[j]@),
        decreases tu.len() - i,
    {
        let item = tokenize_external_declaration(&tu[i]);
        items.push(item);
        i += 1;
    }
    assert(codes_view(items) =~= translation_unit_code(translation_unit_view(*tu))->List_0);
    Code::List(items)
}

} // verus!
