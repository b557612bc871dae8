//! What holds of the tokenizers as a whole.
//!
//! - Fidelity: the constructor expression of a translation unit evaluates to that unit, and so
//!   two units with the same constructor expression are the same unit. The statement for each
//!   kind of node stands in [`crate::evaluator`].
//! - Order: a sequence is tokenized element by element, in its own order, whatever its length.
//! - Optionality: what is absent is tokenized to the absent form, what is present to the
//!   present form around its own constructor expression.
//! - Purity: the constructor expression depends on the tree alone.
//! - Names: a variable, a named type and a globally qualified name can be spelled exactly
//!   where the name is an identifier; nothing else in a tree stands in the way of spelling it.
//!
//! That the tokens of a constructor expression determine it in turn is shown in
//! [`crate::reading`].

use crate::code::{SpecCode, all_spellable, optional_owned_code, spellable};
use crate::emit::code_tokens;
use crate::evaluator::unit::{eval_translation_unit, lemma_translation_unit_round_trip};
use crate::model::{
    SpecArraySpecifier, SpecArrayedIdentifier, SpecCondition, SpecExpr, SpecExternalDeclaration,
    SpecFunctionParameterDeclaration, SpecInitializer, SpecLayoutQualifierSpec,
    SpecSelectionRestStatement, SpecSingleDeclarationNoType, SpecStatement,
    SpecStructFieldSpecifier, SpecTranslationUnit, SpecTypeQualifier, SpecTypeQualifierSpec,
    SpecTypeSpecifierNonArray, translation_unit_view,
};
use crate::names::Variant;
use crate::syntax::{PreprocessorExtensionBehavior, PreprocessorVersionProfile, TranslationUnit};
use crate::tokenizer::declarations::{
    declarators_code, function_parameter_declaration_code, identifiers_code, initializer_code,
    initializers_code, optional_initializer_code, parameters_code,
    single_declaration_no_type_code,
};
use crate::tokenizer::expr::{
    array_specifier_code, expr_code, exprs_code, optional_array_specifier_code,
    optional_boxed_expr_code, optional_expr_code,
};
use crate::tokenizer::preprocessor::{
    optional_preprocessor_extension_behavior_code, optional_preprocessor_version_profile_code,
    preprocessor_extension_behavior_code, preprocessor_version_profile_code,
};
use crate::tokenizer::qualifiers::{
    layout_qualifier_spec_code, layout_qualifier_specs_code, optional_type_qualifier_code,
    type_names_code, type_qualifier_code, type_qualifier_spec_code, type_qualifier_specs_code,
};
use crate::tokenizer::statements::{
    condition_code, optional_condition_code, selection_rest_statement_code, statement_code,
    statements_code,
};
use crate::tokenizer::types::{
    arrayed_identifier_code, arrayed_identifiers_code, optional_arrayed_identifier_code,
    struct_field_specifier_code, struct_fields_code, type_specifier_non_array_code,
};
use crate::tokenizer::unit::{external_declaration_code, translation_unit_code};
use crate::tokens::is_ident;
use vstd::prelude::*;

verus! {

/// Fidelity: evaluating the constructor expression of a translation unit gives the unit back.
pub proof fn lemma_fidelity(tu: SpecTranslationUnit)
    ensures
        eval_translation_unit(translation_unit_code(tu)) == Some(tu),
{
    lemma_translation_unit_round_trip(tu);
}

/// Nothing is lost: two translation units with the same constructor expression are the same.
pub proof fn lemma_code_determines_unit(a: SpecTranslationUnit, b: SpecTranslationUnit)
    requires
        translation_unit_code(a) == translation_unit_code(b),
    ensures
        a == b,
{
    lemma_translation_unit_round_trip(a);
    lemma_translation_unit_round_trip(b);
}

/// Purity: two trees with the same model have the same constructor expression, spelled by the
/// same tokens. Every tokenizer yields the expression that its specification function gives
/// for the model of its argument, so two calls on equal trees yield equal expressions.
pub proof fn lemma_equal_trees_equal_code(a: TranslationUnit, b: TranslationUnit)
    requires
        translation_unit_view(a) == translation_unit_view(b),
    ensures
        translation_unit_code(translation_unit_view(a)) == translation_unit_code(
            translation_unit_view(b),
        ),
        code_tokens(translation_unit_code(translation_unit_view(a))) == code_tokens(
            translation_unit_code(translation_unit_view(b)),
        ),
{
}

/// A sequence of expressions is tokenized to a vector of the same length whose element at
/// each position is the constructor expression of the element at that position.
pub proof fn lemma_exprs_order(s: Seq<SpecExpr>)
    ensures
        exprs_code(s) is List,
        exprs_code(s)->List_0.len() == s.len(),
        forall|i: int|
            0 <= i < s.len() ==> (#[trigger] exprs_code(s)->List_0[i])
                == expr_code(s[i]),
{
}

/// A sequence of type names is tokenized to a vector of the same length whose element at
/// each position is the constructor expression of the element at that position.
pub proof fn lemma_type_names_order(s: Seq<Seq<char>>)
    ensures
        type_names_code(s) is List,
        type_names_code(s)->List_0.len() == s.len(),
        forall|i: int|
            0 <= i < s.len() ==> (#[trigger] type_names_code(s)->List_0[i])
                == SpecCode::Owned(s[i]),
{
}

/// A sequence of layout entries is tokenized to a vector of the same length whose element at
/// each position is the constructor expression of the element at that position.
pub proof fn lemma_layout_qualifier_specs_order(s: Seq<SpecLayoutQualifierSpec>)
    ensures
        layout_qualifier_specs_code(s) is List,
        layout_qualifier_specs_code(s)->List_0.len() == s.len(),
        forall|i: int|
            0 <= i < s.len() ==> (#[trigger] layout_qualifier_specs_code(s)->List_0[i])
                == layout_qualifier_spec_code(s[i]),
{
}

/// A sequence of qualifier entries is tokenized to a vector of the same length whose element at
/// each position is the constructor expression of the element at that position.
pub proof fn lemma_type_qualifier_specs_order(s: Seq<SpecTypeQualifierSpec>)
    ensures
        type_qualifier_specs_code(s) is List,
        type_qualifier_specs_code(s)->List_0.len() == s.len(),
        forall|i: int|
            0 <= i < s.len() ==> (#[trigger] type_qualifier_specs_code(s)->List_0[i])
                == type_qualifier_spec_code(s[i]),
{
}

/// A sequence of arrayed identifiers is tokenized to a vector of the same length whose element at
/// each position is the constructor expression of the element at that position.
pub proof fn lemma_arrayed_identifiers_order(s: Seq<SpecArrayedIdentifier>)
    ensures
        arrayed_identifiers_code(s) is List,
        arrayed_identifiers_code(s)->List_0.len() == s.len(),
        forall|i: int|
            0 <= i < s.len() ==> (#[trigger] arrayed_identifiers_code(s)->List_0[i])
                == arrayed_identifier_code(s[i]),
{
}

/// A sequence of field specifiers is tokenized to a vector of the same length whose element at
/// each position is the constructor expression of the element at that position.
pub proof fn lemma_struct_fields_order(s: Seq<SpecStructFieldSpecifier>)
    ensures
        struct_fields_code(s) is List,
        struct_fields_code(s)->List_0.len() == s.len(),
        forall|i: int|
            0 <= i < s.len() ==> (#[trigger] struct_fields_code(s)->List_0[i])
                == struct_field_specifier_code(s[i]),
{
}

/// A sequence of initializers is tokenized to a vector of the same length whose element at
/// each position is the constructor expression of the element at that position.
pub proof fn lemma_initializers_order(s: Seq<SpecInitializer>)
    ensures
        initializers_code(s) is List,
        initializers_code(s)->List_0.len() == s.len(),
        forall|i: int|
            0 <= i < s.len() ==> (#[trigger] initializers_code(s)->List_0[i])
                == initializer_code(s[i]),
{
}

/// A sequence of declarators is tokenized to a vector of the same length whose element at
/// each position is the constructor expression of the element at that position.
pub proof fn lemma_declarators_order(s: Seq<SpecSingleDeclarationNoType>)
    ensures
        declarators_code(s) is List,
        declarators_code(s)->List_0.len() == s.len(),
        forall|i: int|
            0 <= i < s.len() ==> (#[trigger] declarators_code(s)->List_0[i])
                == single_declaration_no_type_code(s[i]),
{
}

/// A sequence of parameters is tokenized to a vector of the same length whose element at
/// each position is the constructor expression of the element at that position.
pub proof fn lemma_parameters_order(s: Seq<SpecFunctionParameterDeclaration>)
    ensures
        parameters_code(s) is List,
        parameters_code(s)->List_0.len() == s.len(),
        forall|i: int|
            0 <= i < s.len() ==> (#[trigger] parameters_code(s)->List_0[i])
                == function_parameter_declaration_code(s[i]),
{
}

/// A sequence of identifiers is tokenized to a vector of the same length whose element at
/// each position is the constructor expression of the element at that position.
pub proof fn lemma_identifiers_order(s: Seq<Seq<char>>)
    ensures
        identifiers_code(s) is List,
        identifiers_code(s)->List_0.len() == s.len(),
        forall|i: int|
            0 <= i < s.len() ==> (#[trigger] identifiers_code(s)->List_0[i])
                == SpecCode::Name(s[i]),
{
}

/// A sequence of statements is tokenized to a vector of the same length whose element at
/// each position is the constructor expression of the element at that position.
pub proof fn lemma_statements_order(s: Seq<SpecStatement>)
    ensures
        statements_code(s) is List,
        statements_code(s)->List_0.len() == s.len(),
        forall|i: int|
            0 <= i < s.len() ==> (#[trigger] statements_code(s)->List_0[i])
                == statement_code(s[i]),
{
}

/// A sequence of external declarations is tokenized to a vector of the same length whose element at
/// each position is the constructor expression of the element at that position.
pub proof fn lemma_translation_unit_order(s: Seq<SpecExternalDeclaration>)
    ensures
        translation_unit_code(s) is List,
        translation_unit_code(s)->List_0.len() == s.len(),
        forall|i: int|
            0 <= i < s.len() ==> (#[trigger] translation_unit_code(s)->List_0[i])
                == external_declaration_code(s[i]),
{
}

/// A boxed expression that is absent is tokenized to the absent form; one that is present, to
/// the present form around its own constructor expression.
pub proof fn lemma_optional_boxed_expr_lift(o: Option<Box<SpecExpr>>)
    ensures
        o is None ==> optional_boxed_expr_code(o) == SpecCode::Absent,
        o is Some ==>
            optional_boxed_expr_code(o)
                == SpecCode::Present(Box::new(SpecCode::boxed(expr_code(*o->Some_0)))),
{
}

/// An array specifier that is absent is tokenized to the absent form; one that is present, to
/// the present form around its own constructor expression.
pub proof fn lemma_optional_array_specifier_lift(o: Option<SpecArraySpecifier>)
    ensures
        o is None ==> optional_array_specifier_code(o) == SpecCode::Absent,
        o is Some ==>
            optional_array_specifier_code(o)
                == SpecCode::Present(Box::new(array_specifier_code(o->Some_0))),
{
}

/// An owned text that is absent is tokenized to the absent form; one that is present, to
/// the present form around its own constructor expression.
pub proof fn lemma_optional_owned_lift(o: Option<Seq<char>>)
    ensures
        o is None ==> optional_owned_code(o) == SpecCode::Absent,
        o is Some ==>
            optional_owned_code(o) == SpecCode::Present(Box::new(SpecCode::Owned(o->Some_0))),
{
}

/// A type qualifier that is absent is tokenized to the absent form; one that is present, to
/// the present form around its own constructor expression.
pub proof fn lemma_optional_type_qualifier_lift(o: Option<SpecTypeQualifier>)
    ensures
        o is None ==> optional_type_qualifier_code(o) == SpecCode::Absent,
        o is Some ==>
            optional_type_qualifier_code(o)
                == SpecCode::Present(Box::new(type_qualifier_code(o->Some_0))),
{
}

/// An initializer that is absent is tokenized to the absent form; one that is present, to
/// the present form around its own constructor expression.
pub proof fn lemma_optional_initializer_lift(o: Option<SpecInitializer>)
    ensures
        o is None ==> optional_initializer_code(o) == SpecCode::Absent,
        o is Some ==>
            optional_initializer_code(o)
                == SpecCode::Present(Box::new(initializer_code(o->Some_0))),
{
}

/// An arrayed identifier that is absent is tokenized to the absent form; one that is present, to
/// the present form around its own constructor expression.
pub proof fn lemma_optional_arrayed_identifier_lift(o: Option<SpecArrayedIdentifier>)
    ensures
        o is None ==> optional_arrayed_identifier_code(o) == SpecCode::Absent,
        o is Some ==>
            optional_arrayed_identifier_code(o)
                == SpecCode::Present(Box::new(arrayed_identifier_code(o->Some_0))),
{
}

/// An expression that is absent is tokenized to the absent form; one that is present, to
/// the present form around its own constructor expression.
pub proof fn lemma_optional_expr_lift(o: Option<SpecExpr>)
    ensures
        o is None ==> optional_expr_code(o) == SpecCode::Absent,
        o is Some ==> optional_expr_code(o) == SpecCode::Present(Box::new(expr_code(o->Some_0))),
{
}

/// A condition that is absent is tokenized to the absent form; one that is present, to
/// the present form around its own constructor expression.
pub proof fn lemma_optional_condition_lift(o: Option<SpecCondition>)
    ensures
        o is None ==> optional_condition_code(o) == SpecCode::Absent,
        o is Some ==>
            optional_condition_code(o) == SpecCode::Present(Box::new(condition_code(o->Some_0))),
{
}

/// A version profile that is absent is tokenized to the absent form; one that is present, to
/// the present form around its own constructor expression.
pub proof fn lemma_optional_preprocessor_version_profile_lift(o: Option<PreprocessorVersionProfile>)
    ensures
        o is None ==> optional_preprocessor_version_profile_code(o) == SpecCode::Absent,
        o is Some ==>
            optional_preprocessor_version_profile_code(o)
                == SpecCode::Present(Box::new(preprocessor_version_profile_code(o->Some_0))),
{
}

/// An extension behaviour that is absent is tokenized to the absent form; one that is present, to
/// the present form around its own constructor expression.
pub proof fn lemma_optional_preprocessor_extension_behavior_lift(
    o: Option<PreprocessorExtensionBehavior>,
)
    ensures
        o is None ==> optional_preprocessor_extension_behavior_code(o) == SpecCode::Absent,
        o is Some ==>
            optional_preprocessor_extension_behavior_code(o)
                == SpecCode::Present(Box::new(preprocessor_extension_behavior_code(o->Some_0))),
{
}

/// A variable can be spelled exactly where its name is an identifier.
pub proof fn lemma_variable_spellable(i: Seq<char>)
    ensures
        spellable(expr_code(SpecExpr::Variable(i))) == is_ident(i),
{
    let args = seq![SpecCode::Name(i)];
    assert(args[0] == SpecCode::Name(i));
    assert(all_spellable(args) == is_ident(i));
}

/// A named type can be spelled exactly where its name is an identifier.
pub proof fn lemma_type_name_spellable(tn: Seq<char>)
    ensures
        spellable(type_specifier_non_array_code(SpecTypeSpecifierNonArray::TypeName(tn)))
            == is_ident(tn),
{
}

/// The names of a global qualifier declaration can be spelled exactly where each of them is
/// an identifier.
pub proof fn lemma_identifiers_spellable(s: Seq<Seq<char>>)
    ensures
        spellable(identifiers_code(s)) == (forall|i: int|
            0 <= i < s.len() ==> is_ident(#[trigger] s[i])),
{
    let items = identifiers_code(s)->List_0;
    if forall|i: int| 0 <= i < s.len() ==> is_ident(#[trigger] s[i]) {
        assert forall|i: int| 0 <= i < items.len() implies spellable(#[trigger] items[i]) by {
            assert(items[i] == SpecCode::Name(s[i]));
        }
    }
    if all_spellable(items) {
        assert forall|i: int| 0 <= i < s.len() implies is_ident(#[trigger] s[i]) by {
            assert(items[i] == SpecCode::Name(s[i]));
            assert(spellable(items[i]));
        }
    }
}

/// A selection without an `else` is tokenized to the form of one branch and a selection with
/// an `else` to the form of two, each branch behind an indirection of its own.
pub proof fn lemma_else_branch_lift(rest: SpecSelectionRestStatement)
    ensures
        rest matches SpecSelectionRestStatement::Statement(if_st)
            ==> selection_rest_statement_code(rest) == SpecCode::Call(
            Variant::SelectionRestStatementStatement,
            seq![SpecCode::boxed(statement_code(*if_st))],
        ),
        rest matches SpecSelectionRestStatement::Else(if_st, else_st)
            ==> selection_rest_statement_code(rest) == SpecCode::Call(
            Variant::SelectionRestStatementElse,
            seq![
                SpecCode::boxed(statement_code(*if_st)),
                SpecCode::boxed(statement_code(*else_st)),
            ],
        ),
{
}

} // verus!
