//! Evaluation of function prototypes and their parameters, init-declarator lists, initializers and
//! interface blocks.

use crate::code::SpecCode;
use crate::evaluator::{
    eval_name, eval_optional_owned, eval_owned, lemma_optional_owned_round_trip,
};
use crate::evaluator::expr::{
    eval_boxed_expr, eval_optional_array_specifier, lemma_boxed_expr_round_trip,
    lemma_optional_array_specifier_round_trip,
};
use crate::evaluator::qualifiers::{
    eval_optional_type_qualifier, eval_precision_qualifier, eval_type_qualifier,
    lemma_optional_type_qualifier_round_trip, lemma_precision_qualifier_round_trip,
    lemma_type_qualifier_round_trip,
};
use crate::evaluator::types::{
    eval_fully_specified_type, eval_optional_arrayed_identifier, eval_struct_fields,
    eval_type_specifier, lemma_fully_specified_type_round_trip,
    lemma_optional_arrayed_identifier_round_trip, lemma_struct_fields_round_trip,
    lemma_type_specifier_round_trip,
};
use crate::model::{
    SpecBlock, SpecDeclaration, SpecFunctionParameterDeclaration, SpecFunctionParameterDeclarator,
    SpecFunctionPrototype, SpecInitDeclaratorList, SpecInitializer, SpecSingleDeclaration,
    SpecSingleDeclarationNoType,
};
use crate::names::{Field, Record, Variant};
use crate::tokenizer::declarations::{
    block_code, declaration_code, declarators_code, function_parameter_declaration_code,
    function_parameter_declarator_code, function_prototype_code, identifiers_code,
    init_declarator_list_code, initializer_code, initializers_code, optional_initializer_code,
    parameters_code, single_declaration_code, single_declaration_no_type_code,
};
use vstd::prelude::*;

verus! {

/// The initializer that a constructor expression builds, if it builds one.
pub open spec fn eval_initializer(c: SpecCode) -> Option<SpecInitializer>
    decreases c,
{
    match c {
        SpecCode::Call(Variant::InitializerSimple, args) => {
            if args.len() == 1 {
                match eval_boxed_expr(args[0]) {
                    Some(e) => Some(SpecInitializer::Simple(Box::new(e))),
                    None => None,
                }
            } else {
                None
            }
        },
        SpecCode::Call(Variant::InitializerList, args) => {
            if args.len() == 1 {
                match eval_initializers(args[0]) {
                    Some(list) => Some(SpecInitializer::List(list)),
                    None => None,
                }
            } else {
                None
            }
        },
        _ => None,
    }
}

/// Evaluating the constructor expression of an initializer gives it back.
pub proof fn lemma_initializer_round_trip(i: SpecInitializer)
    ensures
        eval_initializer(initializer_code(i)) == Some(i),
    decreases i, 0nat,
{
    match i {
        SpecInitializer::Simple(e) => {
            lemma_boxed_expr_round_trip(*e);
        },
        SpecInitializer::List(list) => {
            lemma_initializers_round_trip(list);
        },
    }
}

/// What a constructor expression builds where an initializer may be absent: nothing, or the
/// initializer, if it builds either.
#[verifier::opaque]
pub open spec fn eval_optional_initializer(c: SpecCode) -> Option<Option<SpecInitializer>> {
    match c {
        SpecCode::Absent => Some(None),
        SpecCode::Present(inner) => match eval_initializer(*inner) {
            Some(x) => Some(Some(x)),
            None => None,
        },
        _ => None,
    }
}

/// Evaluating the constructor expression of an initializer that may be absent gives it back.
pub proof fn lemma_optional_initializer_round_trip(o: Option<SpecInitializer>)
    ensures
        eval_optional_initializer(optional_initializer_code(o)) == Some(o),
{
    reveal(eval_optional_initializer);
    match o {
        Some(x) => {
            lemma_initializer_round_trip(x);
        },
        None => {},
    }
}

/// The sequence of initializers that a constructor expression builds, if it builds one: element by
/// element, in the order of the vector.
pub open spec fn eval_initializers(c: SpecCode) -> Option<Seq<SpecInitializer>>
    decreases c,
{
    match c {
        SpecCode::List(items) => {
            if forall|i: int|
                0 <= i < items.len() ==> eval_initializer(#[trigger] items[i]) is Some {
                Some(
                    Seq::new(
                        items.len(),
                        |i: int|
                            if 0 <= i < items.len() {
                                eval_initializer(items[i])->Some_0
                            } else {
                                arbitrary()
                            },
                    ),
                )
            } else {
                None
            }
        },
        _ => None,
    }
}

/// Evaluating the constructor expression of a sequence of initializers gives the sequence back.
pub proof fn lemma_initializers_round_trip(s: Seq<SpecInitializer>)
    ensures
        eval_initializers(initializers_code(s)) == Some(s),
    decreases s, 0nat,
{
    let items = initializers_code(s)->List_0;
    assert forall|i: int| 0 <= i < items.len() implies
        eval_initializer(#[trigger] items[i]) == Some(s[i]) by {
        lemma_initializer_round_trip(s[i]);
    }
    assert(eval_initializers(initializers_code(s))->Some_0 =~= s);
}

/// The single declaration that a constructor expression builds, if it builds one.
#[verifier::opaque]
pub open spec fn eval_single_declaration(c: SpecCode) -> Option<SpecSingleDeclaration> {
    match c {
        SpecCode::Record(Record::SingleDeclaration, fields) => {
            if fields.len() == 4
                && fields[0].0 == Field::Ty
                && fields[1].0 == Field::Name
                && fields[2].0 == Field::ArraySpecifier
                && fields[3].0 == Field::Initializer {
                match (
                    eval_fully_specified_type(fields[0].1),
                    eval_optional_owned(fields[1].1),
                    eval_optional_array_specifier(fields[2].1),
                    eval_optional_initializer(fields[3].1),
                ) {
                    (Some(ty), Some(name), Some(array_specifier), Some(initializer)) => Some(
                        SpecSingleDeclaration { ty, name, array_specifier, initializer },
                    ),
                    _ => None,
                }
            } else {
                None
            }
        },
        _ => None,
    }
}

/// Evaluating the constructor expression of a single declaration gives it back.
pub proof fn lemma_single_declaration_round_trip(d: SpecSingleDeclaration)
    ensures
        eval_single_declaration(single_declaration_code(d)) == Some(d),
{
    reveal(eval_single_declaration);
    let fields = single_declaration_code(d)->Record_1;
    assert(fields.len() == 4);
    lemma_fully_specified_type_round_trip(d.ty);
    lemma_optional_owned_round_trip(d.name);
    lemma_optional_array_specifier_round_trip(d.array_specifier);
    lemma_optional_initializer_round_trip(d.initializer);
}

/// The declaration without a type that a constructor expression builds, if it builds one.
#[verifier::opaque]
pub open spec fn eval_single_declaration_no_type(
    c: SpecCode,
) -> Option<SpecSingleDeclarationNoType> {
    match c {
        SpecCode::Record(Record::SingleDeclarationNoType, fields) => {
            if fields.len() == 3
                && fields[0].0 == Field::Name
                && fields[1].0 == Field::ArraySpecifier
                && fields[2].0 == Field::Initializer {
                match (
                    eval_owned(fields[0].1),
                    eval_optional_array_specifier(fields[1].1),
                    eval_optional_initializer(fields[2].1),
                ) {
                    (Some(name), Some(array_specifier), Some(initializer)) => Some(
                        SpecSingleDeclarationNoType { name, array_specifier, initializer },
                    ),
                    _ => None,
                }
            } else {
                None
            }
        },
        _ => None,
    }
}

/// Evaluating the constructor expression of a declaration without a type gives it back.
pub proof fn lemma_single_declaration_no_type_round_trip(d: SpecSingleDeclarationNoType)
    ensures
        eval_single_declaration_no_type(single_declaration_no_type_code(d)) == Some(d),
{
    reveal(eval_single_declaration_no_type);
    let fields = single_declaration_no_type_code(d)->Record_1;
    assert(fields.len() == 3);
    lemma_optional_array_specifier_round_trip(d.array_specifier);
    lemma_optional_initializer_round_trip(d.initializer);
}

/// The sequence of declarators that a constructor expression builds, if it builds one: element by
/// element, in the order of the vector.
#[verifier::opaque]
pub open spec fn eval_declarators(c: SpecCode) -> Option<Seq<SpecSingleDeclarationNoType>> {
    match c {
        SpecCode::List(items) => {
            if forall|i: int|
                0 <= i < items.len() ==>
                    eval_single_declaration_no_type(#[trigger] items[i]) is Some {
                Some(
                    Seq::new(
                        items.len(),
                        |i: int|
                            if 0 <= i < items.len() {
                                eval_single_declaration_no_type(items[i])->Some_0
                            } else {
                                arbitrary()
                            },
                    ),
                )
            } else {
                None
            }
        },
        _ => None,
    }
}

/// Evaluating the constructor expression of a sequence of declarators gives the sequence back.
pub proof fn lemma_declarators_round_trip(s: Seq<SpecSingleDeclarationNoType>)
    ensures
        eval_declarators(declarators_code(s)) == Some(s),
{
    reveal(eval_declarators);
    let items = declarators_code(s)->List_0;
    assert forall|i: int| 0 <= i < items.len() implies
        eval_single_declaration_no_type(#[trigger] items[i]) == Some(s[i]) by {
        lemma_single_declaration_no_type_round_trip(s[i]);
    }
    assert(eval_declarators(declarators_code(s))->Some_0 =~= s);
}

/// The init declarator list that a constructor expression builds, if it builds one.
#[verifier::opaque]
pub open spec fn eval_init_declarator_list(c: SpecCode) -> Option<SpecInitDeclaratorList> {
    match c {
        SpecCode::Record(Record::InitDeclaratorList, fields) => {
            if fields.len() == 2 && fields[0].0 == Field::Head && fields[1].0 == Field::Tail {
                match (eval_single_declaration(fields[0].1), eval_declarators(fields[1].1)) {
                    (Some(head), Some(tail)) => Some(SpecInitDeclaratorList { head, tail }),
                    _ => None,
                }
            } else {
                None
            }
        },
        _ => None,
    }
}

/// Evaluating the constructor expression of an init declarator list gives it back.
pub proof fn lemma_init_declarator_list_round_trip(i: SpecInitDeclaratorList)
    ensures
        eval_init_declarator_list(init_declarator_list_code(i)) == Some(i),
{
    reveal(eval_init_declarator_list);
    let fields = init_declarator_list_code(i)->Record_1;
    assert(fields.len() == 2);
    lemma_single_declaration_round_trip(i.head);
    lemma_declarators_round_trip(i.tail);
}

/// The function parameter declarator that a constructor expression builds, if it builds one.
#[verifier::opaque]
pub open spec fn eval_function_parameter_declarator(
    c: SpecCode,
) -> Option<SpecFunctionParameterDeclarator> {
    match c {
        SpecCode::Record(Record::FunctionParameterDeclarator, fields) => {
            if fields.len() == 3
                && fields[0].0 == Field::Ty
                && fields[1].0 == Field::Name
                && fields[2].0 == Field::ArraySpec {
                match (
                    eval_type_specifier(fields[0].1),
                    eval_owned(fields[1].1),
                    eval_optional_array_specifier(fields[2].1),
                ) {
                    (Some(ty), Some(name), Some(array_spec)) => Some(
                        SpecFunctionParameterDeclarator { ty, name, array_spec },
                    ),
                    _ => None,
                }
            } else {
                None
            }
        },
        _ => None,
    }
}

/// Evaluating the constructor expression of a function parameter declarator gives it back.
pub proof fn lemma_function_parameter_declarator_round_trip(p: SpecFunctionParameterDeclarator)
    ensures
        eval_function_parameter_declarator(function_parameter_declarator_code(p)) == Some(p),
{
    reveal(eval_function_parameter_declarator);
    let fields = function_parameter_declarator_code(p)->Record_1;
    assert(fields.len() == 3);
    lemma_type_specifier_round_trip(p.ty);
    lemma_optional_array_specifier_round_trip(p.array_spec);
}

/// The function parameter declaration that a constructor expression builds, if it builds one.
#[verifier::opaque]
pub open spec fn eval_function_parameter_declaration(
    c: SpecCode,
) -> Option<SpecFunctionParameterDeclaration> {
    match c {
        SpecCode::Call(Variant::FunctionParameterDeclarationNamed, args) => {
            if args.len() == 2 {
                match (
                    eval_optional_type_qualifier(args[0]),
                    eval_function_parameter_declarator(args[1]),
                ) {
                    (Some(qual), Some(fpd)) => Some(
                        SpecFunctionParameterDeclaration::Named(qual, fpd),
                    ),
                    _ => None,
                }
            } else {
                None
            }
        },
        SpecCode::Call(Variant::FunctionParameterDeclarationUnnamed, args) => {
            if args.len() == 2 {
                match (eval_optional_type_qualifier(args[0]), eval_type_specifier(args[1])) {
                    (Some(qual), Some(ty)) => Some(
                        SpecFunctionParameterDeclaration::Unnamed(qual, ty),
                    ),
                    _ => None,
                }
            } else {
                None
            }
        },
        _ => None,
    }
}

/// Evaluating the constructor expression of a function parameter declaration gives it back.
pub proof fn lemma_function_parameter_declaration_round_trip(p: SpecFunctionParameterDeclaration)
    ensures
        eval_function_parameter_declaration(function_parameter_declaration_code(p)) == Some(p),
{
    reveal(eval_function_parameter_declaration);
    match p {
        SpecFunctionParameterDeclaration::Named(qual, fpd) => {
            lemma_optional_type_qualifier_round_trip(qual);
            lemma_function_parameter_declarator_round_trip(fpd);
        },
        SpecFunctionParameterDeclaration::Unnamed(qual, ty) => {
            lemma_optional_type_qualifier_round_trip(qual);
            lemma_type_specifier_round_trip(ty);
        },
    }
}

/// The sequence of parameters that a constructor expression builds, if it builds one: element by
/// element, in the order of the vector.
#[verifier::opaque]
pub open spec fn eval_parameters(c: SpecCode) -> Option<Seq<SpecFunctionParameterDeclaration>> {
    match c {
        SpecCode::List(items) => {
            if forall|i: int|
                0 <= i < items.len() ==>
                    eval_function_parameter_declaration(#[trigger] items[i]) is Some {
                Some(
                    Seq::new(
                        items.len(),
                        |i: int|
                            if 0 <= i < items.len() {
                                eval_function_parameter_declaration(items[i])->Some_0
                            } else {
                                arbitrary()
                            },
                    ),
                )
            } else {
                None
            }
        },
        _ => None,
    }
}

/// Evaluating the constructor expression of a sequence of parameters gives the sequence back.
pub proof fn lemma_parameters_round_trip(s: Seq<SpecFunctionParameterDeclaration>)
    ensures
        eval_parameters(parameters_code(s)) == Some(s),
{
    reveal(eval_parameters);
    let items = parameters_code(s)->List_0;
    assert forall|i: int| 0 <= i < items.len() implies
        eval_function_parameter_declaration(#[trigger] items[i]) == Some(s[i]) by {
        lemma_function_parameter_declaration_round_trip(s[i]);
    }
    assert(eval_parameters(parameters_code(s))->Some_0 =~= s);
}

/// The function prototype that a constructor expression builds, if it builds one.
#[verifier::opaque]
pub open spec fn eval_function_prototype(c: SpecCode) -> Option<SpecFunctionPrototype> {
    match c {
        SpecCode::Record(Record::FunctionPrototype, fields) => {
            if fields.len() == 3
                && fields[0].0 == Field::Ty
                && fields[1].0 == Field::Name
                && fields[2].0 == Field::Parameters {
                match (
                    eval_fully_specified_type(fields[0].1),
                    eval_owned(fields[1].1),
                    eval_parameters(fields[2].1),
                ) {
                    (Some(ty), Some(name), Some(parameters)) => Some(
                        SpecFunctionPrototype { ty, name, parameters },
                    ),
                    _ => None,
                }
            } else {
                None
            }
        },
        _ => None,
    }
}

/// Evaluating the constructor expression of a function prototype gives it back.
pub proof fn lemma_function_prototype_round_trip(fp: SpecFunctionPrototype)
    ensures
        eval_function_prototype(function_prototype_code(fp)) == Some(fp),
{
    reveal(eval_function_prototype);
    let fields = function_prototype_code(fp)->Record_1;
    assert(fields.len() == 3);
    lemma_fully_specified_type_round_trip(fp.ty);
    lemma_parameters_round_trip(fp.parameters);
}

/// The block that a constructor expression builds, if it builds one.
#[verifier::opaque]
pub open spec fn eval_block(c: SpecCode) -> Option<SpecBlock> {
    match c {
        SpecCode::Record(Record::Block, fields) => {
            if fields.len() == 4
                && fields[0].0 == Field::Qualifier
                && fields[1].0 == Field::Name
                && fields[2].0 == Field::Fields
                && fields[3].0 == Field::Identifier {
                match (
                    eval_type_qualifier(fields[0].1),
                    eval_owned(fields[1].1),
                    eval_struct_fields(fields[2].1),
                    eval_optional_arrayed_identifier(fields[3].1),
                ) {
                    (Some(qualifier), Some(name), Some(fields), Some(identifier)) => Some(
                        SpecBlock { qualifier, name, fields, identifier },
                    ),
                    _ => None,
                }
            } else {
                None
            }
        },
        _ => None,
    }
}

/// Evaluating the constructor expression of a block gives it back.
pub proof fn lemma_block_round_trip(b: SpecBlock)
    ensures
        eval_block(block_code(b)) == Some(b),
{
    reveal(eval_block);
    let fields = block_code(b)->Record_1;
    assert(fields.len() == 4);
    lemma_type_qualifier_round_trip(b.qualifier);
    lemma_struct_fields_round_trip(b.fields);
    lemma_optional_arrayed_identifier_round_trip(b.identifier);
}

/// The declaration that a constructor expression builds, if it builds one.
#[verifier::opaque]
pub open spec fn eval_declaration(c: SpecCode) -> Option<SpecDeclaration> {
    match c {
        SpecCode::Call(Variant::DeclarationFunctionPrototype, args) => {
            if args.len() == 1 {
                match eval_function_prototype(args[0]) {
                    Some(proto) => Some(SpecDeclaration::FunctionPrototype(proto)),
                    None => None,
                }
            } else {
                None
            }
        },
        SpecCode::Call(Variant::DeclarationInitDeclaratorList, args) => {
            if args.len() == 1 {
                match eval_init_declarator_list(args[0]) {
                    Some(list) => Some(SpecDeclaration::InitDeclaratorList(list)),
                    None => None,
                }
            } else {
                None
            }
        },
        SpecCode::Call(Variant::DeclarationPrecision, args) => {
            if args.len() == 2 {
                match (eval_precision_qualifier(args[0]), eval_type_specifier(args[1])) {
                    (Some(qual), Some(ty)) => Some(SpecDeclaration::Precision(qual, ty)),
                    _ => None,
                }
            } else {
                None
            }
        },
        SpecCode::Call(Variant::DeclarationBlock, args) => {
            if args.len() == 1 {
                match eval_block(args[0]) {
                    Some(block) => Some(SpecDeclaration::Block(block)),
                    None => None,
                }
            } else {
                None
            }
        },
        SpecCode::Call(Variant::DeclarationGlobal, args) => {
            if args.len() == 2 {
                match (eval_type_qualifier(args[0]), eval_identifiers(args[1])) {
                    (Some(qual), Some(identifiers)) => Some(
                        SpecDeclaration::Global(qual, identifiers),
                    ),
                    _ => None,
                }
            } else {
                None
            }
        },
        _ => None,
    }
}

/// Evaluating the constructor expression of a declaration gives it back.
pub proof fn lemma_declaration_round_trip(d: SpecDeclaration)
    ensures
        eval_declaration(declaration_code(d)) == Some(d),
{
    reveal(eval_declaration);
    match d {
        SpecDeclaration::FunctionPrototype(proto) => {
            lemma_function_prototype_round_trip(proto);
        },
        SpecDeclaration::InitDeclaratorList(list) => {
            lemma_init_declarator_list_round_trip(list);
        },
        SpecDeclaration::Precision(qual, ty) => {
            lemma_precision_qualifier_round_trip(qual);
            lemma_type_specifier_round_trip(ty);
        },
        SpecDeclaration::Block(block) => {
            lemma_block_round_trip(block);
        },
        SpecDeclaration::Global(qual, identifiers) => {
            lemma_type_qualifier_round_trip(qual);
            lemma_identifiers_round_trip(identifiers);
        },
    }
}

/// The declaration that a constructor expression builds behind a fresh indirection, if it
/// builds one.
#[verifier::opaque]
pub open spec fn eval_boxed_declaration(c: SpecCode) -> Option<SpecDeclaration> {
    match c {
        SpecCode::Boxed(inner) => eval_declaration(*inner),
        _ => None,
    }
}

/// Evaluating the constructor expression of a boxed declaration gives it back.
pub proof fn lemma_boxed_declaration_round_trip(x: SpecDeclaration)
    ensures
        eval_boxed_declaration(SpecCode::boxed(declaration_code(x))) == Some(x),
{
    reveal(eval_boxed_declaration);
    lemma_declaration_round_trip(x);
}

/// The sequence of identifiers that a constructor expression builds, if it builds one: element by
/// element, in the order of the vector.
#[verifier::opaque]
pub open spec fn eval_identifiers(c: SpecCode) -> Option<Seq<Seq<char>>> {
    match c {
        SpecCode::List(items) => {
            if forall|i: int|
                0 <= i < items.len() ==> eval_name(#[trigger] items[i]) is Some {
                Some(
                    Seq::new(
                        items.len(),
                        |i: int|
                            if 0 <= i < items.len() {
                                eval_name(items[i])->Some_0
                            } else {
                                arbitrary()
                            },
                    ),
                )
            } else {
                None
            }
        },
        _ => None,
    }
}

/// Evaluating the constructor expression of a sequence of identifiers gives the sequence back.
pub proof fn lemma_identifiers_round_trip(s: Seq<Seq<char>>)
    ensures
        eval_identifiers(identifiers_code(s)) == Some(s),
{
    reveal(eval_identifiers);
    let items = identifiers_code(s)->List_0;
    assert forall|i: int| 0 <= i < items.len() implies
        eval_name(#[trigger] items[i]) == Some(s[i]) by {
    }
    assert(eval_identifiers(identifiers_code(s))->Some_0 =~= s);
}

} // verus!
