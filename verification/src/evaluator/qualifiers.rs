//! Evaluation of storage, layout, precision and interpolation qualifiers and the qualifier list of
//! a type.

use crate::code::SpecCode;
use crate::evaluator::eval_owned;
use crate::evaluator::expr::{eval_optional_boxed_expr, lemma_optional_boxed_expr_round_trip};
use crate::model::{
    SpecLayoutQualifier, SpecLayoutQualifierSpec, SpecStorageQualifier, SpecTypeQualifier,
    SpecTypeQualifierSpec,
};
use crate::names::{Field, Record, Variant};
use crate::syntax::{InterpolationQualifier, PrecisionQualifier};
use crate::tokenizer::qualifiers::{
    interpolation_qualifier_code, layout_qualifier_code, layout_qualifier_spec_code,
    layout_qualifier_specs_code, optional_type_qualifier_code, precision_qualifier_code,
    storage_qualifier_code, type_names_code, type_qualifier_code, type_qualifier_spec_code,
    type_qualifier_specs_code,
};
use vstd::prelude::*;

verus! {

/// The precision qualifier that a constructor expression builds, if it builds one.
#[verifier::opaque]
pub open spec fn eval_precision_qualifier(c: SpecCode) -> Option<PrecisionQualifier> {
    match c {
        SpecCode::Unit(Variant::PrecisionQualifierHigh) => Some(PrecisionQualifier::High),
        SpecCode::Unit(Variant::PrecisionQualifierMedium) => Some(PrecisionQualifier::Medium),
        SpecCode::Unit(Variant::PrecisionQualifierLow) => Some(PrecisionQualifier::Low),
        _ => None,
    }
}

/// Evaluating the constructor expression of a precision qualifier gives it back.
pub proof fn lemma_precision_qualifier_round_trip(p: PrecisionQualifier)
    ensures
        eval_precision_qualifier(precision_qualifier_code(p)) == Some(p),
{
    reveal(eval_precision_qualifier);
}

/// The interpolation qualifier that a constructor expression builds, if it builds one.
#[verifier::opaque]
pub open spec fn eval_interpolation_qualifier(c: SpecCode) -> Option<InterpolationQualifier> {
    match c {
        SpecCode::Unit(Variant::InterpolationQualifierSmooth) => Some(
            InterpolationQualifier::Smooth,
        ),
        SpecCode::Unit(Variant::InterpolationQualifierFlat) => Some(InterpolationQualifier::Flat),
        SpecCode::Unit(Variant::InterpolationQualifierNoPerspective) => Some(
            InterpolationQualifier::NoPerspective,
        ),
        _ => None,
    }
}

/// Evaluating the constructor expression of an interpolation qualifier gives it back.
pub proof fn lemma_interpolation_qualifier_round_trip(i: InterpolationQualifier)
    ensures
        eval_interpolation_qualifier(interpolation_qualifier_code(i)) == Some(i),
{
    reveal(eval_interpolation_qualifier);
}

/// The storage qualifier that a constructor expression builds, if it builds one.
#[verifier::opaque]
pub open spec fn eval_storage_qualifier(c: SpecCode) -> Option<SpecStorageQualifier> {
    match c {
        SpecCode::Unit(Variant::StorageQualifierConst) => Some(SpecStorageQualifier::Const),
        SpecCode::Unit(Variant::StorageQualifierInOut) => Some(SpecStorageQualifier::InOut),
        SpecCode::Unit(Variant::StorageQualifierIn) => Some(SpecStorageQualifier::In),
        SpecCode::Unit(Variant::StorageQualifierOut) => Some(SpecStorageQualifier::Out),
        SpecCode::Unit(Variant::StorageQualifierCentroid) => Some(SpecStorageQualifier::Centroid),
        SpecCode::Unit(Variant::StorageQualifierPatch) => Some(SpecStorageQualifier::Patch),
        SpecCode::Unit(Variant::StorageQualifierSample) => Some(SpecStorageQualifier::Sample),
        SpecCode::Unit(Variant::StorageQualifierUniform) => Some(SpecStorageQualifier::Uniform),
        SpecCode::Unit(Variant::StorageQualifierBuffer) => Some(SpecStorageQualifier::Buffer),
        SpecCode::Unit(Variant::StorageQualifierShared) => Some(SpecStorageQualifier::Shared),
        SpecCode::Unit(Variant::StorageQualifierCoherent) => Some(SpecStorageQualifier::Coherent),
        SpecCode::Unit(Variant::StorageQualifierVolatile) => Some(SpecStorageQualifier::Volatile),
        SpecCode::Unit(Variant::StorageQualifierRestrict) => Some(SpecStorageQualifier::Restrict),
        SpecCode::Unit(Variant::StorageQualifierReadOnly) => Some(SpecStorageQualifier::ReadOnly),
        SpecCode::Unit(Variant::StorageQualifierWriteOnly) => Some(SpecStorageQualifier::WriteOnly),
        SpecCode::Call(Variant::StorageQualifierSubroutine, args) => {
            if args.len() == 1 {
                match eval_type_names(args[0]) {
                    Some(n) => Some(SpecStorageQualifier::Subroutine(n)),
                    None => None,
                }
            } else {
                None
            }
        },
        _ => None,
    }
}

/// Evaluating the constructor expression of a storage qualifier gives it back.
pub proof fn lemma_storage_qualifier_round_trip(q: SpecStorageQualifier)
    ensures
        eval_storage_qualifier(storage_qualifier_code(q)) == Some(q),
{
    reveal(eval_storage_qualifier);
    match q {
        SpecStorageQualifier::Subroutine(n) => {
            lemma_type_names_round_trip(n);
        },
        _ => {},
    }
}

/// The layout qualifier entry that a constructor expression builds, if it builds one.
#[verifier::opaque]
pub open spec fn eval_layout_qualifier_spec(c: SpecCode) -> Option<SpecLayoutQualifierSpec> {
    match c {
        SpecCode::Call(Variant::LayoutQualifierSpecIdentifier, args) => {
            if args.len() == 2 {
                match (eval_owned(args[0]), eval_optional_boxed_expr(args[1])) {
                    (Some(i), Some(e)) => Some(SpecLayoutQualifierSpec::Identifier(i, e)),
                    _ => None,
                }
            } else {
                None
            }
        },
        SpecCode::Unit(Variant::LayoutQualifierSpecShared) => Some(SpecLayoutQualifierSpec::Shared),
        _ => None,
    }
}

/// Evaluating the constructor expression of a layout qualifier entry gives it back.
pub proof fn lemma_layout_qualifier_spec_round_trip(l: SpecLayoutQualifierSpec)
    ensures
        eval_layout_qualifier_spec(layout_qualifier_spec_code(l)) == Some(l),
{
    reveal(eval_layout_qualifier_spec);
    match l {
        SpecLayoutQualifierSpec::Identifier(_, e) => {
            lemma_optional_boxed_expr_round_trip(e);
        },
        _ => {},
    }
}

/// The sequence of layout entries that a constructor expression builds, if it builds one: element
/// by element, in the order of the vector.
#[verifier::opaque]
pub open spec fn eval_layout_qualifier_specs(c: SpecCode) -> Option<Seq<SpecLayoutQualifierSpec>> {
    match c {
        SpecCode::List(items) => {
            if forall|i: int|
                0 <= i < items.len() ==> eval_layout_qualifier_spec(#[trigger] items[i]) is Some {
                Some(
                    Seq::new(
                        items.len(),
                        |i: int|
                            if 0 <= i < items.len() {
                                eval_layout_qualifier_spec(items[i])->Some_0
                            } else {
                                arbitrary()
                            },
                    ),
                )
            } else {
                None
            }
        },
        _ => None,
    }
}

/// Evaluating the constructor expression of a sequence of layout entries gives the sequence back.
pub proof fn lemma_layout_qualifier_specs_round_trip(s: Seq<SpecLayoutQualifierSpec>)
    ensures
        eval_layout_qualifier_specs(layout_qualifier_specs_code(s)) == Some(s),
{
    reveal(eval_layout_qualifier_specs);
    let items = layout_qualifier_specs_code(s)->List_0;
    assert forall|i: int| 0 <= i < items.len() implies
        eval_layout_qualifier_spec(#[trigger] items[i]) == Some(s[i]) by {
        lemma_layout_qualifier_spec_round_trip(s[i]);
    }
    assert(eval_layout_qualifier_specs(layout_qualifier_specs_code(s))->Some_0 =~= s);
}

/// The layout qualifier that a constructor expression builds, if it builds one.
#[verifier::opaque]
pub open spec fn eval_layout_qualifier(c: SpecCode) -> Option<SpecLayoutQualifier> {
    match c {
        SpecCode::Record(Record::LayoutQualifier, fields) => {
            if fields.len() == 1 && fields[0].0 == Field::Ids {
                match eval_layout_qualifier_specs(fields[0].1) {
                    Some(ids) => Some(SpecLayoutQualifier { ids }),
                    None => None,
                }
            } else {
                None
            }
        },
        _ => None,
    }
}

/// Evaluating the constructor expression of a layout qualifier gives it back.
pub proof fn lemma_layout_qualifier_round_trip(l: SpecLayoutQualifier)
    ensures
        eval_layout_qualifier(layout_qualifier_code(l)) == Some(l),
{
    reveal(eval_layout_qualifier);
    let fields = layout_qualifier_code(l)->Record_1;
    assert(fields.len() == 1);
    lemma_layout_qualifier_specs_round_trip(l.ids);
}

/// The type qualifier entry that a constructor expression builds, if it builds one.
#[verifier::opaque]
pub open spec fn eval_type_qualifier_spec(c: SpecCode) -> Option<SpecTypeQualifierSpec> {
    match c {
        SpecCode::Call(Variant::TypeQualifierSpecStorage, args) => {
            if args.len() == 1 {
                match eval_storage_qualifier(args[0]) {
                    Some(s) => Some(SpecTypeQualifierSpec::Storage(s)),
                    None => None,
                }
            } else {
                None
            }
        },
        SpecCode::Call(Variant::TypeQualifierSpecLayout, args) => {
            if args.len() == 1 {
                match eval_layout_qualifier(args[0]) {
                    Some(l) => Some(SpecTypeQualifierSpec::Layout(l)),
                    None => None,
                }
            } else {
                None
            }
        },
        SpecCode::Call(Variant::TypeQualifierSpecPrecision, args) => {
            if args.len() == 1 {
                match eval_precision_qualifier(args[0]) {
                    Some(p) => Some(SpecTypeQualifierSpec::Precision(p)),
                    None => None,
                }
            } else {
                None
            }
        },
        SpecCode::Call(Variant::TypeQualifierSpecInterpolation, args) => {
            if args.len() == 1 {
                match eval_interpolation_qualifier(args[0]) {
                    Some(i) => Some(SpecTypeQualifierSpec::Interpolation(i)),
                    None => None,
                }
            } else {
                None
            }
        },
        SpecCode::Unit(Variant::TypeQualifierSpecInvariant) => Some(
            SpecTypeQualifierSpec::Invariant,
        ),
        SpecCode::Unit(Variant::TypeQualifierSpecPrecise) => Some(SpecTypeQualifierSpec::Precise),
        _ => None,
    }
}

/// Evaluating the constructor expression of a type qualifier entry gives it back.
pub proof fn lemma_type_qualifier_spec_round_trip(q: SpecTypeQualifierSpec)
    ensures
        eval_type_qualifier_spec(type_qualifier_spec_code(q)) == Some(q),
{
    reveal(eval_type_qualifier_spec);
    match q {
        SpecTypeQualifierSpec::Storage(s) => {
            lemma_storage_qualifier_round_trip(s);
        },
        SpecTypeQualifierSpec::Layout(l) => {
            lemma_layout_qualifier_round_trip(l);
        },
        SpecTypeQualifierSpec::Precision(p) => {
            lemma_precision_qualifier_round_trip(p);
        },
        SpecTypeQualifierSpec::Interpolation(i) => {
            lemma_interpolation_qualifier_round_trip(i);
        },
        _ => {},
    }
}

/// The sequence of qualifier entries that a constructor expression builds, if it builds one:
/// element by element, in the order of the vector.
#[verifier::opaque]
pub open spec fn eval_type_qualifier_specs(c: SpecCode) -> Option<Seq<SpecTypeQualifierSpec>> {
    match c {
        SpecCode::List(items) => {
            if forall|i: int|
                0 <= i < items.len() ==> eval_type_qualifier_spec(#[trigger] items[i]) is Some {
                Some(
                    Seq::new(
                        items.len(),
                        |i: int|
                            if 0 <= i < items.len() {
                                eval_type_qualifier_spec(items[i])->Some_0
                            } else {
                                arbitrary()
                            },
                    ),
                )
            } else {
                None
            }
        },
        _ => None,
    }
}

/// Evaluating the constructor expression of a sequence of qualifier entries gives the sequence
/// back.
pub proof fn lemma_type_qualifier_specs_round_trip(s: Seq<SpecTypeQualifierSpec>)
    ensures
        eval_type_qualifier_specs(type_qualifier_specs_code(s)) == Some(s),
{
    reveal(eval_type_qualifier_specs);
    let items = type_qualifier_specs_code(s)->List_0;
    assert forall|i: int| 0 <= i < items.len() implies
        eval_type_qualifier_spec(#[trigger] items[i]) == Some(s[i]) by {
        lemma_type_qualifier_spec_round_trip(s[i]);
    }
    assert(eval_type_qualifier_specs(type_qualifier_specs_code(s))->Some_0 =~= s);
}

/// The type qualifier that a constructor expression builds, if it builds one.
#[verifier::opaque]
pub open spec fn eval_type_qualifier(c: SpecCode) -> Option<SpecTypeQualifier> {
    match c {
        SpecCode::Record(Record::TypeQualifier, fields) => {
            if fields.len() == 1 && fields[0].0 == Field::Qualifiers {
                match eval_type_qualifier_specs(fields[0].1) {
                    Some(qualifiers) => Some(SpecTypeQualifier { qualifiers }),
                    None => None,
                }
            } else {
                None
            }
        },
        _ => None,
    }
}

/// Evaluating the constructor expression of a type qualifier gives it back.
pub proof fn lemma_type_qualifier_round_trip(q: SpecTypeQualifier)
    ensures
        eval_type_qualifier(type_qualifier_code(q)) == Some(q),
{
    reveal(eval_type_qualifier);
    let fields = type_qualifier_code(q)->Record_1;
    assert(fields.len() == 1);
    lemma_type_qualifier_specs_round_trip(q.qualifiers);
}

/// What a constructor expression builds where a type qualifier may be absent: nothing, or the
/// type qualifier, if it builds either.
#[verifier::opaque]
pub open spec fn eval_optional_type_qualifier(c: SpecCode) -> Option<Option<SpecTypeQualifier>> {
    match c {
        SpecCode::Absent => Some(None),
        SpecCode::Present(inner) => match eval_type_qualifier(*inner) {
            Some(x) => Some(Some(x)),
            None => None,
        },
        _ => None,
    }
}

/// Evaluating the constructor expression of a type qualifier that may be absent gives it back.
pub proof fn lemma_optional_type_qualifier_round_trip(o: Option<SpecTypeQualifier>)
    ensures
        eval_optional_type_qualifier(optional_type_qualifier_code(o)) == Some(o),
{
    reveal(eval_optional_type_qualifier);
    match o {
        Some(x) => {
            lemma_type_qualifier_round_trip(x);
        },
        None => {},
    }
}

/// The sequence of type names that a constructor expression builds, if it builds one: element by
/// element, in the order of the vector.
#[verifier::opaque]
pub open spec fn eval_type_names(c: SpecCode) -> Option<Seq<Seq<char>>> {
    match c {
        SpecCode::List(items) => {
            if forall|i: int|
                0 <= i < items.len() ==> eval_owned(#[trigger] items[i]) is Some {
                Some(
                    Seq::new(
                        items.len(),
                        |i: int|
                            if 0 <= i < items.len() {
                                eval_owned(items[i])->Some_0
                            } else {
                                arbitrary()
                            },
                    ),
                )
            } else {
                None
            }
        },
        _ => None,
    }
}

/// Evaluating the constructor expression of a sequence of type names gives the sequence back.
pub proof fn lemma_type_names_round_trip(s: Seq<Seq<char>>)
    ensures
        eval_type_names(type_names_code(s)) == Some(s),
{
    reveal(eval_type_names);
    let items = type_names_code(s)->List_0;
    assert forall|i: int| 0 <= i < items.len() implies
        eval_owned(#[trigger] items[i]) == Some(s[i]) by {
    }
    assert(eval_type_names(type_names_code(s))->Some_0 =~= s);
}

} // verus!
