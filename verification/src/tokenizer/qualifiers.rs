//! Qualifiers: storage, layout, precision and interpolation qualifiers and the qualifier list of a
//! type.

use crate::code::{Code, SpecCode, codes_view, fields1};
use crate::model::{
    SpecLayoutQualifier, SpecLayoutQualifierSpec, SpecStorageQualifier, SpecTypeQualifier,
    SpecTypeQualifierSpec, layout_qualifier_specs_view, type_names_view,
    type_qualifier_specs_view,
};
use crate::names::{Field, Record, Variant};
use crate::quoted::Quoted;
use crate::syntax::{
    InterpolationQualifier, LayoutQualifier, LayoutQualifierSpec, PrecisionQualifier,
    StorageQualifier, TypeName, TypeQualifier, TypeQualifierSpec,
};
use crate::tokenizer::expr::{optional_boxed_expr_code, tokenize_expr};
use vstd::prelude::*;

verus! {

/// The constructor expression of a precision qualifier.
pub open spec fn precision_qualifier_code(p: PrecisionQualifier) -> SpecCode {
    match p {
        PrecisionQualifier::High => SpecCode::Unit(Variant::PrecisionQualifierHigh),
        PrecisionQualifier::Medium => SpecCode::Unit(Variant::PrecisionQualifierMedium),
        PrecisionQualifier::Low => SpecCode::Unit(Variant::PrecisionQualifierLow),
    }
}

/// Tokenizes a precision qualifier.
pub fn tokenize_precision_qualifier(p: &PrecisionQualifier) -> (code: Code)
    ensures
        code@ == precision_qualifier_code(p@),
{
    match p {
        PrecisionQualifier::High => Code::Unit(Variant::PrecisionQualifierHigh),
        PrecisionQualifier::Medium => Code::Unit(Variant::PrecisionQualifierMedium),
        PrecisionQualifier::Low => Code::Unit(Variant::PrecisionQualifierLow),
    }
}

/// The constructor expression of an interpolation qualifier.
pub open spec fn interpolation_qualifier_code(i: InterpolationQualifier) -> SpecCode {
    match i {
        InterpolationQualifier::Smooth => SpecCode::Unit(Variant::InterpolationQualifierSmooth),
        InterpolationQualifier::Flat => SpecCode::Unit(Variant::InterpolationQualifierFlat),
        InterpolationQualifier::NoPerspective => SpecCode::Unit(
            Variant::InterpolationQualifierNoPerspective,
        ),
    }
}

/// Tokenizes an interpolation qualifier.
pub fn tokenize_interpolation_qualifier(i: &InterpolationQualifier) -> (code: Code)
    ensures
        code@ == interpolation_qualifier_code(i@),
{
    match i {
        InterpolationQualifier::Smooth => Code::Unit(Variant::InterpolationQualifierSmooth),
        InterpolationQualifier::Flat => Code::Unit(Variant::InterpolationQualifierFlat),
        InterpolationQualifier::NoPerspective => Code::Unit(
            Variant::InterpolationQualifierNoPerspective,
        ),
    }
}

/// The constructor expression of a storage qualifier.
pub open spec fn storage_qualifier_code(q: SpecStorageQualifier) -> SpecCode {
    match q {
        SpecStorageQualifier::Const => SpecCode::Unit(Variant::StorageQualifierConst),
        SpecStorageQualifier::InOut => SpecCode::Unit(Variant::StorageQualifierInOut),
        SpecStorageQualifier::In => SpecCode::Unit(Variant::StorageQualifierIn),
        SpecStorageQualifier::Out => SpecCode::Unit(Variant::StorageQualifierOut),
        SpecStorageQualifier::Centroid => SpecCode::Unit(Variant::StorageQualifierCentroid),
        SpecStorageQualifier::Patch => SpecCode::Unit(Variant::StorageQualifierPatch),
        SpecStorageQualifier::Sample => SpecCode::Unit(Variant::StorageQualifierSample),
        SpecStorageQualifier::Uniform => SpecCode::Unit(Variant::StorageQualifierUniform),
        SpecStorageQualifier::Buffer => SpecCode::Unit(Variant::StorageQualifierBuffer),
        SpecStorageQualifier::Shared => SpecCode::Unit(Variant::StorageQualifierShared),
        SpecStorageQualifier::Coherent => SpecCode::Unit(Variant::StorageQualifierCoherent),
        SpecStorageQualifier::Volatile => SpecCode::Unit(Variant::StorageQualifierVolatile),
        SpecStorageQualifier::Restrict => SpecCode::Unit(Variant::StorageQualifierRestrict),
        SpecStorageQualifier::ReadOnly => SpecCode::Unit(Variant::StorageQualifierReadOnly),
        SpecStorageQualifier::WriteOnly => SpecCode::Unit(Variant::StorageQualifierWriteOnly),
        SpecStorageQualifier::Subroutine(n) => SpecCode::Call(
            Variant::StorageQualifierSubroutine,
            seq![type_names_code(n)],
        ),
    }
}

/// Tokenizes a storage qualifier.
pub fn tokenize_storage_qualifier(q: &StorageQualifier) -> (code: Code)
    ensures
        code@ == storage_qualifier_code(q@),
{
    match q {
        StorageQualifier::Const => Code::Unit(Variant::StorageQualifierConst),
        StorageQualifier::InOut => Code::Unit(Variant::StorageQualifierInOut),
        StorageQualifier::In => Code::Unit(Variant::StorageQualifierIn),
        StorageQualifier::Out => Code::Unit(Variant::StorageQualifierOut),
        StorageQualifier::Centroid => Code::Unit(Variant::StorageQualifierCentroid),
        StorageQualifier::Patch => Code::Unit(Variant::StorageQualifierPatch),
        StorageQualifier::Sample => Code::Unit(Variant::StorageQualifierSample),
        StorageQualifier::Uniform => Code::Unit(Variant::StorageQualifierUniform),
        StorageQualifier::Buffer => Code::Unit(Variant::StorageQualifierBuffer),
        StorageQualifier::Shared => Code::Unit(Variant::StorageQualifierShared),
        StorageQualifier::Coherent => Code::Unit(Variant::StorageQualifierCoherent),
        StorageQualifier::Volatile => Code::Unit(Variant::StorageQualifierVolatile),
        StorageQualifier::Restrict => Code::Unit(Variant::StorageQualifierRestrict),
        StorageQualifier::ReadOnly => Code::Unit(Variant::StorageQualifierReadOnly),
        StorageQualifier::WriteOnly => Code::Unit(Variant::StorageQualifierWriteOnly),
        StorageQualifier::Subroutine(n) => {
            let n = tokenize_type_names(n);
            Code::call1(Variant::StorageQualifierSubroutine, n)
        },
    }
}

/// The constructor expression of a layout qualifier entry.
pub open spec fn layout_qualifier_spec_code(l: SpecLayoutQualifierSpec) -> SpecCode {
    match l {
        SpecLayoutQualifierSpec::Identifier(i, e) => SpecCode::Call(
            Variant::LayoutQualifierSpecIdentifier,
            seq![SpecCode::Owned(i), optional_boxed_expr_code(e)],
        ),
        SpecLayoutQualifierSpec::Shared => SpecCode::Unit(Variant::LayoutQualifierSpecShared),
    }
}

/// Tokenizes a layout qualifier entry.
pub fn tokenize_layout_qualifier_spec(l: &LayoutQualifierSpec) -> (code: Code)
    ensures
        code@ == layout_qualifier_spec_code(l@),
{
    match l {
        LayoutQualifierSpec::Identifier(i, e) => {
            let i = i.as_str().quote();
            let e = match e {
                Some(x) => Some(Box::new(tokenize_expr(x)).quote()),
                None => None,
            }.quote();
            assert(e@ == optional_boxed_expr_code(l@->Identifier_1));
            Code::call2(Variant::LayoutQualifierSpecIdentifier, i, e)
        },
        LayoutQualifierSpec::Shared => Code::Unit(Variant::LayoutQualifierSpecShared),
    }
}

/// The constructor expression of a sequence of layout entries: a vector of their constructor
/// expressions, as many and in the same order.
pub open spec fn layout_qualifier_specs_code(s: Seq<SpecLayoutQualifierSpec>) -> SpecCode {
    SpecCode::List(
        Seq::new(
            s.len(),
            |i: int|
                if 0 <= i < s.len() {
                    layout_qualifier_spec_code(s[i])
                } else {
                    arbitrary()
                },
        ),
    )
}

/// Tokenizes a sequence of layout entries, one after the other.
pub fn tokenize_layout_qualifier_specs(ids: &Vec<LayoutQualifierSpec>) -> (code: Code)
    ensures
        code@ == layout_qualifier_specs_code(layout_qualifier_specs_view(*ids)),
{
    let mut items: Vec<Code> = Vec::new();
    let mut i: usize = 0;
    while i < ids.len()
        invariant
            i <= ids.len(),
            items@.len() == i,
            forall|j: int|
                0 <= j < i ==> (#[trigger] items@[j])@ == layout_qualifier_spec_code(ids@[j]@),
        decreases ids.len() - i,
    {
        let item = tokenize_layout_qualifier_spec(&ids[i]);
        items.push(item);
        i += 1;
    }
    assert(codes_view(items)
        =~= layout_qualifier_specs_code(layout_qualifier_specs_view(*ids))->List_0);
    Code::List(items)
}

/// The constructor expression of a layout qualifier.
pub open spec fn layout_qualifier_code(l: SpecLayoutQualifier) -> SpecCode {
    SpecCode::Record(
        Record::LayoutQualifier,
        seq![(Field::Ids, layout_qualifier_specs_code(l.ids))],
    )
}

/// Tokenizes a layout qualifier.
pub fn tokenize_layout_qualifier(l: &LayoutQualifier) -> (code: Code)
    ensures
        code@ == layout_qualifier_code(l@),
{
    let ids = tokenize_layout_qualifier_specs(&l.ids);
    Code::record(Record::LayoutQualifier, fields1(Field::Ids, ids))
}

/// The constructor expression of a type qualifier entry.
pub open spec fn type_qualifier_spec_code(q: SpecTypeQualifierSpec) -> SpecCode {
    match q {
        SpecTypeQualifierSpec::Storage(s) => SpecCode::Call(
            Variant::TypeQualifierSpecStorage,
            seq![storage_qualifier_code(s)],
        ),
        SpecTypeQualifierSpec::Layout(l) => SpecCode::Call(
            Variant::TypeQualifierSpecLayout,
            seq![layout_qualifier_code(l)],
        ),
        SpecTypeQualifierSpec::Precision(p) => SpecCode::Call(
            Variant::TypeQualifierSpecPrecision,
            seq![precision_qualifier_code(p)],
        ),
        SpecTypeQualifierSpec::Interpolation(i) => SpecCode::Call(
            Variant::TypeQualifierSpecInterpolation,
            seq![interpolation_qualifier_code(i)],
        ),
        SpecTypeQualifierSpec::Invariant => SpecCode::Unit(Variant::TypeQualifierSpecInvariant),
        SpecTypeQualifierSpec::Precise => SpecCode::Unit(Variant::TypeQualifierSpecPrecise),
    }
}

/// Tokenizes a type qualifier entry.
pub fn tokenize_type_qualifier_spec(q: &TypeQualifierSpec) -> (code: Code)
    ensures
        code@ == type_qualifier_spec_code(q@),
{
    match q {
        TypeQualifierSpec::Storage(s) => {
            let s = tokenize_storage_qualifier(s);
            Code::call1(Variant::TypeQualifierSpecStorage, s)
        },
        TypeQualifierSpec::Layout(l) => {
            let l = tokenize_layout_qualifier(l);
            Code::call1(Variant::TypeQualifierSpecLayout, l)
        },
        TypeQualifierSpec::Precision(p) => {
            let p = tokenize_precision_qualifier(p);
            Code::call1(Variant::TypeQualifierSpecPrecision, p)
        },
        TypeQualifierSpec::Interpolation(i) => {
            let i = tokenize_interpolation_qualifier(i);
            Code::call1(Variant::TypeQualifierSpecInterpolation, i)
        },
        TypeQualifierSpec::Invariant => Code::Unit(Variant::TypeQualifierSpecInvariant),
        TypeQualifierSpec::Precise => Code::Unit(Variant::TypeQualifierSpecPrecise),
    }
}

/// The constructor expression of a sequence of qualifier entries: a vector of their constructor
/// expressions, as many and in the same order.
pub open spec fn type_qualifier_specs_code(s: Seq<SpecTypeQualifierSpec>) -> SpecCode {
    SpecCode::List(
        Seq::new(
            s.len(),
            |i: int|
                if 0 <= i < s.len() {
                    type_qualifier_spec_code(s[i])
                } else {
                    arbitrary()
                },
        ),
    )
}

/// Tokenizes a sequence of qualifier entries, one after the other.
pub fn tokenize_type_qualifier_specs(qualifiers: &Vec<TypeQualifierSpec>) -> (code: Code)
    ensures
        code@ == type_qualifier_specs_code(type_qualifier_specs_view(*qualifiers)),
{
    let mut items: Vec<Code> = Vec::new();
    let mut i: usize = 0;
    while i < qualifiers.len()
        invariant
            i <= qualifiers.len(),
            items@.len() == i,
            forall|j: int|
                0 <= j < i ==> (#[trigger] items@[j])@ == type_qualifier_spec_code(qualifiers@[j]@),
        decreases qualifiers.len() - i,
    {
        let item = tokenize_type_qualifier_spec(&qualifiers[i]);
        items.push(item);
        i += 1;
    }
    assert(codes_view(items)
        =~= type_qualifier_specs_code(type_qualifier_specs_view(*qualifiers))->List_0);
    Code::List(items)
}

/// The constructor expression of a type qualifier.
pub open spec fn type_qualifier_code(q: SpecTypeQualifier) -> SpecCode {
    SpecCode::Record(
        Record::TypeQualifier,
        seq![(Field::Qualifiers, type_qualifier_specs_code(q.qualifiers))],
    )
}

/// Tokenizes a type qualifier.
pub fn tokenize_type_qualifier(q: &TypeQualifier) -> (code: Code)
    ensures
        code@ == type_qualifier_code(q@),
{
    let qualifiers = tokenize_type_qualifier_specs(&q.qualifiers);
    Code::record(Record::TypeQualifier, fields1(Field::Qualifiers, qualifiers))
}

/// The constructor expression of a type qualifier that may be absent.
pub open spec fn optional_type_qualifier_code(o: Option<SpecTypeQualifier>) -> SpecCode {
    SpecCode::optional(
        match o {
            Some(x) => Some(type_qualifier_code(x)),
            None => None,
        },
    )
}

/// The constructor expression of a sequence of type names: a vector of their constructor
/// expressions, as many and in the same order.
pub open spec fn type_names_code(s: Seq<Seq<char>>) -> SpecCode {
    SpecCode::List(
        Seq::new(
            s.len(),
            |i: int|
                if 0 <= i < s.len() {
                    SpecCode::Owned(s[i])
                } else {
                    arbitrary()
                },
        ),
    )
}

/// Tokenizes a sequence of type names, one after the other.
pub fn tokenize_type_names(names: &Vec<TypeName>) -> (code: Code)
    ensures
        code@ == type_names_code(type_names_view(*names)),
{
    let mut items: Vec<Code> = Vec::new();
    let mut i: usize = 0;
    while i < names.len()
        invariant
            i <= names.len(),
            items@.len() == i,
            forall|j: int|
                0 <= j < i ==> (#[trigger] items@[j])@ == SpecCode::Owned(names@[j]@),
        decreases names.len() - i,
    {
        let item = names[i].as_str().quote();
        items.push(item);
        i += 1;
    }
    assert(codes_view(items) =~= type_names_code(type_names_view(*names))->List_0);
    Code::List(items)
}

} // verus!
