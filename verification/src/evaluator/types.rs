//! Evaluation of type specifiers, struct specifiers and their fields, and arrayed identifiers.

use crate::code::SpecCode;
use crate::evaluator::{eval_optional_owned, eval_owned, lemma_optional_owned_round_trip};
use crate::evaluator::expr::{
    eval_optional_array_specifier, lemma_optional_array_specifier_round_trip,
};
use crate::evaluator::qualifiers::{
    eval_optional_type_qualifier, lemma_optional_type_qualifier_round_trip,
};
use crate::model::{
    SpecArrayedIdentifier, SpecFullySpecifiedType, SpecStructFieldSpecifier, SpecStructSpecifier,
    SpecTypeSpecifier, SpecTypeSpecifierNonArray,
};
use crate::names::{Field, Record, Variant};
use crate::tokenizer::types::{
    arrayed_identifier_code, arrayed_identifiers_code, fully_specified_type_code,
    optional_arrayed_identifier_code, struct_field_specifier_code, struct_fields_code,
    struct_specifier_code, type_specifier_code, type_specifier_non_array_code,
};
use vstd::prelude::*;

verus! {

/// The non-array type specifier that a constructor expression builds, if it builds one.
pub open spec fn eval_type_specifier_non_array(c: SpecCode) -> Option<SpecTypeSpecifierNonArray>
    decreases c, 1nat,
{
    match c {
        SpecCode::Unit(Variant::TypeSpecifierNonArrayVoid) => Some(SpecTypeSpecifierNonArray::Void),
        SpecCode::Unit(Variant::TypeSpecifierNonArrayBool) => Some(SpecTypeSpecifierNonArray::Bool),
        SpecCode::Unit(Variant::TypeSpecifierNonArrayInt) => Some(SpecTypeSpecifierNonArray::Int),
        SpecCode::Unit(Variant::TypeSpecifierNonArrayUInt) => Some(SpecTypeSpecifierNonArray::UInt),
        SpecCode::Unit(Variant::TypeSpecifierNonArrayFloat) => Some(
            SpecTypeSpecifierNonArray::Float,
        ),
        SpecCode::Unit(Variant::TypeSpecifierNonArrayDouble) => Some(
            SpecTypeSpecifierNonArray::Double,
        ),
        SpecCode::Unit(Variant::TypeSpecifierNonArrayVec2) => Some(SpecTypeSpecifierNonArray::Vec2),
        SpecCode::Unit(Variant::TypeSpecifierNonArrayVec3) => Some(SpecTypeSpecifierNonArray::Vec3),
        SpecCode::Unit(Variant::TypeSpecifierNonArrayVec4) => Some(SpecTypeSpecifierNonArray::Vec4),
        SpecCode::Unit(Variant::TypeSpecifierNonArrayDVec2) => Some(
            SpecTypeSpecifierNonArray::DVec2,
        ),
        SpecCode::Unit(Variant::TypeSpecifierNonArrayDVec3) => Some(
            SpecTypeSpecifierNonArray::DVec3,
        ),
        SpecCode::Unit(Variant::TypeSpecifierNonArrayDVec4) => Some(
            SpecTypeSpecifierNonArray::DVec4,
        ),
        SpecCode::Unit(Variant::TypeSpecifierNonArrayBVec2) => Some(
            SpecTypeSpecifierNonArray::BVec2,
        ),
        SpecCode::Unit(Variant::TypeSpecifierNonArrayBVec3) => Some(
            SpecTypeSpecifierNonArray::BVec3,
        ),
        SpecCode::Unit(Variant::TypeSpecifierNonArrayBVec4) => Some(
            SpecTypeSpecifierNonArray::BVec4,
        ),
        SpecCode::Unit(Variant::TypeSpecifierNonArrayIVec2) => Some(
            SpecTypeSpecifierNonArray::IVec2,
        ),
        SpecCode::Unit(Variant::TypeSpecifierNonArrayIVec3) => Some(
            SpecTypeSpecifierNonArray::IVec3,
        ),
        SpecCode::Unit(Variant::TypeSpecifierNonArrayIVec4) => Some(
            SpecTypeSpecifierNonArray::IVec4,
        ),
        SpecCode::Unit(Variant::TypeSpecifierNonArrayUVec2) => Some(
            SpecTypeSpecifierNonArray::UVec2,
        ),
        SpecCode::Unit(Variant::TypeSpecifierNonArrayUVec3) => Some(
            SpecTypeSpecifierNonArray::UVec3,
        ),
        SpecCode::Unit(Variant::TypeSpecifierNonArrayUVec4) => Some(
            SpecTypeSpecifierNonArray::UVec4,
        ),
        SpecCode::Unit(Variant::TypeSpecifierNonArrayMat2) => Some(SpecTypeSpecifierNonArray::Mat2),
        SpecCode::Unit(Variant::TypeSpecifierNonArrayMat3) => Some(SpecTypeSpecifierNonArray::Mat3),
        SpecCode::Unit(Variant::TypeSpecifierNonArrayMat4) => Some(SpecTypeSpecifierNonArray::Mat4),
        SpecCode::Unit(Variant::TypeSpecifierNonArrayMat23) => Some(
            SpecTypeSpecifierNonArray::Mat23,
        ),
        SpecCode::Unit(Variant::TypeSpecifierNonArrayMat24) => Some(
            SpecTypeSpecifierNonArray::Mat24,
        ),
        SpecCode::Unit(Variant::TypeSpecifierNonArrayMat32) => Some(
            SpecTypeSpecifierNonArray::Mat32,
        ),
        SpecCode::Unit(Variant::TypeSpecifierNonArrayMat34) => Some(
            SpecTypeSpecifierNonArray::Mat34,
        ),
        SpecCode::Unit(Variant::TypeSpecifierNonArrayMat42) => Some(
            SpecTypeSpecifierNonArray::Mat42,
        ),
        SpecCode::Unit(Variant::TypeSpecifierNonArrayMat43) => Some(
            SpecTypeSpecifierNonArray::Mat43,
        ),
        SpecCode::Unit(Variant::TypeSpecifierNonArrayDMat2) => Some(
            SpecTypeSpecifierNonArray::DMat2,
        ),
        SpecCode::Unit(Variant::TypeSpecifierNonArrayDMat3) => Some(
            SpecTypeSpecifierNonArray::DMat3,
        ),
        SpecCode::Unit(Variant::TypeSpecifierNonArrayDMat4) => Some(
            SpecTypeSpecifierNonArray::DMat4,
        ),
        SpecCode::Unit(Variant::TypeSpecifierNonArrayDMat23) => Some(
            SpecTypeSpecifierNonArray::DMat23,
        ),
        SpecCode::Unit(Variant::TypeSpecifierNonArrayDMat24) => Some(
            SpecTypeSpecifierNonArray::DMat24,
        ),
        SpecCode::Unit(Variant::TypeSpecifierNonArrayDMat32) => Some(
            SpecTypeSpecifierNonArray::DMat32,
        ),
        SpecCode::Unit(Variant::TypeSpecifierNonArrayDMat34) => Some(
            SpecTypeSpecifierNonArray::DMat34,
        ),
        SpecCode::Unit(Variant::TypeSpecifierNonArrayDMat42) => Some(
            SpecTypeSpecifierNonArray::DMat42,
        ),
        SpecCode::Unit(Variant::TypeSpecifierNonArrayDMat43) => Some(
            SpecTypeSpecifierNonArray::DMat43,
        ),
        SpecCode::Unit(Variant::TypeSpecifierNonArraySampler1D) => Some(
            SpecTypeSpecifierNonArray::Sampler1D,
        ),
        SpecCode::Unit(Variant::TypeSpecifierNonArrayImage1D) => Some(
            SpecTypeSpecifierNonArray::Image1D,
        ),
        SpecCode::Unit(Variant::TypeSpecifierNonArraySampler2D) => Some(
            SpecTypeSpecifierNonArray::Sampler2D,
        ),
        SpecCode::Unit(Variant::TypeSpecifierNonArrayImage2D) => Some(
            SpecTypeSpecifierNonArray::Image2D,
        ),
        SpecCode::Unit(Variant::TypeSpecifierNonArraySampler3D) => Some(
            SpecTypeSpecifierNonArray::Sampler3D,
        ),
        SpecCode::Unit(Variant::TypeSpecifierNonArrayImage3D) => Some(
            SpecTypeSpecifierNonArray::Image3D,
        ),
        SpecCode::Unit(Variant::TypeSpecifierNonArraySamplerCube) => Some(
            SpecTypeSpecifierNonArray::SamplerCube,
        ),
        SpecCode::Unit(Variant::TypeSpecifierNonArrayImageCube) => Some(
            SpecTypeSpecifierNonArray::ImageCube,
        ),
        SpecCode::Unit(Variant::TypeSpecifierNonArraySampler2DRect) => Some(
            SpecTypeSpecifierNonArray::Sampler2DRect,
        ),
        SpecCode::Unit(Variant::TypeSpecifierNonArrayImage2DRect) => Some(
            SpecTypeSpecifierNonArray::Image2DRect,
        ),
        SpecCode::Unit(Variant::TypeSpecifierNonArraySampler1DArray) => Some(
            SpecTypeSpecifierNonArray::Sampler1DArray,
        ),
        SpecCode::Unit(Variant::TypeSpecifierNonArrayImage1DArray) => Some(
            SpecTypeSpecifierNonArray::Image1DArray,
        ),
        SpecCode::Unit(Variant::TypeSpecifierNonArraySampler2DArray) => Some(
            SpecTypeSpecifierNonArray::Sampler2DArray,
        ),
        SpecCode::Unit(Variant::TypeSpecifierNonArrayImage2DArray) => Some(
            SpecTypeSpecifierNonArray::Image2DArray,
        ),
        SpecCode::Unit(Variant::TypeSpecifierNonArraySamplerBuffer) => Some(
            SpecTypeSpecifierNonArray::SamplerBuffer,
        ),
        SpecCode::Unit(Variant::TypeSpecifierNonArrayImageBuffer) => Some(
            SpecTypeSpecifierNonArray::ImageBuffer,
        ),
        SpecCode::Unit(Variant::TypeSpecifierNonArraySampler2DMS) => Some(
            SpecTypeSpecifierNonArray::Sampler2DMS,
        ),
        SpecCode::Unit(Variant::TypeSpecifierNonArrayImage2DMS) => Some(
            SpecTypeSpecifierNonArray::Image2DMS,
        ),
        SpecCode::Unit(Variant::TypeSpecifierNonArraySampler2DMSArray) => Some(
            SpecTypeSpecifierNonArray::Sampler2DMSArray,
        ),
        SpecCode::Unit(Variant::TypeSpecifierNonArrayImage2DMSArray) => Some(
            SpecTypeSpecifierNonArray::Image2DMSArray,
        ),
        SpecCode::Unit(Variant::TypeSpecifierNonArraySamplerCubeArray) => Some(
            SpecTypeSpecifierNonArray::SamplerCubeArray,
        ),
        SpecCode::Unit(Variant::TypeSpecifierNonArrayImageCubeArray) => Some(
            SpecTypeSpecifierNonArray::ImageCubeArray,
        ),
        SpecCode::Unit(Variant::TypeSpecifierNonArraySampler1DShadow) => Some(
            SpecTypeSpecifierNonArray::Sampler1DShadow,
        ),
        SpecCode::Unit(Variant::TypeSpecifierNonArraySampler2DShadow) => Some(
            SpecTypeSpecifierNonArray::Sampler2DShadow,
        ),
        SpecCode::Unit(Variant::TypeSpecifierNonArraySampler2DRectShadow) => Some(
            SpecTypeSpecifierNonArray::Sampler2DRectShadow,
        ),
        SpecCode::Unit(Variant::TypeSpecifierNonArraySampler1DArrayShadow) => Some(
            SpecTypeSpecifierNonArray::Sampler1DArrayShadow,
        ),
        SpecCode::Unit(Variant::TypeSpecifierNonArraySampler2DArrayShadow) => Some(
            SpecTypeSpecifierNonArray::Sampler2DArrayShadow,
        ),
        SpecCode::Unit(Variant::TypeSpecifierNonArraySamplerCubeShadow) => Some(
            SpecTypeSpecifierNonArray::SamplerCubeShadow,
        ),
        SpecCode::Unit(Variant::TypeSpecifierNonArraySamplerCubeArrayShadow) => Some(
            SpecTypeSpecifierNonArray::SamplerCubeArrayShadow,
        ),
        SpecCode::Unit(Variant::TypeSpecifierNonArrayISampler1D) => Some(
            SpecTypeSpecifierNonArray::ISampler1D,
        ),
        SpecCode::Unit(Variant::TypeSpecifierNonArrayIImage1D) => Some(
            SpecTypeSpecifierNonArray::IImage1D,
        ),
        SpecCode::Unit(Variant::TypeSpecifierNonArrayISampler2D) => Some(
            SpecTypeSpecifierNonArray::ISampler2D,
        ),
        SpecCode::Unit(Variant::TypeSpecifierNonArrayIImage2D) => Some(
            SpecTypeSpecifierNonArray::IImage2D,
        ),
        SpecCode::Unit(Variant::TypeSpecifierNonArrayISampler3D) => Some(
            SpecTypeSpecifierNonArray::ISampler3D,
        ),
        SpecCode::Unit(Variant::TypeSpecifierNonArrayIImage3D) => Some(
            SpecTypeSpecifierNonArray::IImage3D,
        ),
        SpecCode::Unit(Variant::TypeSpecifierNonArrayISamplerCube) => Some(
            SpecTypeSpecifierNonArray::ISamplerCube,
        ),
        SpecCode::Unit(Variant::TypeSpecifierNonArrayIImageCube) => Some(
            SpecTypeSpecifierNonArray::IImageCube,
        ),
        SpecCode::Unit(Variant::TypeSpecifierNonArrayISampler2DRect) => Some(
            SpecTypeSpecifierNonArray::ISampler2DRect,
        ),
        SpecCode::Unit(Variant::TypeSpecifierNonArrayIImage2DRect) => Some(
            SpecTypeSpecifierNonArray::IImage2DRect,
        ),
        SpecCode::Unit(Variant::TypeSpecifierNonArrayISampler1DArray) => Some(
            SpecTypeSpecifierNonArray::ISampler1DArray,
        ),
        SpecCode::Unit(Variant::TypeSpecifierNonArrayIImage1DArray) => Some(
            SpecTypeSpecifierNonArray::IImage1DArray,
        ),
        SpecCode::Unit(Variant::TypeSpecifierNonArrayISampler2DArray) => Some(
            SpecTypeSpecifierNonArray::ISampler2DArray,
        ),
        SpecCode::Unit(Variant::TypeSpecifierNonArrayIImage2DArray) => Some(
            SpecTypeSpecifierNonArray::IImage2DArray,
        ),
        SpecCode::Unit(Variant::TypeSpecifierNonArrayISamplerBuffer) => Some(
            SpecTypeSpecifierNonArray::ISamplerBuffer,
        ),
        SpecCode::Unit(Variant::TypeSpecifierNonArrayIImageBuffer) => Some(
            SpecTypeSpecifierNonArray::IImageBuffer,
        ),
        SpecCode::Unit(Variant::TypeSpecifierNonArrayISampler2DMS) => Some(
            SpecTypeSpecifierNonArray::ISampler2DMS,
        ),
        SpecCode::Unit(Variant::TypeSpecifierNonArrayIImage2DMS) => Some(
            SpecTypeSpecifierNonArray::IImage2DMS,
        ),
        SpecCode::Unit(Variant::TypeSpecifierNonArrayISampler2DMSArray) => Some(
            SpecTypeSpecifierNonArray::ISampler2DMSArray,
        ),
        SpecCode::Unit(Variant::TypeSpecifierNonArrayIImage2DMSArray) => Some(
            SpecTypeSpecifierNonArray::IImage2DMSArray,
        ),
        SpecCode::Unit(Variant::TypeSpecifierNonArrayISamplerCubeArray) => Some(
            SpecTypeSpecifierNonArray::ISamplerCubeArray,
        ),
        SpecCode::Unit(Variant::TypeSpecifierNonArrayIImageCubeArray) => Some(
            SpecTypeSpecifierNonArray::IImageCubeArray,
        ),
        SpecCode::Unit(Variant::TypeSpecifierNonArrayAtomicUInt) => Some(
            SpecTypeSpecifierNonArray::AtomicUInt,
        ),
        SpecCode::Unit(Variant::TypeSpecifierNonArrayUSampler1D) => Some(
            SpecTypeSpecifierNonArray::USampler1D,
        ),
        SpecCode::Unit(Variant::TypeSpecifierNonArrayUImage1D) => Some(
            SpecTypeSpecifierNonArray::UImage1D,
        ),
        SpecCode::Unit(Variant::TypeSpecifierNonArrayUSampler2D) => Some(
            SpecTypeSpecifierNonArray::USampler2D,
        ),
        SpecCode::Unit(Variant::TypeSpecifierNonArrayUImage2D) => Some(
            SpecTypeSpecifierNonArray::UImage2D,
        ),
        SpecCode::Unit(Variant::TypeSpecifierNonArrayUSampler3D) => Some(
            SpecTypeSpecifierNonArray::USampler3D,
        ),
        SpecCode::Unit(Variant::TypeSpecifierNonArrayUImage3D) => Some(
            SpecTypeSpecifierNonArray::UImage3D,
        ),
        SpecCode::Unit(Variant::TypeSpecifierNonArrayUSamplerCube) => Some(
            SpecTypeSpecifierNonArray::USamplerCube,
        ),
        SpecCode::Unit(Variant::TypeSpecifierNonArrayUImageCube) => Some(
            SpecTypeSpecifierNonArray::UImageCube,
        ),
        SpecCode::Unit(Variant::TypeSpecifierNonArrayUSampler2DRect) => Some(
            SpecTypeSpecifierNonArray::USampler2DRect,
        ),
        SpecCode::Unit(Variant::TypeSpecifierNonArrayUImage2DRect) => Some(
            SpecTypeSpecifierNonArray::UImage2DRect,
        ),
        SpecCode::Unit(Variant::TypeSpecifierNonArrayUSampler1DArray) => Some(
            SpecTypeSpecifierNonArray::USampler1DArray,
        ),
        SpecCode::Unit(Variant::TypeSpecifierNonArrayUImage1DArray) => Some(
            SpecTypeSpecifierNonArray::UImage1DArray,
        ),
        SpecCode::Unit(Variant::TypeSpecifierNonArrayUSampler2DArray) => Some(
            SpecTypeSpecifierNonArray::USampler2DArray,
        ),
        SpecCode::Unit(Variant::TypeSpecifierNonArrayUImage2DArray) => Some(
            SpecTypeSpecifierNonArray::UImage2DArray,
        ),
        SpecCode::Unit(Variant::TypeSpecifierNonArrayUSamplerBuffer) => Some(
            SpecTypeSpecifierNonArray::USamplerBuffer,
        ),
        SpecCode::Unit(Variant::TypeSpecifierNonArrayUImageBuffer) => Some(
            SpecTypeSpecifierNonArray::UImageBuffer,
        ),
        SpecCode::Unit(Variant::TypeSpecifierNonArrayUSampler2DMS) => Some(
            SpecTypeSpecifierNonArray::USampler2DMS,
        ),
        SpecCode::Unit(Variant::TypeSpecifierNonArrayUImage2DMS) => Some(
            SpecTypeSpecifierNonArray::UImage2DMS,
        ),
        SpecCode::Unit(Variant::TypeSpecifierNonArrayUSampler2DMSArray) => Some(
            SpecTypeSpecifierNonArray::USampler2DMSArray,
        ),
        SpecCode::Unit(Variant::TypeSpecifierNonArrayUImage2DMSArray) => Some(
            SpecTypeSpecifierNonArray::UImage2DMSArray,
        ),
        SpecCode::Unit(Variant::TypeSpecifierNonArrayUSamplerCubeArray) => Some(
            SpecTypeSpecifierNonArray::USamplerCubeArray,
        ),
        SpecCode::Unit(Variant::TypeSpecifierNonArrayUImageCubeArray) => Some(
            SpecTypeSpecifierNonArray::UImageCubeArray,
        ),
        SpecCode::Call(Variant::TypeSpecifierNonArrayStruct, args) => {
            if args.len() == 1 {
                match eval_struct_specifier(args[0]) {
                    Some(s) => Some(SpecTypeSpecifierNonArray::Struct(s)),
                    None => None,
                }
            } else {
                None
            }
        },
        SpecCode::Name(tn) => Some(SpecTypeSpecifierNonArray::TypeName(tn)),
        _ => None,
    }
}

/// Evaluating the constructor expression of a non-array type specifier gives it back.
pub proof fn lemma_type_specifier_non_array_round_trip(t: SpecTypeSpecifierNonArray)
    ensures
        eval_type_specifier_non_array(type_specifier_non_array_code(t)) == Some(t),
    decreases t, 0nat,
{
    match t {
        SpecTypeSpecifierNonArray::Struct(s) => {
            lemma_struct_specifier_round_trip(s);
        },
        _ => {},
    }
}

/// The type specifier that a constructor expression builds, if it builds one.
pub open spec fn eval_type_specifier(c: SpecCode) -> Option<SpecTypeSpecifier>
    decreases c, 0nat,
{
    match c {
        SpecCode::Record(Record::TypeSpecifier, fields) => {
            if fields.len() == 2
                && fields[0].0 == Field::Ty
                && fields[1].0 == Field::ArraySpecifier {
                match (
                    eval_type_specifier_non_array(fields[0].1),
                    eval_optional_array_specifier(fields[1].1),
                ) {
                    (Some(ty), Some(array_specifier)) => Some(
                        SpecTypeSpecifier { ty, array_specifier },
                    ),
                    _ => None,
                }
            } else {
                None
            }
        },
        _ => None,
    }
}

/// Evaluating the constructor expression of a type specifier gives it back.
pub proof fn lemma_type_specifier_round_trip(t: SpecTypeSpecifier)
    ensures
        eval_type_specifier(type_specifier_code(t)) == Some(t),
    decreases t, 0nat,
{
    let fields = type_specifier_code(t)->Record_1;
    assert(fields.len() == 2);
    lemma_type_specifier_non_array_round_trip(t.ty);
    lemma_optional_array_specifier_round_trip(t.array_specifier);
}

/// The struct specifier that a constructor expression builds, if it builds one.
pub open spec fn eval_struct_specifier(c: SpecCode) -> Option<SpecStructSpecifier>
    decreases c, 0nat,
{
    match c {
        SpecCode::Record(Record::StructSpecifier, fields) => {
            if fields.len() == 2 && fields[0].0 == Field::Name && fields[1].0 == Field::Fields {
                match (eval_optional_owned(fields[0].1), eval_struct_fields(fields[1].1)) {
                    (Some(name), Some(fields)) => Some(SpecStructSpecifier { name, fields }),
                    _ => None,
                }
            } else {
                None
            }
        },
        _ => None,
    }
}

/// Evaluating the constructor expression of a struct specifier gives it back.
pub proof fn lemma_struct_specifier_round_trip(s: SpecStructSpecifier)
    ensures
        eval_struct_specifier(struct_specifier_code(s)) == Some(s),
    decreases s, 0nat,
{
    let fields = struct_specifier_code(s)->Record_1;
    assert(fields.len() == 2);
    lemma_optional_owned_round_trip(s.name);
    lemma_struct_fields_round_trip(s.fields);
}

/// The struct field specifier that a constructor expression builds, if it builds one.
pub open spec fn eval_struct_field_specifier(c: SpecCode) -> Option<SpecStructFieldSpecifier>
    decreases c, 0nat,
{
    match c {
        SpecCode::Record(Record::StructFieldSpecifier, fields) => {
            if fields.len() == 3
                && fields[0].0 == Field::Qualifier
                && fields[1].0 == Field::Ty
                && fields[2].0 == Field::Identifiers {
                match (
                    eval_optional_type_qualifier(fields[0].1),
                    eval_type_specifier(fields[1].1),
                    eval_arrayed_identifiers(fields[2].1),
                ) {
                    (Some(qualifier), Some(ty), Some(identifiers)) => Some(
                        SpecStructFieldSpecifier { qualifier, ty, identifiers },
                    ),
                    _ => None,
                }
            } else {
                None
            }
        },
        _ => None,
    }
}

/// Evaluating the constructor expression of a struct field specifier gives it back.
pub proof fn lemma_struct_field_specifier_round_trip(field: SpecStructFieldSpecifier)
    ensures
        eval_struct_field_specifier(struct_field_specifier_code(field)) == Some(field),
    decreases field, 0nat,
{
    let fields = struct_field_specifier_code(field)->Record_1;
    assert(fields.len() == 3);
    lemma_optional_type_qualifier_round_trip(field.qualifier);
    lemma_type_specifier_round_trip(field.ty);
    lemma_arrayed_identifiers_round_trip(field.identifiers);
}

/// The sequence of field specifiers that a constructor expression builds, if it builds one: element
/// by element, in the order of the vector.
pub open spec fn eval_struct_fields(c: SpecCode) -> Option<Seq<SpecStructFieldSpecifier>>
    decreases c, 0nat,
{
    match c {
        SpecCode::List(items) => {
            if forall|i: int|
                0 <= i < items.len() ==> eval_struct_field_specifier(#[trigger] items[i]) is Some {
                Some(
                    Seq::new(
                        items.len(),
                        |i: int|
                            if 0 <= i < items.len() {
                                eval_struct_field_specifier(items[i])->Some_0
                            } else {
                                arbitrary()
                            },
                    ),
                )
            } else {
                None
            }
        },
        _ => None,
    }
}

/// Evaluating the constructor expression of a sequence of field specifiers gives the sequence back.
pub proof fn lemma_struct_fields_round_trip(s: Seq<SpecStructFieldSpecifier>)
    ensures
        eval_struct_fields(struct_fields_code(s)) == Some(s),
    decreases s, 0nat,
{
    let items = struct_fields_code(s)->List_0;
    assert forall|i: int| 0 <= i < items.len() implies
        eval_struct_field_specifier(#[trigger] items[i]) == Some(s[i]) by {
        lemma_struct_field_specifier_round_trip(s[i]);
    }
    assert(eval_struct_fields(struct_fields_code(s))->Some_0 =~= s);
}

/// The fully specified type that a constructor expression builds, if it builds one.
#[verifier::opaque]
pub open spec fn eval_fully_specified_type(c: SpecCode) -> Option<SpecFullySpecifiedType> {
    match c {
        SpecCode::Record(Record::FullySpecifiedType, fields) => {
            if fields.len() == 2 && fields[0].0 == Field::Qualifier && fields[1].0 == Field::Ty {
                match (
                    eval_optional_type_qualifier(fields[0].1),
                    eval_type_specifier(fields[1].1),
                ) {
                    (Some(qualifier), Some(ty)) => Some(SpecFullySpecifiedType { qualifier, ty }),
                    _ => None,
                }
            } else {
                None
            }
        },
        _ => None,
    }
}

/// Evaluating the constructor expression of a fully specified type gives it back.
pub proof fn lemma_fully_specified_type_round_trip(t: SpecFullySpecifiedType)
    ensures
        eval_fully_specified_type(fully_specified_type_code(t)) == Some(t),
{
    reveal(eval_fully_specified_type);
    let fields = fully_specified_type_code(t)->Record_1;
    assert(fields.len() == 2);
    lemma_optional_type_qualifier_round_trip(t.qualifier);
    lemma_type_specifier_round_trip(t.ty);
}

/// The arrayed identifier that a constructor expression builds, if it builds one.
#[verifier::opaque]
pub open spec fn eval_arrayed_identifier(c: SpecCode) -> Option<SpecArrayedIdentifier> {
    match c {
        SpecCode::Pair(name, array_specifier) => {
            match (eval_owned(*name), eval_optional_array_specifier(*array_specifier)) {
                (Some(name), Some(array_specifier)) => Some((name, array_specifier)),
                _ => None,
            }
        },
        _ => None,
    }
}

/// Evaluating the constructor expression of an arrayed identifier gives it back.
pub proof fn lemma_arrayed_identifier_round_trip(i: SpecArrayedIdentifier)
    ensures
        eval_arrayed_identifier(arrayed_identifier_code(i)) == Some(i),
{
    reveal(eval_arrayed_identifier);
    lemma_optional_array_specifier_round_trip(i.1);
}

/// What a constructor expression builds where an arrayed identifier may be absent: nothing, or the
/// arrayed identifier, if it builds either.
#[verifier::opaque]
pub open spec fn eval_optional_arrayed_identifier(
    c: SpecCode,
) -> Option<Option<SpecArrayedIdentifier>> {
    match c {
        SpecCode::Absent => Some(None),
        SpecCode::Present(inner) => match eval_arrayed_identifier(*inner) {
            Some(x) => Some(Some(x)),
            None => None,
        },
        _ => None,
    }
}

/// Evaluating the constructor expression of an arrayed identifier that may be absent gives it back.
pub proof fn lemma_optional_arrayed_identifier_round_trip(o: Option<SpecArrayedIdentifier>)
    ensures
        eval_optional_arrayed_identifier(optional_arrayed_identifier_code(o)) == Some(o),
{
    reveal(eval_optional_arrayed_identifier);
    match o {
        Some(x) => {
            lemma_arrayed_identifier_round_trip(x);
        },
        None => {},
    }
}

/// The sequence of arrayed identifiers that a constructor expression builds, if it builds one:
/// element by element, in the order of the vector.
#[verifier::opaque]
pub open spec fn eval_arrayed_identifiers(c: SpecCode) -> Option<Seq<SpecArrayedIdentifier>> {
    match c {
        SpecCode::List(items) => {
            if forall|i: int|
                0 <= i < items.len() ==> eval_arrayed_identifier(#[trigger] items[i]) is Some {
                Some(
                    Seq::new(
                        items.len(),
                        |i: int|
                            if 0 <= i < items.len() {
                                eval_arrayed_identifier(items[i])->Some_0
                            } else {
                                arbitrary()
                            },
                    ),
                )
            } else {
                None
            }
        },
        _ => None,
    }
}

/// Evaluating the constructor expression of a sequence of arrayed identifiers gives the sequence
/// back.
pub proof fn lemma_arrayed_identifiers_round_trip(s: Seq<SpecArrayedIdentifier>)
    ensures
        eval_arrayed_identifiers(arrayed_identifiers_code(s)) == Some(s),
{
    reveal(eval_arrayed_identifiers);
    let items = arrayed_identifiers_code(s)->List_0;
    assert forall|i: int| 0 <= i < items.len() implies
        eval_arrayed_identifier(#[trigger] items[i]) == Some(s[i]) by {
        lemma_arrayed_identifier_round_trip(s[i]);
    }
    assert(eval_arrayed_identifiers(arrayed_identifiers_code(s))->Some_0 =~= s);
}

} // verus!
