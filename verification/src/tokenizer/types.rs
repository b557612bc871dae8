//! Types: type specifiers, struct specifiers and their fields, and arrayed identifiers.

use crate::code::{Code, SpecCode, codes_view, fields2, fields3, optional_owned_code};
use crate::model::{
    SpecArrayedIdentifier, SpecFullySpecifiedType, SpecStructFieldSpecifier, SpecStructSpecifier,
    SpecTypeSpecifier, SpecTypeSpecifierNonArray, arrayed_identifier_view,
    arrayed_identifiers_view, struct_fields_view,
};
use crate::names::{Field, Record, Variant};
use crate::quoted::Quoted;
use crate::syntax::{
    ArraySpecifier, ArrayedIdentifier, FullySpecifiedType, Identifier, StructFieldSpecifier,
    StructSpecifier, TypeSpecifier, TypeSpecifierNonArray,
};
use crate::tokenizer::expr::{optional_array_specifier_code, tokenize_array_spec};
use crate::tokenizer::qualifiers::{optional_type_qualifier_code, tokenize_type_qualifier};
use vstd::prelude::*;

verus! {

/// The constructor expression of a non-array type specifier.
pub open spec fn type_specifier_non_array_code(t: SpecTypeSpecifierNonArray) -> SpecCode
    decreases t,
{
    match t {
        SpecTypeSpecifierNonArray::Void => SpecCode::Unit(Variant::TypeSpecifierNonArrayVoid),
        SpecTypeSpecifierNonArray::Bool => SpecCode::Unit(Variant::TypeSpecifierNonArrayBool),
        SpecTypeSpecifierNonArray::Int => SpecCode::Unit(Variant::TypeSpecifierNonArrayInt),
        SpecTypeSpecifierNonArray::UInt => SpecCode::Unit(Variant::TypeSpecifierNonArrayUInt),
        SpecTypeSpecifierNonArray::Float => SpecCode::Unit(Variant::TypeSpecifierNonArrayFloat),
        SpecTypeSpecifierNonArray::Double => SpecCode::Unit(Variant::TypeSpecifierNonArrayDouble),
        SpecTypeSpecifierNonArray::Vec2 => SpecCode::Unit(Variant::TypeSpecifierNonArrayVec2),
        SpecTypeSpecifierNonArray::Vec3 => SpecCode::Unit(Variant::TypeSpecifierNonArrayVec3),
        SpecTypeSpecifierNonArray::Vec4 => SpecCode::Unit(Variant::TypeSpecifierNonArrayVec4),
        SpecTypeSpecifierNonArray::DVec2 => SpecCode::Unit(Variant::TypeSpecifierNonArrayDVec2),
        SpecTypeSpecifierNonArray::DVec3 => SpecCode::Unit(Variant::TypeSpecifierNonArrayDVec3),
        SpecTypeSpecifierNonArray::DVec4 => SpecCode::Unit(Variant::TypeSpecifierNonArrayDVec4),
        SpecTypeSpecifierNonArray::BVec2 => SpecCode::Unit(Variant::TypeSpecifierNonArrayBVec2),
        SpecTypeSpecifierNonArray::BVec3 => SpecCode::Unit(Variant::TypeSpecifierNonArrayBVec3),
        SpecTypeSpecifierNonArray::BVec4 => SpecCode::Unit(Variant::TypeSpecifierNonArrayBVec4),
        SpecTypeSpecifierNonArray::IVec2 => SpecCode::Unit(Variant::TypeSpecifierNonArrayIVec2),
        SpecTypeSpecifierNonArray::IVec3 => SpecCode::Unit(Variant::TypeSpecifierNonArrayIVec3),
        SpecTypeSpecifierNonArray::IVec4 => SpecCode::Unit(Variant::TypeSpecifierNonArrayIVec4),
        SpecTypeSpecifierNonArray::UVec2 => SpecCode::Unit(Variant::TypeSpecifierNonArrayUVec2),
        SpecTypeSpecifierNonArray::UVec3 => SpecCode::Unit(Variant::TypeSpecifierNonArrayUVec3),
        SpecTypeSpecifierNonArray::UVec4 => SpecCode::Unit(Variant::TypeSpecifierNonArrayUVec4),
        SpecTypeSpecifierNonArray::Mat2 => SpecCode::Unit(Variant::TypeSpecifierNonArrayMat2),
        SpecTypeSpecifierNonArray::Mat3 => SpecCode::Unit(Variant::TypeSpecifierNonArrayMat3),
        SpecTypeSpecifierNonArray::Mat4 => SpecCode::Unit(Variant::TypeSpecifierNonArrayMat4),
        SpecTypeSpecifierNonArray::Mat23 => SpecCode::Unit(Variant::TypeSpecifierNonArrayMat23),
        SpecTypeSpecifierNonArray::Mat24 => SpecCode::Unit(Variant::TypeSpecifierNonArrayMat24),
        SpecTypeSpecifierNonArray::Mat32 => SpecCode::Unit(Variant::TypeSpecifierNonArrayMat32),
        SpecTypeSpecifierNonArray::Mat34 => SpecCode::Unit(Variant::TypeSpecifierNonArrayMat34),
        SpecTypeSpecifierNonArray::Mat42 => SpecCode::Unit(Variant::TypeSpecifierNonArrayMat42),
        SpecTypeSpecifierNonArray::Mat43 => SpecCode::Unit(Variant::TypeSpecifierNonArrayMat43),
        SpecTypeSpecifierNonArray::DMat2 => SpecCode::Unit(Variant::TypeSpecifierNonArrayDMat2),
        SpecTypeSpecifierNonArray::DMat3 => SpecCode::Unit(Variant::TypeSpecifierNonArrayDMat3),
        SpecTypeSpecifierNonArray::DMat4 => SpecCode::Unit(Variant::TypeSpecifierNonArrayDMat4),
        SpecTypeSpecifierNonArray::DMat23 => SpecCode::Unit(Variant::TypeSpecifierNonArrayDMat23),
        SpecTypeSpecifierNonArray::DMat24 => SpecCode::Unit(Variant::TypeSpecifierNonArrayDMat24),
        SpecTypeSpecifierNonArray::DMat32 => SpecCode::Unit(Variant::TypeSpecifierNonArrayDMat32),
        SpecTypeSpecifierNonArray::DMat34 => SpecCode::Unit(Variant::TypeSpecifierNonArrayDMat34),
        SpecTypeSpecifierNonArray::DMat42 => SpecCode::Unit(Variant::TypeSpecifierNonArrayDMat42),
        SpecTypeSpecifierNonArray::DMat43 => SpecCode::Unit(Variant::TypeSpecifierNonArrayDMat43),
        SpecTypeSpecifierNonArray::Sampler1D => SpecCode::Unit(
            Variant::TypeSpecifierNonArraySampler1D,
        ),
        SpecTypeSpecifierNonArray::Image1D => SpecCode::Unit(Variant::TypeSpecifierNonArrayImage1D),
        SpecTypeSpecifierNonArray::Sampler2D => SpecCode::Unit(
            Variant::TypeSpecifierNonArraySampler2D,
        ),
        SpecTypeSpecifierNonArray::Image2D => SpecCode::Unit(Variant::TypeSpecifierNonArrayImage2D),
        SpecTypeSpecifierNonArray::Sampler3D => SpecCode::Unit(
            Variant::TypeSpecifierNonArraySampler3D,
        ),
        SpecTypeSpecifierNonArray::Image3D => SpecCode::Unit(Variant::TypeSpecifierNonArrayImage3D),
        SpecTypeSpecifierNonArray::SamplerCube => SpecCode::Unit(
            Variant::TypeSpecifierNonArraySamplerCube,
        ),
        SpecTypeSpecifierNonArray::ImageCube => SpecCode::Unit(
            Variant::TypeSpecifierNonArrayImageCube,
        ),
        SpecTypeSpecifierNonArray::Sampler2DRect => SpecCode::Unit(
            Variant::TypeSpecifierNonArraySampler2DRect,
        ),
        SpecTypeSpecifierNonArray::Image2DRect => SpecCode::Unit(
            Variant::TypeSpecifierNonArrayImage2DRect,
        ),
        SpecTypeSpecifierNonArray::Sampler1DArray => SpecCode::Unit(
            Variant::TypeSpecifierNonArraySampler1DArray,
        ),
        SpecTypeSpecifierNonArray::Image1DArray => SpecCode::Unit(
            Variant::TypeSpecifierNonArrayImage1DArray,
        ),
        SpecTypeSpecifierNonArray::Sampler2DArray => SpecCode::Unit(
            Variant::TypeSpecifierNonArraySampler2DArray,
        ),
        SpecTypeSpecifierNonArray::Image2DArray => SpecCode::Unit(
            Variant::TypeSpecifierNonArrayImage2DArray,
        ),
        SpecTypeSpecifierNonArray::SamplerBuffer => SpecCode::Unit(
            Variant::TypeSpecifierNonArraySamplerBuffer,
        ),
        SpecTypeSpecifierNonArray::ImageBuffer => SpecCode::Unit(
            Variant::TypeSpecifierNonArrayImageBuffer,
        ),
        SpecTypeSpecifierNonArray::Sampler2DMS => SpecCode::Unit(
            Variant::TypeSpecifierNonArraySampler2DMS,
        ),
        SpecTypeSpecifierNonArray::Image2DMS => SpecCode::Unit(
            Variant::TypeSpecifierNonArrayImage2DMS,
        ),
        SpecTypeSpecifierNonArray::Sampler2DMSArray => SpecCode::Unit(
            Variant::TypeSpecifierNonArraySampler2DMSArray,
        ),
        SpecTypeSpecifierNonArray::Image2DMSArray => SpecCode::Unit(
            Variant::TypeSpecifierNonArrayImage2DMSArray,
        ),
        SpecTypeSpecifierNonArray::SamplerCubeArray => SpecCode::Unit(
            Variant::TypeSpecifierNonArraySamplerCubeArray,
        ),
        SpecTypeSpecifierNonArray::ImageCubeArray => SpecCode::Unit(
            Variant::TypeSpecifierNonArrayImageCubeArray,
        ),
        SpecTypeSpecifierNonArray::Sampler1DShadow => SpecCode::Unit(
            Variant::TypeSpecifierNonArraySampler1DShadow,
        ),
        SpecTypeSpecifierNonArray::Sampler2DShadow => SpecCode::Unit(
            Variant::TypeSpecifierNonArraySampler2DShadow,
        ),
        SpecTypeSpecifierNonArray::Sampler2DRectShadow => SpecCode::Unit(
            Variant::TypeSpecifierNonArraySampler2DRectShadow,
        ),
        SpecTypeSpecifierNonArray::Sampler1DArrayShadow => SpecCode::Unit(
            Variant::TypeSpecifierNonArraySampler1DArrayShadow,
        ),
        SpecTypeSpecifierNonArray::Sampler2DArrayShadow => SpecCode::Unit(
            Variant::TypeSpecifierNonArraySampler2DArrayShadow,
        ),
        SpecTypeSpecifierNonArray::SamplerCubeShadow => SpecCode::Unit(
            Variant::TypeSpecifierNonArraySamplerCubeShadow,
        ),
        SpecTypeSpecifierNonArray::SamplerCubeArrayShadow => SpecCode::Unit(
            Variant::TypeSpecifierNonArraySamplerCubeArrayShadow,
        ),
        SpecTypeSpecifierNonArray::ISampler1D => SpecCode::Unit(
            Variant::TypeSpecifierNonArrayISampler1D,
        ),
        SpecTypeSpecifierNonArray::IImage1D => SpecCode::Unit(
            Variant::TypeSpecifierNonArrayIImage1D,
        ),
        SpecTypeSpecifierNonArray::ISampler2D => SpecCode::Unit(
            Variant::TypeSpecifierNonArrayISampler2D,
        ),
        SpecTypeSpecifierNonArray::IImage2D => SpecCode::Unit(
            Variant::TypeSpecifierNonArrayIImage2D,
        ),
        SpecTypeSpecifierNonArray::ISampler3D => SpecCode::Unit(
            Variant::TypeSpecifierNonArrayISampler3D,
        ),
        SpecTypeSpecifierNonArray::IImage3D => SpecCode::Unit(
            Variant::TypeSpecifierNonArrayIImage3D,
        ),
        SpecTypeSpecifierNonArray::ISamplerCube => SpecCode::Unit(
            Variant::TypeSpecifierNonArrayISamplerCube,
        ),
        SpecTypeSpecifierNonArray::IImageCube => SpecCode::Unit(
            Variant::TypeSpecifierNonArrayIImageCube,
        ),
        SpecTypeSpecifierNonArray::ISampler2DRect => SpecCode::Unit(
            Variant::TypeSpecifierNonArrayISampler2DRect,
        ),
        SpecTypeSpecifierNonArray::IImage2DRect => SpecCode::Unit(
            Variant::TypeSpecifierNonArrayIImage2DRect,
        ),
        SpecTypeSpecifierNonArray::ISampler1DArray => SpecCode::Unit(
            Variant::TypeSpecifierNonArrayISampler1DArray,
        ),
        SpecTypeSpecifierNonArray::IImage1DArray => SpecCode::Unit(
            Variant::TypeSpecifierNonArrayIImage1DArray,
        ),
        SpecTypeSpecifierNonArray::ISampler2DArray => SpecCode::Unit(
            Variant::TypeSpecifierNonArrayISampler2DArray,
        ),
        SpecTypeSpecifierNonArray::IImage2DArray => SpecCode::Unit(
            Variant::TypeSpecifierNonArrayIImage2DArray,
        ),
        SpecTypeSpecifierNonArray::ISamplerBuffer => SpecCode::Unit(
            Variant::TypeSpecifierNonArrayISamplerBuffer,
        ),
        SpecTypeSpecifierNonArray::IImageBuffer => SpecCode::Unit(
            Variant::TypeSpecifierNonArrayIImageBuffer,
        ),
        SpecTypeSpecifierNonArray::ISampler2DMS => SpecCode::Unit(
            Variant::TypeSpecifierNonArrayISampler2DMS,
        ),
        SpecTypeSpecifierNonArray::IImage2DMS => SpecCode::Unit(
            Variant::TypeSpecifierNonArrayIImage2DMS,
        ),
        SpecTypeSpecifierNonArray::ISampler2DMSArray => SpecCode::Unit(
            Variant::TypeSpecifierNonArrayISampler2DMSArray,
        ),
        SpecTypeSpecifierNonArray::IImage2DMSArray => SpecCode::Unit(
            Variant::TypeSpecifierNonArrayIImage2DMSArray,
        ),
        SpecTypeSpecifierNonArray::ISamplerCubeArray => SpecCode::Unit(
            Variant::TypeSpecifierNonArrayISamplerCubeArray,
        ),
        SpecTypeSpecifierNonArray::IImageCubeArray => SpecCode::Unit(
            Variant::TypeSpecifierNonArrayIImageCubeArray,
        ),
        SpecTypeSpecifierNonArray::AtomicUInt => SpecCode::Unit(
            Variant::TypeSpecifierNonArrayAtomicUInt,
        ),
        SpecTypeSpecifierNonArray::USampler1D => SpecCode::Unit(
            Variant::TypeSpecifierNonArrayUSampler1D,
        ),
        SpecTypeSpecifierNonArray::UImage1D => SpecCode::Unit(
            Variant::TypeSpecifierNonArrayUImage1D,
        ),
        SpecTypeSpecifierNonArray::USampler2D => SpecCode::Unit(
            Variant::TypeSpecifierNonArrayUSampler2D,
        ),
        SpecTypeSpecifierNonArray::UImage2D => SpecCode::Unit(
            Variant::TypeSpecifierNonArrayUImage2D,
        ),
        SpecTypeSpecifierNonArray::USampler3D => SpecCode::Unit(
            Variant::TypeSpecifierNonArrayUSampler3D,
        ),
        SpecTypeSpecifierNonArray::UImage3D => SpecCode::Unit(
            Variant::TypeSpecifierNonArrayUImage3D,
        ),
        SpecTypeSpecifierNonArray::USamplerCube => SpecCode::Unit(
            Variant::TypeSpecifierNonArrayUSamplerCube,
        ),
        SpecTypeSpecifierNonArray::UImageCube => SpecCode::Unit(
            Variant::TypeSpecifierNonArrayUImageCube,
        ),
        SpecTypeSpecifierNonArray::USampler2DRect => SpecCode::Unit(
            Variant::TypeSpecifierNonArrayUSampler2DRect,
        ),
        SpecTypeSpecifierNonArray::UImage2DRect => SpecCode::Unit(
            Variant::TypeSpecifierNonArrayUImage2DRect,
        ),
        SpecTypeSpecifierNonArray::USampler1DArray => SpecCode::Unit(
            Variant::TypeSpecifierNonArrayUSampler1DArray,
        ),
        SpecTypeSpecifierNonArray::UImage1DArray => SpecCode::Unit(
            Variant::TypeSpecifierNonArrayUImage1DArray,
        ),
        SpecTypeSpecifierNonArray::USampler2DArray => SpecCode::Unit(
            Variant::TypeSpecifierNonArrayUSampler2DArray,
        ),
        SpecTypeSpecifierNonArray::UImage2DArray => SpecCode::Unit(
            Variant::TypeSpecifierNonArrayUImage2DArray,
        ),
        SpecTypeSpecifierNonArray::USamplerBuffer => SpecCode::Unit(
            Variant::TypeSpecifierNonArrayUSamplerBuffer,
        ),
        SpecTypeSpecifierNonArray::UImageBuffer => SpecCode::Unit(
            Variant::TypeSpecifierNonArrayUImageBuffer,
        ),
        SpecTypeSpecifierNonArray::USampler2DMS => SpecCode::Unit(
            Variant::TypeSpecifierNonArrayUSampler2DMS,
        ),
        SpecTypeSpecifierNonArray::UImage2DMS => SpecCode::Unit(
            Variant::TypeSpecifierNonArrayUImage2DMS,
        ),
        SpecTypeSpecifierNonArray::USampler2DMSArray => SpecCode::Unit(
            Variant::TypeSpecifierNonArrayUSampler2DMSArray,
        ),
        SpecTypeSpecifierNonArray::UImage2DMSArray => SpecCode::Unit(
            Variant::TypeSpecifierNonArrayUImage2DMSArray,
        ),
        SpecTypeSpecifierNonArray::USamplerCubeArray => SpecCode::Unit(
            Variant::TypeSpecifierNonArrayUSamplerCubeArray,
        ),
        SpecTypeSpecifierNonArray::UImageCubeArray => SpecCode::Unit(
            Variant::TypeSpecifierNonArrayUImageCubeArray,
        ),
        SpecTypeSpecifierNonArray::Struct(s) => SpecCode::Call(
            Variant::TypeSpecifierNonArrayStruct,
            seq![struct_specifier_code(s)],
        ),
        SpecTypeSpecifierNonArray::TypeName(tn) => SpecCode::Name(tn),
    }
}

/// Tokenizes a non-array type specifier.
pub fn tokenize_type_specifier_non_array(t: &TypeSpecifierNonArray) -> (code: Code)
    ensures
        code@ == type_specifier_non_array_code(t@),
    decreases t,
{
    match t {
        TypeSpecifierNonArray::Void => Code::Unit(Variant::TypeSpecifierNonArrayVoid),
        TypeSpecifierNonArray::Bool => Code::Unit(Variant::TypeSpecifierNonArrayBool),
        TypeSpecifierNonArray::Int => Code::Unit(Variant::TypeSpecifierNonArrayInt),
        TypeSpecifierNonArray::UInt => Code::Unit(Variant::TypeSpecifierNonArrayUInt),
        TypeSpecifierNonArray::Float => Code::Unit(Variant::TypeSpecifierNonArrayFloat),
        TypeSpecifierNonArray::Double => Code::Unit(Variant::TypeSpecifierNonArrayDouble),
        TypeSpecifierNonArray::Vec2 => Code::Unit(Variant::TypeSpecifierNonArrayVec2),
        TypeSpecifierNonArray::Vec3 => Code::Unit(Variant::TypeSpecifierNonArrayVec3),
        TypeSpecifierNonArray::Vec4 => Code::Unit(Variant::TypeSpecifierNonArrayVec4),
        TypeSpecifierNonArray::DVec2 => Code::Unit(Variant::TypeSpecifierNonArrayDVec2),
        TypeSpecifierNonArray::DVec3 => Code::Unit(Variant::TypeSpecifierNonArrayDVec3),
        TypeSpecifierNonArray::DVec4 => Code::Unit(Variant::TypeSpecifierNonArrayDVec4),
        TypeSpecifierNonArray::BVec2 => Code::Unit(Variant::TypeSpecifierNonArrayBVec2),
        TypeSpecifierNonArray::BVec3 => Code::Unit(Variant::TypeSpecifierNonArrayBVec3),
        TypeSpecifierNonArray::BVec4 => Code::Unit(Variant::TypeSpecifierNonArrayBVec4),
        TypeSpecifierNonArray::IVec2 => Code::Unit(Variant::TypeSpecifierNonArrayIVec2),
        TypeSpecifierNonArray::IVec3 => Code::Unit(Variant::TypeSpecifierNonArrayIVec3),
        TypeSpecifierNonArray::IVec4 => Code::Unit(Variant::TypeSpecifierNonArrayIVec4),
        TypeSpecifierNonArray::UVec2 => Code::Unit(Variant::TypeSpecifierNonArrayUVec2),
        TypeSpecifierNonArray::UVec3 => Code::Unit(Variant::TypeSpecifierNonArrayUVec3),
        TypeSpecifierNonArray::UVec4 => Code::Unit(Variant::TypeSpecifierNonArrayUVec4),
        TypeSpecifierNonArray::Mat2 => Code::Unit(Variant::TypeSpecifierNonArrayMat2),
        TypeSpecifierNonArray::Mat3 => Code::Unit(Variant::TypeSpecifierNonArrayMat3),
        TypeSpecifierNonArray::Mat4 => Code::Unit(Variant::TypeSpecifierNonArrayMat4),
        TypeSpecifierNonArray::Mat23 => Code::Unit(Variant::TypeSpecifierNonArrayMat23),
        TypeSpecifierNonArray::Mat24 => Code::Unit(Variant::TypeSpecifierNonArrayMat24),
        TypeSpecifierNonArray::Mat32 => Code::Unit(Variant::TypeSpecifierNonArrayMat32),
        TypeSpecifierNonArray::Mat34 => Code::Unit(Variant::TypeSpecifierNonArrayMat34),
        TypeSpecifierNonArray::Mat42 => Code::Unit(Variant::TypeSpecifierNonArrayMat42),
        TypeSpecifierNonArray::Mat43 => Code::Unit(Variant::TypeSpecifierNonArrayMat43),
        TypeSpecifierNonArray::DMat2 => Code::Unit(Variant::TypeSpecifierNonArrayDMat2),
        TypeSpecifierNonArray::DMat3 => Code::Unit(Variant::TypeSpecifierNonArrayDMat3),
        TypeSpecifierNonArray::DMat4 => Code::Unit(Variant::TypeSpecifierNonArrayDMat4),
        TypeSpecifierNonArray::DMat23 => Code::Unit(Variant::TypeSpecifierNonArrayDMat23),
        TypeSpecifierNonArray::DMat24 => Code::Unit(Variant::TypeSpecifierNonArrayDMat24),
        TypeSpecifierNonArray::DMat32 => Code::Unit(Variant::TypeSpecifierNonArrayDMat32),
        TypeSpecifierNonArray::DMat34 => Code::Unit(Variant::TypeSpecifierNonArrayDMat34),
        TypeSpecifierNonArray::DMat42 => Code::Unit(Variant::TypeSpecifierNonArrayDMat42),
        TypeSpecifierNonArray::DMat43 => Code::Unit(Variant::TypeSpecifierNonArrayDMat43),
        TypeSpecifierNonArray::Sampler1D => Code::Unit(Variant::TypeSpecifierNonArraySampler1D),
        TypeSpecifierNonArray::Image1D => Code::Unit(Variant::TypeSpecifierNonArrayImage1D),
        TypeSpecifierNonArray::Sampler2D => Code::Unit(Variant::TypeSpecifierNonArraySampler2D),
        TypeSpecifierNonArray::Image2D => Code::Unit(Variant::TypeSpecifierNonArrayImage2D),
        TypeSpecifierNonArray::Sampler3D => Code::Unit(Variant::TypeSpecifierNonArraySampler3D),
        TypeSpecifierNonArray::Image3D => Code::Unit(Variant::TypeSpecifierNonArrayImage3D),
        TypeSpecifierNonArray::SamplerCube => Code::Unit(Variant::TypeSpecifierNonArraySamplerCube),
        TypeSpecifierNonArray::ImageCube => Code::Unit(Variant::TypeSpecifierNonArrayImageCube),
        TypeSpecifierNonArray::Sampler2DRect => Code::Unit(
            Variant::TypeSpecifierNonArraySampler2DRect,
        ),
        TypeSpecifierNonArray::Image2DRect => Code::Unit(Variant::TypeSpecifierNonArrayImage2DRect),
        TypeSpecifierNonArray::Sampler1DArray => Code::Unit(
            Variant::TypeSpecifierNonArraySampler1DArray,
        ),
        TypeSpecifierNonArray::Image1DArray => Code::Unit(
            Variant::TypeSpecifierNonArrayImage1DArray,
        ),
        TypeSpecifierNonArray::Sampler2DArray => Code::Unit(
            Variant::TypeSpecifierNonArraySampler2DArray,
        ),
        TypeSpecifierNonArray::Image2DArray => Code::Unit(
            Variant::TypeSpecifierNonArrayImage2DArray,
        ),
        TypeSpecifierNonArray::SamplerBuffer => Code::Unit(
            Variant::TypeSpecifierNonArraySamplerBuffer,
        ),
        TypeSpecifierNonArray::ImageBuffer => Code::Unit(Variant::TypeSpecifierNonArrayImageBuffer),
        TypeSpecifierNonArray::Sampler2DMS => Code::Unit(Variant::TypeSpecifierNonArraySampler2DMS),
        TypeSpecifierNonArray::Image2DMS => Code::Unit(Variant::TypeSpecifierNonArrayImage2DMS),
        TypeSpecifierNonArray::Sampler2DMSArray => Code::Unit(
            Variant::TypeSpecifierNonArraySampler2DMSArray,
        ),
        TypeSpecifierNonArray::Image2DMSArray => Code::Unit(
            Variant::TypeSpecifierNonArrayImage2DMSArray,
        ),
        TypeSpecifierNonArray::SamplerCubeArray => Code::Unit(
            Variant::TypeSpecifierNonArraySamplerCubeArray,
        ),
        TypeSpecifierNonArray::ImageCubeArray => Code::Unit(
            Variant::TypeSpecifierNonArrayImageCubeArray,
        ),
        TypeSpecifierNonArray::Sampler1DShadow => Code::Unit(
            Variant::TypeSpecifierNonArraySampler1DShadow,
        ),
        TypeSpecifierNonArray::Sampler2DShadow => Code::Unit(
            Variant::TypeSpecifierNonArraySampler2DShadow,
        ),
        TypeSpecifierNonArray::Sampler2DRectShadow => Code::Unit(
            Variant::TypeSpecifierNonArraySampler2DRectShadow,
        ),
        TypeSpecifierNonArray::Sampler1DArrayShadow => Code::Unit(
            Variant::TypeSpecifierNonArraySampler1DArrayShadow,
        ),
        TypeSpecifierNonArray::Sampler2DArrayShadow => Code::Unit(
            Variant::TypeSpecifierNonArraySampler2DArrayShadow,
        ),
        TypeSpecifierNonArray::SamplerCubeShadow => Code::Unit(
            Variant::TypeSpecifierNonArraySamplerCubeShadow,
        ),
        TypeSpecifierNonArray::SamplerCubeArrayShadow => Code::Unit(
            Variant::TypeSpecifierNonArraySamplerCubeArrayShadow,
        ),
        TypeSpecifierNonArray::ISampler1D => Code::Unit(Variant::TypeSpecifierNonArrayISampler1D),
        TypeSpecifierNonArray::IImage1D => Code::Unit(Variant::TypeSpecifierNonArrayIImage1D),
        TypeSpecifierNonArray::ISampler2D => Code::Unit(Variant::TypeSpecifierNonArrayISampler2D),
        TypeSpecifierNonArray::IImage2D => Code::Unit(Variant::TypeSpecifierNonArrayIImage2D),
        TypeSpecifierNonArray::ISampler3D => Code::Unit(Variant::TypeSpecifierNonArrayISampler3D),
        TypeSpecifierNonArray::IImage3D => Code::Unit(Variant::TypeSpecifierNonArrayIImage3D),
        TypeSpecifierNonArray::ISamplerCube => Code::Unit(
            Variant::TypeSpecifierNonArrayISamplerCube,
        ),
        TypeSpecifierNonArray::IImageCube => Code::Unit(Variant::TypeSpecifierNonArrayIImageCube),
        TypeSpecifierNonArray::ISampler2DRect => Code::Unit(
            Variant::TypeSpecifierNonArrayISampler2DRect,
        ),
        TypeSpecifierNonArray::IImage2DRect => Code::Unit(
            Variant::TypeSpecifierNonArrayIImage2DRect,
        ),
        TypeSpecifierNonArray::ISampler1DArray => Code::Unit(
            Variant::TypeSpecifierNonArrayISampler1DArray,
        ),
        TypeSpecifierNonArray::IImage1DArray => Code::Unit(
            Variant::TypeSpecifierNonArrayIImage1DArray,
        ),
        TypeSpecifierNonArray::ISampler2DArray => Code::Unit(
            Variant::TypeSpecifierNonArrayISampler2DArray,
        ),
        TypeSpecifierNonArray::IImage2DArray => Code::Unit(
            Variant::TypeSpecifierNonArrayIImage2DArray,
        ),
        TypeSpecifierNonArray::ISamplerBuffer => Code::Unit(
            Variant::TypeSpecifierNonArrayISamplerBuffer,
        ),
        TypeSpecifierNonArray::IImageBuffer => Code::Unit(
            Variant::TypeSpecifierNonArrayIImageBuffer,
        ),
        TypeSpecifierNonArray::ISampler2DMS => Code::Unit(
            Variant::TypeSpecifierNonArrayISampler2DMS,
        ),
        TypeSpecifierNonArray::IImage2DMS => Code::Unit(Variant::TypeSpecifierNonArrayIImage2DMS),
        TypeSpecifierNonArray::ISampler2DMSArray => Code::Unit(
            Variant::TypeSpecifierNonArrayISampler2DMSArray,
        ),
        TypeSpecifierNonArray::IImage2DMSArray => Code::Unit(
            Variant::TypeSpecifierNonArrayIImage2DMSArray,
        ),
        TypeSpecifierNonArray::ISamplerCubeArray => Code::Unit(
            Variant::TypeSpecifierNonArrayISamplerCubeArray,
        ),
        TypeSpecifierNonArray::IImageCubeArray => Code::Unit(
            Variant::TypeSpecifierNonArrayIImageCubeArray,
        ),
        TypeSpecifierNonArray::AtomicUInt => Code::Unit(Variant::TypeSpecifierNonArrayAtomicUInt),
        TypeSpecifierNonArray::USampler1D => Code::Unit(Variant::TypeSpecifierNonArrayUSampler1D),
        TypeSpecifierNonArray::UImage1D => Code::Unit(Variant::TypeSpecifierNonArrayUImage1D),
        TypeSpecifierNonArray::USampler2D => Code::Unit(Variant::TypeSpecifierNonArrayUSampler2D),
        TypeSpecifierNonArray::UImage2D => Code::Unit(Variant::TypeSpecifierNonArrayUImage2D),
        TypeSpecifierNonArray::USampler3D => Code::Unit(Variant::TypeSpecifierNonArrayUSampler3D),
        TypeSpecifierNonArray::UImage3D => Code::Unit(Variant::TypeSpecifierNonArrayUImage3D),
        TypeSpecifierNonArray::USamplerCube => Code::Unit(
            Variant::TypeSpecifierNonArrayUSamplerCube,
        ),
        TypeSpecifierNonArray::UImageCube => Code::Unit(Variant::TypeSpecifierNonArrayUImageCube),
        TypeSpecifierNonArray::USampler2DRect => Code::Unit(
            Variant::TypeSpecifierNonArrayUSampler2DRect,
        ),
        TypeSpecifierNonArray::UImage2DRect => Code::Unit(
            Variant::TypeSpecifierNonArrayUImage2DRect,
        ),
        TypeSpecifierNonArray::USampler1DArray => Code::Unit(
            Variant::TypeSpecifierNonArrayUSampler1DArray,
        ),
        TypeSpecifierNonArray::UImage1DArray => Code::Unit(
            Variant::TypeSpecifierNonArrayUImage1DArray,
        ),
        TypeSpecifierNonArray::USampler2DArray => Code::Unit(
            Variant::TypeSpecifierNonArrayUSampler2DArray,
        ),
        TypeSpecifierNonArray::UImage2DArray => Code::Unit(
            Variant::TypeSpecifierNonArrayUImage2DArray,
        ),
        TypeSpecifierNonArray::USamplerBuffer => Code::Unit(
            Variant::TypeSpecifierNonArrayUSamplerBuffer,
        ),
        TypeSpecifierNonArray::UImageBuffer => Code::Unit(
            Variant::TypeSpecifierNonArrayUImageBuffer,
        ),
        TypeSpecifierNonArray::USampler2DMS => Code::Unit(
            Variant::TypeSpecifierNonArrayUSampler2DMS,
        ),
        TypeSpecifierNonArray::UImage2DMS => Code::Unit(Variant::TypeSpecifierNonArrayUImage2DMS),
        TypeSpecifierNonArray::USampler2DMSArray => Code::Unit(
            Variant::TypeSpecifierNonArrayUSampler2DMSArray,
        ),
        TypeSpecifierNonArray::UImage2DMSArray => Code::Unit(
            Variant::TypeSpecifierNonArrayUImage2DMSArray,
        ),
        TypeSpecifierNonArray::USamplerCubeArray => Code::Unit(
            Variant::TypeSpecifierNonArrayUSamplerCubeArray,
        ),
        TypeSpecifierNonArray::UImageCubeArray => Code::Unit(
            Variant::TypeSpecifierNonArrayUImageCubeArray,
        ),
        TypeSpecifierNonArray::Struct(s) => {
            let s = tokenize_struct_non_declaration(s);
            Code::call1(Variant::TypeSpecifierNonArrayStruct, s)
        },
        TypeSpecifierNonArray::TypeName(tn) => Code::Name(tn.clone()),
    }
}

/// The constructor expression of a type specifier.
pub open spec fn type_specifier_code(t: SpecTypeSpecifier) -> SpecCode
    decreases t,
{
    SpecCode::Record(
        Record::TypeSpecifier,
        seq![
            (Field::Ty, type_specifier_non_array_code(t.ty)),
            (Field::ArraySpecifier, optional_array_specifier_code(t.array_specifier)),
        ],
    )
}

/// Tokenizes a type specifier.
pub fn tokenize_type_specifier(t: &TypeSpecifier) -> (code: Code)
    ensures
        code@ == type_specifier_code(t@),
    decreases t,
{
    let ty = tokenize_type_specifier_non_array(&t.ty);
    let array_specifier = match &t.array_specifier {
        Some(x) => Some(tokenize_array_spec(x)),
        None => None,
    }.quote();
    assert(array_specifier@ == optional_array_specifier_code(t@.array_specifier));
    Code::record(
        Record::TypeSpecifier,
        fields2(
            Field::Ty,
            ty,
            Field::ArraySpecifier,
            array_specifier,
        ),
    )
}

/// The constructor expression of a struct specifier.
pub open spec fn struct_specifier_code(s: SpecStructSpecifier) -> SpecCode
    decreases s,
{
    SpecCode::Record(
        Record::StructSpecifier,
        seq![
            (Field::Name, optional_owned_code(s.name)),
            (Field::Fields, struct_fields_code(s.fields)),
        ],
    )
}

/// Tokenizes a struct specifier.
pub fn tokenize_struct_non_declaration(s: &StructSpecifier) -> (code: Code)
    ensures
        code@ == struct_specifier_code(s@),
    decreases s,
{
    let name = match &s.name {
        Some(x) => Some(x.as_str().quote()),
        None => None,
    }.quote();
    assert(name@ == optional_owned_code(s@.name));
    let fields = tokenize_struct_fields(&s.fields);
    Code::record(Record::StructSpecifier, fields2(Field::Name, name, Field::Fields, fields))
}

/// The constructor expression of a struct field specifier.
pub open spec fn struct_field_specifier_code(field: SpecStructFieldSpecifier) -> SpecCode
    decreases field,
{
    SpecCode::Record(
        Record::StructFieldSpecifier,
        seq![
            (Field::Qualifier, optional_type_qualifier_code(field.qualifier)),
            (Field::Ty, type_specifier_code(field.ty)),
            (Field::Identifiers, arrayed_identifiers_code(field.identifiers)),
        ],
    )
}

/// Tokenizes a struct field specifier.
pub fn tokenize_struct_field(field: &StructFieldSpecifier) -> (code: Code)
    ensures
        code@ == struct_field_specifier_code(field@),
    decreases field,
{
    let qualifier = match &field.qualifier {
        Some(x) => Some(tokenize_type_qualifier(x)),
        None => None,
    }.quote();
    assert(qualifier@ == optional_type_qualifier_code(field@.qualifier));
    let ty = tokenize_type_specifier(&field.ty);
    let identifiers = tokenize_arrayed_identifiers(&field.identifiers);
    Code::record(
        Record::StructFieldSpecifier,
        fields3(
            Field::Qualifier,
            qualifier,
            Field::Ty,
            ty,
            Field::Identifiers,
            identifiers,
        ),
    )
}

/// The constructor expression of a sequence of field specifiers: a vector of their constructor
/// expressions, as many and in the same order.
pub open spec fn struct_fields_code(s: Seq<SpecStructFieldSpecifier>) -> SpecCode
    decreases s,
{
    SpecCode::List(
        Seq::new(
            s.len(),
            |i: int|
                if 0 <= i < s.len() {
                    struct_field_specifier_code(s[i])
                } else {
                    arbitrary()
                },
        ),
    )
}

/// Tokenizes a sequence of field specifiers, one after the other.
pub fn tokenize_struct_fields(fields: &Vec<StructFieldSpecifier>) -> (code: Code)
    ensures
        code@ == struct_fields_code(struct_fields_view(*fields)),
    decreases fields,
{
    let mut items: Vec<Code> = Vec::new();
    let mut i: usize = 0;
    while i < fields.len()
        invariant
            i <= fields.len(),
            items@.len() == i,
            forall|j: int|
                0 <= j < i ==> (#[trigger] items@[j])@ == struct_field_specifier_code(fields@[j]@),
        decreases fields.len() - i,
    {
        let item = tokenize_struct_field(&fields[i]);
        items.push(item);
        i += 1;
    }
    assert(codes_view(items) =~= struct_fields_code(struct_fields_view(*fields))->List_0);
    Code::List(items)
}

/// The constructor expression of a fully specified type.
pub open spec fn fully_specified_type_code(t: SpecFullySpecifiedType) -> SpecCode {
    SpecCode::Record(
        Record::FullySpecifiedType,
        seq![
            (Field::Qualifier, optional_type_qualifier_code(t.qualifier)),
            (Field::Ty, type_specifier_code(t.ty)),
        ],
    )
}

/// Tokenizes a fully specified type.
pub fn tokenize_fully_specified_type(t: &FullySpecifiedType) -> (code: Code)
    ensures
        code@ == fully_specified_type_code(t@),
{
    let qualifier = match &t.qualifier {
        Some(x) => Some(tokenize_type_qualifier(x)),
        None => None,
    }.quote();
    assert(qualifier@ == optional_type_qualifier_code(t@.qualifier));
    let ty = tokenize_type_specifier(&t.ty);
    Code::record(Record::FullySpecifiedType, fields2(Field::Qualifier, qualifier, Field::Ty, ty))
}

/// The constructor expression of an arrayed identifier: the pair of an owned copy of the
/// identifier and of its array specifier, which may be absent.
pub open spec fn arrayed_identifier_code(i: SpecArrayedIdentifier) -> SpecCode {
    SpecCode::Pair(Box::new(SpecCode::Owned(i.0)), Box::new(optional_array_specifier_code(i.1)))
}

/// Tokenizes an identifier and the array specifier that may follow it.
pub fn tokenize_arrayed_identifier(
    i: &Identifier,
    arr_spec: &Option<ArraySpecifier>,
) -> (code: Code)
    ensures
        code@ == arrayed_identifier_code(arrayed_identifier_view((*i, *arr_spec))),
{
    let array_specifier = match arr_spec {
        Some(x) => Some(tokenize_array_spec(x)),
        None => None,
    }.quote();
    let ghost model = arrayed_identifier_view((*i, *arr_spec));
    assert(array_specifier@ == optional_array_specifier_code(model.1));
    let name = i.as_str().quote();
    assert(name@ == SpecCode::Owned(model.0));
    Code::Pair(Box::new(name), Box::new(array_specifier))
}

/// The constructor expression of an arrayed identifier that may be absent.
pub open spec fn optional_arrayed_identifier_code(o: Option<SpecArrayedIdentifier>) -> SpecCode {
    SpecCode::optional(
        match o {
            Some(x) => Some(arrayed_identifier_code(x)),
            None => None,
        },
    )
}

/// The constructor expression of a sequence of arrayed identifiers: a vector of their constructor
/// expressions, as many and in the same order.
pub open spec fn arrayed_identifiers_code(s: Seq<SpecArrayedIdentifier>) -> SpecCode {
    SpecCode::List(
        Seq::new(
            s.len(),
            |i: int|
                if 0 <= i < s.len() {
                    arrayed_identifier_code(s[i])
                } else {
                    arbitrary()
                },
        ),
    )
}

/// Tokenizes a sequence of arrayed identifiers, one after the other.
pub fn tokenize_arrayed_identifiers(identifiers: &Vec<ArrayedIdentifier>) -> (code: Code)
    ensures
        code@ == arrayed_identifiers_code(arrayed_identifiers_view(*identifiers)),
{
    let mut items: Vec<Code> = Vec::new();
    let mut i: usize = 0;
    while i < identifiers.len()
        invariant
            i <= identifiers.len(),
            items@.len() == i,
            forall|j: int|
                0 <= j < i ==>
                    (#[trigger] items@[j])@
                        == arrayed_identifier_code(arrayed_identifier_view(identifiers@[j])),
        decreases identifiers.len() - i,
    {
        let item = tokenize_arrayed_identifier(&identifiers[i].0, &identifiers[i].1);
        items.push(item);
        i += 1;
    }
    assert(codes_view(items)
        =~= arrayed_identifiers_code(arrayed_identifiers_view(*identifiers))->List_0);
    Code::List(items)
}

} // verus!
