// Type specifiers, struct specifiers and arrayed identifiers, case by case.

use glsl_quasiquote::code::Code;
use glsl_quasiquote::syntax::{
    ArraySpecifier, FullySpecifiedType, StructFieldSpecifier, StructSpecifier, TypeQualifier,
    TypeSpecifier, TypeSpecifierNonArray,
};
use glsl_quasiquote::tokenizer::types::{
    tokenize_arrayed_identifier, tokenize_arrayed_identifiers, tokenize_fully_specified_type,
    tokenize_struct_field, tokenize_struct_fields, tokenize_struct_non_declaration,
    tokenize_type_specifier, tokenize_type_specifier_non_array,
};

/// The text of a token stream, for comparison.
fn spelled(source: &str) -> String {
    let stream: proc_macro2::TokenStream = source.parse().unwrap();
    stream.to_string()
}

/// The text of the tokens of a constructor expression.
fn spelled_code(code: &Code) -> String {
    code.to_token_stream().to_string()
}

#[test]
fn type_specifier_non_array_cases() {
    assert_eq!(
        spelled_code(&tokenize_type_specifier_non_array(
            &TypeSpecifierNonArray::Void,
        )),
        spelled(
            "glsl::syntax::TypeSpecifierNonArray::Void",
        )
    );
    assert_eq!(
        spelled_code(&tokenize_type_specifier_non_array(
            &TypeSpecifierNonArray::Bool,
        )),
        spelled(
            "glsl::syntax::TypeSpecifierNonArray::Bool",
        )
    );
    assert_eq!(
        spelled_code(&tokenize_type_specifier_non_array(
            &TypeSpecifierNonArray::Int,
        )),
        spelled(
            "glsl::syntax::TypeSpecifierNonArray::Int",
        )
    );
    assert_eq!(
        spelled_code(&tokenize_type_specifier_non_array(
            &TypeSpecifierNonArray::UInt,
        )),
        spelled(
            "glsl::syntax::TypeSpecifierNonArray::UInt",
        )
    );
    assert_eq!(
        spelled_code(&tokenize_type_specifier_non_array(
            &TypeSpecifierNonArray::Float,
        )),
        spelled(
            "glsl::syntax::TypeSpecifierNonArray::Float",
        )
    );
    assert_eq!(
        spelled_code(&tokenize_type_specifier_non_array(
            &TypeSpecifierNonArray::Double,
        )),
        spelled(
            "glsl::syntax::TypeSpecifierNonArray::Double",
        )
    );
    assert_eq!(
        spelled_code(&tokenize_type_specifier_non_array(
            &TypeSpecifierNonArray::Vec2,
        )),
        spelled(
            "glsl::syntax::TypeSpecifierNonArray::Vec2",
        )
    );
    assert_eq!(
        spelled_code(&tokenize_type_specifier_non_array(
            &TypeSpecifierNonArray::Vec3,
        )),
        spelled(
            "glsl::syntax::TypeSpecifierNonArray::Vec3",
        )
    );
    assert_eq!(
        spelled_code(&tokenize_type_specifier_non_array(
            &TypeSpecifierNonArray::Vec4,
        )),
        spelled(
            "glsl::syntax::TypeSpecifierNonArray::Vec4",
        )
    );
    assert_eq!(
        spelled_code(&tokenize_type_specifier_non_array(
            &TypeSpecifierNonArray::DVec2,
        )),
        spelled(
            "glsl::syntax::TypeSpecifierNonArray::DVec2",
        )
    );
    assert_eq!(
        spelled_code(&tokenize_type_specifier_non_array(
            &TypeSpecifierNonArray::DVec3,
        )),
        spelled(
            "glsl::syntax::TypeSpecifierNonArray::DVec3",
        )
    );
    assert_eq!(
        spelled_code(&tokenize_type_specifier_non_array(
            &TypeSpecifierNonArray::DVec4,
        )),
        spelled(
            "glsl::syntax::TypeSpecifierNonArray::DVec4",
        )
    );
    assert_eq!(
        spelled_code(&tokenize_type_specifier_non_array(
            &TypeSpecifierNonArray::BVec2,
        )),
        spelled(
            "glsl::syntax::TypeSpecifierNonArray::BVec2",
        )
    );
    assert_eq!(
        spelled_code(&tokenize_type_specifier_non_array(
            &TypeSpecifierNonArray::BVec3,
        )),
        spelled(
            "glsl::syntax::TypeSpecifierNonArray::BVec3",
        )
    );
    assert_eq!(
        spelled_code(&tokenize_type_specifier_non_array(
            &TypeSpecifierNonArray::BVec4,
        )),
        spelled(
            "glsl::syntax::TypeSpecifierNonArray::BVec4",
        )
    );
    assert_eq!(
        spelled_code(&tokenize_type_specifier_non_array(
            &TypeSpecifierNonArray::IVec2,
        )),
        spelled(
            "glsl::syntax::TypeSpecifierNonArray::IVec2",
        )
    );
    assert_eq!(
        spelled_code(&tokenize_type_specifier_non_array(
            &TypeSpecifierNonArray::IVec3,
        )),
        spelled(
            "glsl::syntax::TypeSpecifierNonArray::IVec3",
        )
    );
    assert_eq!(
        spelled_code(&tokenize_type_specifier_non_array(
            &TypeSpecifierNonArray::IVec4,
        )),
        spelled(
            "glsl::syntax::TypeSpecifierNonArray::IVec4",
        )
    );
    assert_eq!(
        spelled_code(&tokenize_type_specifier_non_array(
            &TypeSpecifierNonArray::UVec2,
        )),
        spelled(
            "glsl::syntax::TypeSpecifierNonArray::UVec2",
        )
    );
    assert_eq!(
        spelled_code(&tokenize_type_specifier_non_array(
            &TypeSpecifierNonArray::UVec3,
        )),
        spelled(
            "glsl::syntax::TypeSpecifierNonArray::UVec3",
        )
    );
    assert_eq!(
        spelled_code(&tokenize_type_specifier_non_array(
            &TypeSpecifierNonArray::UVec4,
        )),
        spelled(
            "glsl::syntax::TypeSpecifierNonArray::UVec4",
        )
    );
    assert_eq!(
        spelled_code(&tokenize_type_specifier_non_array(
            &TypeSpecifierNonArray::Mat2,
        )),
        spelled(
            "glsl::syntax::TypeSpecifierNonArray::Mat2",
        )
    );
    assert_eq!(
        spelled_code(&tokenize_type_specifier_non_array(
            &TypeSpecifierNonArray::Mat3,
        )),
        spelled(
            "glsl::syntax::TypeSpecifierNonArray::Mat3",
        )
    );
    assert_eq!(
        spelled_code(&tokenize_type_specifier_non_array(
            &TypeSpecifierNonArray::Mat4,
        )),
        spelled(
            "glsl::syntax::TypeSpecifierNonArray::Mat4",
        )
    );
    assert_eq!(
        spelled_code(&tokenize_type_specifier_non_array(
            &TypeSpecifierNonArray::Mat23,
        )),
        spelled(
            "glsl::syntax::TypeSpecifierNonArray::Mat23",
        )
    );
    assert_eq!(
        spelled_code(&tokenize_type_specifier_non_array(
            &TypeSpecifierNonArray::Mat24,
        )),
        spelled(
            "glsl::syntax::TypeSpecifierNonArray::Mat24",
        )
    );
    assert_eq!(
        spelled_code(&tokenize_type_specifier_non_array(
            &TypeSpecifierNonArray::Mat32,
        )),
        spelled(
            "glsl::syntax::TypeSpecifierNonArray::Mat32",
        )
    );
    assert_eq!(
        spelled_code(&tokenize_type_specifier_non_array(
            &TypeSpecifierNonArray::Mat34,
        )),
        spelled(
            "glsl::syntax::TypeSpecifierNonArray::Mat34",
        )
    );
    assert_eq!(
        spelled_code(&tokenize_type_specifier_non_array(
            &TypeSpecifierNonArray::Mat42,
        )),
        spelled(
            "glsl::syntax::TypeSpecifierNonArray::Mat42",
        )
    );
    assert_eq!(
        spelled_code(&tokenize_type_specifier_non_array(
            &TypeSpecifierNonArray::Mat43,
        )),
        spelled(
            "glsl::syntax::TypeSpecifierNonArray::Mat43",
        )
    );
    assert_eq!(
        spelled_code(&tokenize_type_specifier_non_array(
            &TypeSpecifierNonArray::DMat2,
        )),
        spelled(
            "glsl::syntax::TypeSpecifierNonArray::DMat2",
        )
    );
    assert_eq!(
        spelled_code(&tokenize_type_specifier_non_array(
            &TypeSpecifierNonArray::DMat3,
        )),
        spelled(
            "glsl::syntax::TypeSpecifierNonArray::DMat3",
        )
    );
    assert_eq!(
        spelled_code(&tokenize_type_specifier_non_array(
            &TypeSpecifierNonArray::DMat4,
        )),
        spelled(
            "glsl::syntax::TypeSpecifierNonArray::DMat4",
        )
    );
    assert_eq!(
        spelled_code(&tokenize_type_specifier_non_array(
            &TypeSpecifierNonArray::DMat23,
        )),
        spelled(
            "glsl::syntax::TypeSpecifierNonArray::DMat23",
        )
    );
    assert_eq!(
        spelled_code(&tokenize_type_specifier_non_array(
            &TypeSpecifierNonArray::DMat24,
        )),
        spelled(
            "glsl::syntax::TypeSpecifierNonArray::DMat24",
        )
    );
    assert_eq!(
        spelled_code(&tokenize_type_specifier_non_array(
            &TypeSpecifierNonArray::DMat32,
        )),
        spelled(
            "glsl::syntax::TypeSpecifierNonArray::DMat32",
        )
    );
    assert_eq!(
        spelled_code(&tokenize_type_specifier_non_array(
            &TypeSpecifierNonArray::DMat34,
        )),
        spelled(
            "glsl::syntax::TypeSpecifierNonArray::DMat34",
        )
    );
    assert_eq!(
        spelled_code(&tokenize_type_specifier_non_array(
            &TypeSpecifierNonArray::DMat42,
        )),
        spelled(
            "glsl::syntax::TypeSpecifierNonArray::DMat42",
        )
    );
    assert_eq!(
        spelled_code(&tokenize_type_specifier_non_array(
            &TypeSpecifierNonArray::DMat43,
        )),
        spelled(
            "glsl::syntax::TypeSpecifierNonArray::DMat43",
        )
    );
    assert_eq!(
        spelled_code(&tokenize_type_specifier_non_array(
            &TypeSpecifierNonArray::Sampler1D,
        )),
        spelled(
            "glsl::syntax::TypeSpecifierNonArray::Sampler1D",
        )
    );
    assert_eq!(
        spelled_code(&tokenize_type_specifier_non_array(
            &TypeSpecifierNonArray::Image1D,
        )),
        spelled(
            "glsl::syntax::TypeSpecifierNonArray::Image1D",
        )
    );
    assert_eq!(
        spelled_code(&tokenize_type_specifier_non_array(
            &TypeSpecifierNonArray::Sampler2D,
        )),
        spelled(
            "glsl::syntax::TypeSpecifierNonArray::Sampler2D",
        )
    );
    assert_eq!(
        spelled_code(&tokenize_type_specifier_non_array(
            &TypeSpecifierNonArray::Image2D,
        )),
        spelled(
            "glsl::syntax::TypeSpecifierNonArray::Image2D",
        )
    );
    assert_eq!(
        spelled_code(&tokenize_type_specifier_non_array(
            &TypeSpecifierNonArray::Sampler3D,
        )),
        spelled(
            "glsl::syntax::TypeSpecifierNonArray::Sampler3D",
        )
    );
    assert_eq!(
        spelled_code(&tokenize_type_specifier_non_array(
            &TypeSpecifierNonArray::Image3D,
        )),
        spelled(
            "glsl::syntax::TypeSpecifierNonArray::Image3D",
        )
    );
    assert_eq!(
        spelled_code(&tokenize_type_specifier_non_array(
            &TypeSpecifierNonArray::SamplerCube,
        )),
        spelled(
            "glsl::syntax::TypeSpecifierNonArray::SamplerCube",
        )
    );
    assert_eq!(
        spelled_code(&tokenize_type_specifier_non_array(
            &TypeSpecifierNonArray::ImageCube,
        )),
        spelled(
            "glsl::syntax::TypeSpecifierNonArray::ImageCube",
        )
    );
    assert_eq!(
        spelled_code(&tokenize_type_specifier_non_array(
            &TypeSpecifierNonArray::Sampler2DRect,
        )),
        spelled(
            "glsl::syntax::TypeSpecifierNonArray::Sampler2DRect",
        )
    );
    assert_eq!(
        spelled_code(&tokenize_type_specifier_non_array(
            &TypeSpecifierNonArray::Image2DRect,
        )),
        spelled(
            "glsl::syntax::TypeSpecifierNonArray::Image2DRect",
        )
    );
    assert_eq!(
        spelled_code(&tokenize_type_specifier_non_array(
            &TypeSpecifierNonArray::Sampler1DArray,
        )),
        spelled(
            "glsl::syntax::TypeSpecifierNonArray::Sampler1DArray",
        )
    );
    assert_eq!(
        spelled_code(&tokenize_type_specifier_non_array(
            &TypeSpecifierNonArray::Image1DArray,
        )),
        spelled(
            "glsl::syntax::TypeSpecifierNonArray::Image1DArray",
        )
    );
    assert_eq!(
        spelled_code(&tokenize_type_specifier_non_array(
            &TypeSpecifierNonArray::Sampler2DArray,
        )),
        spelled(
            "glsl::syntax::TypeSpecifierNonArray::Sampler2DArray",
        )
    );
    assert_eq!(
        spelled_code(&tokenize_type_specifier_non_array(
            &TypeSpecifierNonArray::Image2DArray,
        )),
        spelled(
            "glsl::syntax::TypeSpecifierNonArray::Image2DArray",
        )
    );
    assert_eq!(
        spelled_code(&tokenize_type_specifier_non_array(
            &TypeSpecifierNonArray::SamplerBuffer,
        )),
        spelled(
            "glsl::syntax::TypeSpecifierNonArray::SamplerBuffer",
        )
    );
    assert_eq!(
        spelled_code(&tokenize_type_specifier_non_array(
            &TypeSpecifierNonArray::ImageBuffer,
        )),
        spelled(
            "glsl::syntax::TypeSpecifierNonArray::ImageBuffer",
        )
    );
    assert_eq!(
        spelled_code(&tokenize_type_specifier_non_array(
            &TypeSpecifierNonArray::Sampler2DMS,
        )),
        spelled(
            "glsl::syntax::TypeSpecifierNonArray::Sampler2DMS",
        )
    );
    assert_eq!(
        spelled_code(&tokenize_type_specifier_non_array(
            &TypeSpecifierNonArray::Image2DMS,
        )),
        spelled(
            "glsl::syntax::TypeSpecifierNonArray::Image2DMS",
        )
    );
    assert_eq!(
        spelled_code(&tokenize_type_specifier_non_array(
            &TypeSpecifierNonArray::Sampler2DMSArray,
        )),
        spelled(
            "glsl::syntax::TypeSpecifierNonArray::Sampler2DMSArray",
        )
    );
    assert_eq!(
        spelled_code(&tokenize_type_specifier_non_array(
            &TypeSpecifierNonArray::Image2DMSArray,
        )),
        spelled(
            "glsl::syntax::TypeSpecifierNonArray::Image2DMSArray",
        )
    );
    assert_eq!(
        spelled_code(&tokenize_type_specifier_non_array(
            &TypeSpecifierNonArray::SamplerCubeArray,
        )),
        spelled(
            "glsl::syntax::TypeSpecifierNonArray::SamplerCubeArray",
        )
    );
    assert_eq!(
        spelled_code(&tokenize_type_specifier_non_array(
            &TypeSpecifierNonArray::ImageCubeArray,
        )),
        spelled(
            "glsl::syntax::TypeSpecifierNonArray::ImageCubeArray",
        )
    );
    assert_eq!(
        spelled_code(&tokenize_type_specifier_non_array(
            &TypeSpecifierNonArray::Sampler1DShadow,
        )),
        spelled(
            "glsl::syntax::TypeSpecifierNonArray::Sampler1DShadow",
        )
    );
    assert_eq!(
        spelled_code(&tokenize_type_specifier_non_array(
            &TypeSpecifierNonArray::Sampler2DShadow,
        )),
        spelled(
            "glsl::syntax::TypeSpecifierNonArray::Sampler2DShadow",
        )
    );
    assert_eq!(
        spelled_code(&tokenize_type_specifier_non_array(
            &TypeSpecifierNonArray::Sampler2DRectShadow,
        )),
        spelled(
            "glsl::syntax::TypeSpecifierNonArray::Sampler2DRectShadow",
        )
    );
    assert_eq!(
        spelled_code(&tokenize_type_specifier_non_array(
            &TypeSpecifierNonArray::Sampler1DArrayShadow,
        )),
        spelled(
            "glsl::syntax::TypeSpecifierNonArray::Sampler1DArrayShadow",
        )
    );
    assert_eq!(
        spelled_code(&tokenize_type_specifier_non_array(
            &TypeSpecifierNonArray::Sampler2DArrayShadow,
        )),
        spelled(
            "glsl::syntax::TypeSpecifierNonArray::Sampler2DArrayShadow",
        )
    );
    assert_eq!(
        spelled_code(&tokenize_type_specifier_non_array(
            &TypeSpecifierNonArray::SamplerCubeShadow,
        )),
        spelled(
            "glsl::syntax::TypeSpecifierNonArray::SamplerCubeShadow",
        )
    );
    assert_eq!(
        spelled_code(&tokenize_type_specifier_non_array(
            &TypeSpecifierNonArray::SamplerCubeArrayShadow,
        )),
        spelled(
            "glsl::syntax::TypeSpecifierNonArray::SamplerCubeArrayShadow",
        )
    );
    assert_eq!(
        spelled_code(&tokenize_type_specifier_non_array(
            &TypeSpecifierNonArray::ISampler1D,
        )),
        spelled(
            "glsl::syntax::TypeSpecifierNonArray::ISampler1D",
        )
    );
    assert_eq!(
        spelled_code(&tokenize_type_specifier_non_array(
            &TypeSpecifierNonArray::IImage1D,
        )),
        spelled(
            "glsl::syntax::TypeSpecifierNonArray::IImage1D",
        )
    );
    assert_eq!(
        spelled_code(&tokenize_type_specifier_non_array(
            &TypeSpecifierNonArray::ISampler2D,
        )),
        spelled(
            "glsl::syntax::TypeSpecifierNonArray::ISampler2D",
        )
    );
    assert_eq!(
        spelled_code(&tokenize_type_specifier_non_array(
            &TypeSpecifierNonArray::IImage2D,
        )),
        spelled(
            "glsl::syntax::TypeSpecifierNonArray::IImage2D",
        )
    );
    assert_eq!(
        spelled_code(&tokenize_type_specifier_non_array(
            &TypeSpecifierNonArray::ISampler3D,
        )),
        spelled(
            "glsl::syntax::TypeSpecifierNonArray::ISampler3D",
        )
    );
    assert_eq!(
        spelled_code(&tokenize_type_specifier_non_array(
            &TypeSpecifierNonArray::IImage3D,
        )),
        spelled(
            "glsl::syntax::TypeSpecifierNonArray::IImage3D",
        )
    );
    assert_eq!(
        spelled_code(&tokenize_type_specifier_non_array(
            &TypeSpecifierNonArray::ISamplerCube,
        )),
        spelled(
            "glsl::syntax::TypeSpecifierNonArray::ISamplerCube",
        )
    );
    assert_eq!(
        spelled_code(&tokenize_type_specifier_non_array(
            &TypeSpecifierNonArray::IImageCube,
        )),
        spelled(
            "glsl::syntax::TypeSpecifierNonArray::IImageCube",
        )
    );
    assert_eq!(
        spelled_code(&tokenize_type_specifier_non_array(
            &TypeSpecifierNonArray::ISampler2DRect,
        )),
        spelled(
            "glsl::syntax::TypeSpecifierNonArray::ISampler2DRect",
        )
    );
    assert_eq!(
        spelled_code(&tokenize_type_specifier_non_array(
            &TypeSpecifierNonArray::IImage2DRect,
        )),
        spelled(
            "glsl::syntax::TypeSpecifierNonArray::IImage2DRect",
        )
    );
    assert_eq!(
        spelled_code(&tokenize_type_specifier_non_array(
            &TypeSpecifierNonArray::ISampler1DArray,
        )),
        spelled(
            "glsl::syntax::TypeSpecifierNonArray::ISampler1DArray",
        )
    );
    assert_eq!(
        spelled_code(&tokenize_type_specifier_non_array(
            &TypeSpecifierNonArray::IImage1DArray,
        )),
        spelled(
            "glsl::syntax::TypeSpecifierNonArray::IImage1DArray",
        )
    );
    assert_eq!(
        spelled_code(&tokenize_type_specifier_non_array(
            &TypeSpecifierNonArray::ISampler2DArray,
        )),
        spelled(
            "glsl::syntax::TypeSpecifierNonArray::ISampler2DArray",
        )
    );
    assert_eq!(
        spelled_code(&tokenize_type_specifier_non_array(
            &TypeSpecifierNonArray::IImage2DArray,
        )),
        spelled(
            "glsl::syntax::TypeSpecifierNonArray::IImage2DArray",
        )
    );
    assert_eq!(
        spelled_code(&tokenize_type_specifier_non_array(
            &TypeSpecifierNonArray::ISamplerBuffer,
        )),
        spelled(
            "glsl::syntax::TypeSpecifierNonArray::ISamplerBuffer",
        )
    );
    assert_eq!(
        spelled_code(&tokenize_type_specifier_non_array(
            &TypeSpecifierNonArray::IImageBuffer,
        )),
        spelled(
            "glsl::syntax::TypeSpecifierNonArray::IImageBuffer",
        )
    );
    assert_eq!(
        spelled_code(&tokenize_type_specifier_non_array(
            &TypeSpecifierNonArray::ISampler2DMS,
        )),
        spelled(
            "glsl::syntax::TypeSpecifierNonArray::ISampler2DMS",
        )
    );
    assert_eq!(
        spelled_code(&tokenize_type_specifier_non_array(
            &TypeSpecifierNonArray::IImage2DMS,
        )),
        spelled(
            "glsl::syntax::TypeSpecifierNonArray::IImage2DMS",
        )
    );
    assert_eq!(
        spelled_code(&tokenize_type_specifier_non_array(
            &TypeSpecifierNonArray::ISampler2DMSArray,
        )),
        spelled(
            "glsl::syntax::TypeSpecifierNonArray::ISampler2DMSArray",
        )
    );
    assert_eq!(
        spelled_code(&tokenize_type_specifier_non_array(
            &TypeSpecifierNonArray::IImage2DMSArray,
        )),
        spelled(
            "glsl::syntax::TypeSpecifierNonArray::IImage2DMSArray",
        )
    );
    assert_eq!(
        spelled_code(&tokenize_type_specifier_non_array(
            &TypeSpecifierNonArray::ISamplerCubeArray,
        )),
        spelled(
            "glsl::syntax::TypeSpecifierNonArray::ISamplerCubeArray",
        )
    );
    assert_eq!(
        spelled_code(&tokenize_type_specifier_non_array(
            &TypeSpecifierNonArray::IImageCubeArray,
        )),
        spelled(
            "glsl::syntax::TypeSpecifierNonArray::IImageCubeArray",
        )
    );
    assert_eq!(
        spelled_code(&tokenize_type_specifier_non_array(
            &TypeSpecifierNonArray::AtomicUInt,
        )),
        spelled(
            "glsl::syntax::TypeSpecifierNonArray::AtomicUInt",
        )
    );
    assert_eq!(
        spelled_code(&tokenize_type_specifier_non_array(
            &TypeSpecifierNonArray::USampler1D,
        )),
        spelled(
            "glsl::syntax::TypeSpecifierNonArray::USampler1D",
        )
    );
    assert_eq!(
        spelled_code(&tokenize_type_specifier_non_array(
            &TypeSpecifierNonArray::UImage1D,
        )),
        spelled(
            "glsl::syntax::TypeSpecifierNonArray::UImage1D",
        )
    );
    assert_eq!(
        spelled_code(&tokenize_type_specifier_non_array(
            &TypeSpecifierNonArray::USampler2D,
        )),
        spelled(
            "glsl::syntax::TypeSpecifierNonArray::USampler2D",
        )
    );
    assert_eq!(
        spelled_code(&tokenize_type_specifier_non_array(
            &TypeSpecifierNonArray::UImage2D,
        )),
        spelled(
            "glsl::syntax::TypeSpecifierNonArray::UImage2D",
        )
    );
    assert_eq!(
        spelled_code(&tokenize_type_specifier_non_array(
            &TypeSpecifierNonArray::USampler3D,
        )),
        spelled(
            "glsl::syntax::TypeSpecifierNonArray::USampler3D",
        )
    );
    assert_eq!(
        spelled_code(&tokenize_type_specifier_non_array(
            &TypeSpecifierNonArray::UImage3D,
        )),
        spelled(
            "glsl::syntax::TypeSpecifierNonArray::UImage3D",
        )
    );
    assert_eq!(
        spelled_code(&tokenize_type_specifier_non_array(
            &TypeSpecifierNonArray::USamplerCube,
        )),
        spelled(
            "glsl::syntax::TypeSpecifierNonArray::USamplerCube",
        )
    );
    assert_eq!(
        spelled_code(&tokenize_type_specifier_non_array(
            &TypeSpecifierNonArray::UImageCube,
        )),
        spelled(
            "glsl::syntax::TypeSpecifierNonArray::UImageCube",
        )
    );
    assert_eq!(
        spelled_code(&tokenize_type_specifier_non_array(
            &TypeSpecifierNonArray::USampler2DRect,
        )),
        spelled(
            "glsl::syntax::TypeSpecifierNonArray::USampler2DRect",
        )
    );
    assert_eq!(
        spelled_code(&tokenize_type_specifier_non_array(
            &TypeSpecifierNonArray::UImage2DRect,
        )),
        spelled(
            "glsl::syntax::TypeSpecifierNonArray::UImage2DRect",
        )
    );
    assert_eq!(
        spelled_code(&tokenize_type_specifier_non_array(
            &TypeSpecifierNonArray::USampler1DArray,
        )),
        spelled(
            "glsl::syntax::TypeSpecifierNonArray::USampler1DArray",
        )
    );
    assert_eq!(
        spelled_code(&tokenize_type_specifier_non_array(
            &TypeSpecifierNonArray::UImage1DArray,
        )),
        spelled(
            "glsl::syntax::TypeSpecifierNonArray::UImage1DArray",
        )
    );
    assert_eq!(
        spelled_code(&tokenize_type_specifier_non_array(
            &TypeSpecifierNonArray::USampler2DArray,
        )),
        spelled(
            "glsl::syntax::TypeSpecifierNonArray::USampler2DArray",
        )
    );
    assert_eq!(
        spelled_code(&tokenize_type_specifier_non_array(
            &TypeSpecifierNonArray::UImage2DArray,
        )),
        spelled(
            "glsl::syntax::TypeSpecifierNonArray::UImage2DArray",
        )
    );
    assert_eq!(
        spelled_code(&tokenize_type_specifier_non_array(
            &TypeSpecifierNonArray::USamplerBuffer,
        )),
        spelled(
            "glsl::syntax::TypeSpecifierNonArray::USamplerBuffer",
        )
    );
    assert_eq!(
        spelled_code(&tokenize_type_specifier_non_array(
            &TypeSpecifierNonArray::UImageBuffer,
        )),
        spelled(
            "glsl::syntax::TypeSpecifierNonArray::UImageBuffer",
        )
    );
    assert_eq!(
        spelled_code(&tokenize_type_specifier_non_array(
            &TypeSpecifierNonArray::USampler2DMS,
        )),
        spelled(
            "glsl::syntax::TypeSpecifierNonArray::USampler2DMS",
        )
    );
    assert_eq!(
        spelled_code(&tokenize_type_specifier_non_array(
            &TypeSpecifierNonArray::UImage2DMS,
        )),
        spelled(
            "glsl::syntax::TypeSpecifierNonArray::UImage2DMS",
        )
    );
    assert_eq!(
        spelled_code(&tokenize_type_specifier_non_array(
            &TypeSpecifierNonArray::USampler2DMSArray,
        )),
        spelled(
            "glsl::syntax::TypeSpecifierNonArray::USampler2DMSArray",
        )
    );
    assert_eq!(
        spelled_code(&tokenize_type_specifier_non_array(
            &TypeSpecifierNonArray::UImage2DMSArray,
        )),
        spelled(
            "glsl::syntax::TypeSpecifierNonArray::UImage2DMSArray",
        )
    );
    assert_eq!(
        spelled_code(&tokenize_type_specifier_non_array(
            &TypeSpecifierNonArray::USamplerCubeArray,
        )),
        spelled(
            "glsl::syntax::TypeSpecifierNonArray::USamplerCubeArray",
        )
    );
    assert_eq!(
        spelled_code(&tokenize_type_specifier_non_array(
            &TypeSpecifierNonArray::UImageCubeArray,
        )),
        spelled(
            "glsl::syntax::TypeSpecifierNonArray::UImageCubeArray",
        )
    );
    assert_eq!(
        spelled_code(&tokenize_type_specifier_non_array(
            &TypeSpecifierNonArray::Struct(StructSpecifier { name: None, fields: vec![] }),
        )),
        spelled(
            "glsl::syntax::TypeSpecifierNonArray::Struct(glsl::syntax::StructSpecifier { name: \
             None, fields: vec![] })",
        )
    );
    assert_eq!(
        spelled_code(&tokenize_type_specifier_non_array(
            &TypeSpecifierNonArray::TypeName("n1".to_string()),
        )),
        spelled(
            "n1",
        )
    );
}

#[test]
fn type_specifier_cases() {
    assert_eq!(
        spelled_code(&tokenize_type_specifier(
            &TypeSpecifier { ty: TypeSpecifierNonArray::Float, array_specifier: None },
        )),
        spelled(
            "glsl::syntax::TypeSpecifier { ty: glsl::syntax::TypeSpecifierNonArray::Float, \
             array_specifier: None }",
        )
    );
    assert_eq!(
        spelled_code(&tokenize_type_specifier(
            &TypeSpecifier {
                ty: TypeSpecifierNonArray::Float,
                array_specifier: Some(ArraySpecifier::Unsized),
            },
        )),
        spelled(
            "glsl::syntax::TypeSpecifier { ty: glsl::syntax::TypeSpecifierNonArray::Float, \
             array_specifier: Some(glsl::syntax::ArraySpecifier::Unsized) }",
        )
    );
}

#[test]
fn struct_non_declaration_cases() {
    assert_eq!(
        spelled_code(&tokenize_struct_non_declaration(
            &StructSpecifier { name: None, fields: vec![] },
        )),
        spelled(
            "glsl::syntax::StructSpecifier { name: None, fields: vec![] }",
        )
    );
    assert_eq!(
        spelled_code(&tokenize_struct_non_declaration(
            &StructSpecifier {
                name: Some("n1".to_string()),
                fields: vec![
                    StructFieldSpecifier {
                        qualifier: None,
                        ty: TypeSpecifier {
                            ty: TypeSpecifierNonArray::Float,
                            array_specifier: None,
                        },
                        identifiers: vec![],
                    },
                    StructFieldSpecifier {
                        qualifier: None,
                        ty: TypeSpecifier {
                            ty: TypeSpecifierNonArray::Float,
                            array_specifier: None,
                        },
                        identifiers: vec![],
                    },
                ],
            },
        )),
        spelled(
            "glsl::syntax::StructSpecifier { name: Some(String::from(\"n1\")), fields: \
             vec![glsl::syntax::StructFieldSpecifier { qualifier: None, ty: \
             glsl::syntax::TypeSpecifier { ty: glsl::syntax::TypeSpecifierNonArray::Float, \
             array_specifier: None }, identifiers: vec![] }, \
             glsl::syntax::StructFieldSpecifier { qualifier: None, ty: \
             glsl::syntax::TypeSpecifier { ty: glsl::syntax::TypeSpecifierNonArray::Float, \
             array_specifier: None }, identifiers: vec![] }] }",
        )
    );
}

#[test]
fn struct_field_cases() {
    assert_eq!(
        spelled_code(&tokenize_struct_field(
            &StructFieldSpecifier {
                qualifier: None,
                ty: TypeSpecifier { ty: TypeSpecifierNonArray::Float, array_specifier: None },
                identifiers: vec![],
            },
        )),
        spelled(
            "glsl::syntax::StructFieldSpecifier { qualifier: None, ty: \
             glsl::syntax::TypeSpecifier { ty: glsl::syntax::TypeSpecifierNonArray::Float, \
             array_specifier: None }, identifiers: vec![] }",
        )
    );
    assert_eq!(
        spelled_code(&tokenize_struct_field(
            &StructFieldSpecifier {
                qualifier: Some(TypeQualifier { qualifiers: vec![] }),
                ty: TypeSpecifier { ty: TypeSpecifierNonArray::Float, array_specifier: None },
                identifiers: vec![("n1".to_string(), None), ("n2".to_string(), None)],
            },
        )),
        spelled(
            "glsl::syntax::StructFieldSpecifier { qualifier: Some(glsl::syntax::TypeQualifier \
             { qualifiers: vec![] }), ty: glsl::syntax::TypeSpecifier { ty: \
             glsl::syntax::TypeSpecifierNonArray::Float, array_specifier: None }, identifiers: \
             vec![(String::from(\"n1\"), None), (String::from(\"n2\"), None)] }",
        )
    );
}

#[test]
fn fully_specified_type_cases() {
    assert_eq!(
        spelled_code(&tokenize_fully_specified_type(
            &FullySpecifiedType {
                qualifier: None,
                ty: TypeSpecifier { ty: TypeSpecifierNonArray::Float, array_specifier: None },
            },
        )),
        spelled(
            "glsl::syntax::FullySpecifiedType { qualifier: None, ty: \
             glsl::syntax::TypeSpecifier { ty: glsl::syntax::TypeSpecifierNonArray::Float, \
             array_specifier: None } }",
        )
    );
    assert_eq!(
        spelled_code(&tokenize_fully_specified_type(
            &FullySpecifiedType {
                qualifier: Some(TypeQualifier { qualifiers: vec![] }),
                ty: TypeSpecifier { ty: TypeSpecifierNonArray::Float, array_specifier: None },
            },
        )),
        spelled(
            "glsl::syntax::FullySpecifiedType { qualifier: Some(glsl::syntax::TypeQualifier { \
             qualifiers: vec![] }), ty: glsl::syntax::TypeSpecifier { ty: \
             glsl::syntax::TypeSpecifierNonArray::Float, array_specifier: None } }",
        )
    );
}

#[test]
fn arrayed_identifiers_keep_their_order() {
    assert_eq!(spelled_code(&tokenize_arrayed_identifiers(&Vec::new())), spelled("vec![]"));
    assert_eq!(
        spelled_code(&tokenize_arrayed_identifiers(
            &vec![("n1".to_string(), None)],
        )),
        spelled(
            "vec![(String::from(\"n1\"), None)]",
        )
    );
    assert_eq!(
        spelled_code(&tokenize_arrayed_identifiers(
            &vec![("n1".to_string(), None), ("n2".to_string(), None), ("n3".to_string(), None)],
        )),
        spelled(
            "vec![(String::from(\"n1\"), None), (String::from(\"n2\"), None), (String::from(\
             \"n3\"), None)]",
        )
    );
    assert_eq!(
        spelled_code(&tokenize_arrayed_identifiers(
            &vec![("n2".to_string(), None), ("n1".to_string(), None)],
        )),
        spelled(
            "vec![(String::from(\"n2\"), None), (String::from(\"n1\"), None)]",
        )
    );
}

#[test]
fn struct_fields_keep_their_order() {
    assert_eq!(spelled_code(&tokenize_struct_fields(&Vec::new())), spelled("vec![]"));
    assert_eq!(
        spelled_code(&tokenize_struct_fields(
            &vec![
                StructFieldSpecifier {
                    qualifier: None,
                    ty: TypeSpecifier { ty: TypeSpecifierNonArray::Float, array_specifier: None },
                    identifiers: vec![],
                },
            ],
        )),
        spelled(
            "vec![glsl::syntax::StructFieldSpecifier { qualifier: None, ty: \
             glsl::syntax::TypeSpecifier { ty: glsl::syntax::TypeSpecifierNonArray::Float, \
             array_specifier: None }, identifiers: vec![] }]",
        )
    );
    assert_eq!(
        spelled_code(&tokenize_struct_fields(
            &vec![
                StructFieldSpecifier {
                    qualifier: None,
                    ty: TypeSpecifier { ty: TypeSpecifierNonArray::Float, array_specifier: None },
                    identifiers: vec![],
                },
                StructFieldSpecifier {
                    qualifier: None,
                    ty: TypeSpecifier { ty: TypeSpecifierNonArray::Float, array_specifier: None },
                    identifiers: vec![],
                },
                StructFieldSpecifier {
                    qualifier: None,
                    ty: TypeSpecifier { ty: TypeSpecifierNonArray::Float, array_specifier: None },
                    identifiers: vec![],
                },
            ],
        )),
        spelled(
            "vec![glsl::syntax::StructFieldSpecifier { qualifier: None, ty: \
             glsl::syntax::TypeSpecifier { ty: glsl::syntax::TypeSpecifierNonArray::Float, \
             array_specifier: None }, identifiers: vec![] }, \
             glsl::syntax::StructFieldSpecifier { qualifier: None, ty: \
             glsl::syntax::TypeSpecifier { ty: glsl::syntax::TypeSpecifierNonArray::Float, \
             array_specifier: None }, identifiers: vec![] }, \
             glsl::syntax::StructFieldSpecifier { qualifier: None, ty: \
             glsl::syntax::TypeSpecifier { ty: glsl::syntax::TypeSpecifierNonArray::Float, \
             array_specifier: None }, identifiers: vec![] }]",
        )
    );
}

#[test]
fn arrayed_identifier_cases() {
    assert_eq!(
        spelled_code(&tokenize_arrayed_identifier(&"foo".to_string(), &None)),
        spelled("(String::from(\"foo\"), None)")
    );
    assert_eq!(
        spelled_code(&tokenize_arrayed_identifier(
            &"zoo".to_string(),
            &Some(ArraySpecifier::Unsized)
        )),
        spelled("(String::from(\"zoo\"), Some(glsl::syntax::ArraySpecifier::Unsized))")
    );
}
