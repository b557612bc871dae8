// The catalog of built-in types: every entry has a constructor of its own.

use glsl_quasiquote::code::Code;
use glsl_quasiquote::syntax::TypeSpecifierNonArray;
use glsl_quasiquote::syntax::TypeSpecifierNonArray::{
    Void, Bool, Int, UInt, Float, Double, Vec2, Vec3, Vec4, DVec2, DVec3, DVec4, BVec2,
    BVec3, BVec4, IVec2, IVec3, IVec4, UVec2, UVec3, UVec4, Mat2, Mat3, Mat4, Mat23, Mat24,
    Mat32, Mat34, Mat42, Mat43, DMat2, DMat3, DMat4, DMat23, DMat24, DMat32, DMat34, DMat42,
    DMat43, Sampler1D, Image1D, Sampler2D, Image2D, Sampler3D, Image3D, SamplerCube,
    ImageCube, Sampler2DRect, Image2DRect, Sampler1DArray, Image1DArray, Sampler2DArray,
    Image2DArray, SamplerBuffer, ImageBuffer, Sampler2DMS, Image2DMS, Sampler2DMSArray,
    Image2DMSArray, SamplerCubeArray, ImageCubeArray, Sampler1DShadow, Sampler2DShadow,
    Sampler2DRectShadow, Sampler1DArrayShadow, Sampler2DArrayShadow, SamplerCubeShadow,
    SamplerCubeArrayShadow, ISampler1D, IImage1D, ISampler2D, IImage2D, ISampler3D,
    IImage3D, ISamplerCube, IImageCube, ISampler2DRect, IImage2DRect, ISampler1DArray,
    IImage1DArray, ISampler2DArray, IImage2DArray, ISamplerBuffer, IImageBuffer,
    ISampler2DMS, IImage2DMS, ISampler2DMSArray, IImage2DMSArray, ISamplerCubeArray,
    IImageCubeArray, AtomicUInt, USampler1D, UImage1D, USampler2D, UImage2D, USampler3D,
    UImage3D, USamplerCube, UImageCube, USampler2DRect, UImage2DRect, USampler1DArray,
    UImage1DArray, USampler2DArray, UImage2DArray, USamplerBuffer, UImageBuffer,
    USampler2DMS, UImage2DMS, USampler2DMSArray, UImage2DMSArray, USamplerCubeArray,
    UImageCubeArray,
};
use glsl_quasiquote::tokenizer::types::tokenize_type_specifier_non_array;
use std::collections::HashSet;

fn catalog() -> Vec<TypeSpecifierNonArray> {
    vec![
            Void, Bool, Int, UInt, Float, Double, Vec2, Vec3, Vec4, DVec2, DVec3, DVec4, BVec2,
            BVec3, BVec4, IVec2, IVec3, IVec4, UVec2, UVec3, UVec4, Mat2, Mat3, Mat4, Mat23, Mat24,
            Mat32, Mat34, Mat42, Mat43, DMat2, DMat3, DMat4, DMat23, DMat24, DMat32, DMat34, DMat42,
            DMat43, Sampler1D, Image1D, Sampler2D, Image2D, Sampler3D, Image3D, SamplerCube,
            ImageCube, Sampler2DRect, Image2DRect, Sampler1DArray, Image1DArray, Sampler2DArray,
            Image2DArray, SamplerBuffer, ImageBuffer, Sampler2DMS, Image2DMS, Sampler2DMSArray,
            Image2DMSArray, SamplerCubeArray, ImageCubeArray, Sampler1DShadow, Sampler2DShadow,
            Sampler2DRectShadow, Sampler1DArrayShadow, Sampler2DArrayShadow, SamplerCubeShadow,
            SamplerCubeArrayShadow, ISampler1D, IImage1D, ISampler2D, IImage2D, ISampler3D,
            IImage3D, ISamplerCube, IImageCube, ISampler2DRect, IImage2DRect, ISampler1DArray,
            IImage1DArray, ISampler2DArray, IImage2DArray, ISamplerBuffer, IImageBuffer,
            ISampler2DMS, IImage2DMS, ISampler2DMSArray, IImage2DMSArray, ISamplerCubeArray,
            IImageCubeArray, AtomicUInt, USampler1D, UImage1D, USampler2D, UImage2D, USampler3D,
            UImage3D, USamplerCube, UImageCube, USampler2DRect, UImage2DRect, USampler1DArray,
            UImage1DArray, USampler2DArray, UImage2DArray, USamplerBuffer, UImageBuffer,
            USampler2DMS, UImage2DMS, USampler2DMSArray, UImage2DMSArray, USamplerCubeArray,
            UImageCubeArray,
    ]
}

fn spelled_code(code: &Code) -> String {
    code.to_token_stream().to_string()
}

#[test]
fn catalog_is_complete() {
    assert_eq!(catalog().len(), 113);
}

#[test]
fn every_entry_is_tokenized_to_its_own_path() {
    for entry in catalog() {
        let code = tokenize_type_specifier_non_array(&entry);
        assert!(matches!(code, Code::Unit(_)), "{:?}", entry);
        assert_eq!(
            spelled_code(&code),
            format!("glsl :: syntax :: TypeSpecifierNonArray :: {:?}", entry)
        );
    }
}

#[test]
fn no_two_entries_share_their_code() {
    let mut seen = HashSet::new();
    for entry in catalog() {
        let spelling = spelled_code(&tokenize_type_specifier_non_array(&entry));
        assert!(seen.insert(spelling), "{:?}", entry);
    }
    assert_eq!(seen.len(), 113);
}

#[test]
fn open_entries_fall_outside_the_catalog() {
    let named = TypeSpecifierNonArray::TypeName("Light".to_string());
    assert_eq!(tokenize_type_specifier_non_array(&named), Code::Name("Light".to_string()));
    let built_in = TypeSpecifierNonArray::Float;
    assert_ne!(
        spelled_code(&tokenize_type_specifier_non_array(&named)),
        spelled_code(&tokenize_type_specifier_non_array(&built_in))
    );
    // a type that is named like a built-in one is still a name
    let shadow = TypeSpecifierNonArray::TypeName("Float".to_string());
    assert_eq!(spelled_code(&tokenize_type_specifier_non_array(&shadow)), "Float");
}
