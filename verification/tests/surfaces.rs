// The two entry points, run on shader text with the parser of the `glsl` crate.

use glsl_quasiquote::syntax;
use glsl_quasiquote::{
    expand, glsl_str, glsl_str_tokens, names_are_identifiers, unquote, Error, Parsed, TokenKind,
};

// ---- from the tree of the parser to the tree of the library ---------------------------------

fn convert_unary_op(op: &glsl::syntax::UnaryOp) -> syntax::UnaryOp {
    match op {
        glsl::syntax::UnaryOp::Inc => syntax::UnaryOp::Inc,
        glsl::syntax::UnaryOp::Dec => syntax::UnaryOp::Dec,
        glsl::syntax::UnaryOp::Add => syntax::UnaryOp::Add,
        glsl::syntax::UnaryOp::Minus => syntax::UnaryOp::Minus,
        glsl::syntax::UnaryOp::Not => syntax::UnaryOp::Not,
        glsl::syntax::UnaryOp::Complement => syntax::UnaryOp::Complement,
    }
}

fn convert_binary_op(op: &glsl::syntax::BinaryOp) -> syntax::BinaryOp {
    match op {
        glsl::syntax::BinaryOp::Or => syntax::BinaryOp::Or,
        glsl::syntax::BinaryOp::Xor => syntax::BinaryOp::Xor,
        glsl::syntax::BinaryOp::And => syntax::BinaryOp::And,
        glsl::syntax::BinaryOp::BitOr => syntax::BinaryOp::BitOr,
        glsl::syntax::BinaryOp::BitXor => syntax::BinaryOp::BitXor,
        glsl::syntax::BinaryOp::BitAnd => syntax::BinaryOp::BitAnd,
        glsl::syntax::BinaryOp::Equal => syntax::BinaryOp::Equal,
        glsl::syntax::BinaryOp::NonEqual => syntax::BinaryOp::NonEqual,
        glsl::syntax::BinaryOp::LT => syntax::BinaryOp::LT,
        glsl::syntax::BinaryOp::GT => syntax::BinaryOp::GT,
        glsl::syntax::BinaryOp::LTE => syntax::BinaryOp::LTE,
        glsl::syntax::BinaryOp::GTE => syntax::BinaryOp::GTE,
        glsl::syntax::BinaryOp::LShift => syntax::BinaryOp::LShift,
        glsl::syntax::BinaryOp::RShift => syntax::BinaryOp::RShift,
        glsl::syntax::BinaryOp::Add => syntax::BinaryOp::Add,
        glsl::syntax::BinaryOp::Sub => syntax::BinaryOp::Sub,
        glsl::syntax::BinaryOp::Mult => syntax::BinaryOp::Mult,
        glsl::syntax::BinaryOp::Div => syntax::BinaryOp::Div,
        glsl::syntax::BinaryOp::Mod => syntax::BinaryOp::Mod,
    }
}

fn convert_assignment_op(op: &glsl::syntax::AssignmentOp) -> syntax::AssignmentOp {
    match op {
        glsl::syntax::AssignmentOp::Equal => syntax::AssignmentOp::Equal,
        glsl::syntax::AssignmentOp::Mult => syntax::AssignmentOp::Mult,
        glsl::syntax::AssignmentOp::Div => syntax::AssignmentOp::Div,
        glsl::syntax::AssignmentOp::Mod => syntax::AssignmentOp::Mod,
        glsl::syntax::AssignmentOp::Add => syntax::AssignmentOp::Add,
        glsl::syntax::AssignmentOp::Sub => syntax::AssignmentOp::Sub,
        glsl::syntax::AssignmentOp::LShift => syntax::AssignmentOp::LShift,
        glsl::syntax::AssignmentOp::RShift => syntax::AssignmentOp::RShift,
        glsl::syntax::AssignmentOp::And => syntax::AssignmentOp::And,
        glsl::syntax::AssignmentOp::Xor => syntax::AssignmentOp::Xor,
        glsl::syntax::AssignmentOp::Or => syntax::AssignmentOp::Or,
    }
}

fn convert_expr(expr: &glsl::syntax::Expr) -> syntax::Expr {
    match expr {
        glsl::syntax::Expr::Variable(i) => syntax::Expr::Variable(i.clone()),
        glsl::syntax::Expr::IntConst(x) => syntax::Expr::IntConst(*x),
        glsl::syntax::Expr::UIntConst(x) => syntax::Expr::UIntConst(*x),
        glsl::syntax::Expr::BoolConst(x) => syntax::Expr::BoolConst(*x),
        glsl::syntax::Expr::FloatConst(x) => syntax::Expr::FloatConst(x.to_bits()),
        glsl::syntax::Expr::DoubleConst(x) => syntax::Expr::DoubleConst(x.to_bits()),
        glsl::syntax::Expr::Unary(op, e) => syntax::Expr::Unary(
            convert_unary_op(op),
            Box::new(convert_expr(e)),
        ),
        glsl::syntax::Expr::Binary(op, l, r) => syntax::Expr::Binary(
            convert_binary_op(op),
            Box::new(convert_expr(l)),
            Box::new(convert_expr(r)),
        ),
        glsl::syntax::Expr::Ternary(c, s, e) => syntax::Expr::Ternary(
            Box::new(convert_expr(c)),
            Box::new(convert_expr(s)),
            Box::new(convert_expr(e)),
        ),
        glsl::syntax::Expr::Assignment(v, op, e) => syntax::Expr::Assignment(
            Box::new(convert_expr(v)),
            convert_assignment_op(op),
            Box::new(convert_expr(e)),
        ),
        glsl::syntax::Expr::Bracket(e, a) => syntax::Expr::Bracket(
            Box::new(convert_expr(e)),
            convert_array_specifier(a),
        ),
        glsl::syntax::Expr::FunCall(fun, args) => syntax::Expr::FunCall(
            convert_fun_identifier(fun),
            args.iter().map(|x| convert_expr(x)).collect(),
        ),
        glsl::syntax::Expr::Dot(e, i) => syntax::Expr::Dot(Box::new(convert_expr(e)), i.clone()),
        glsl::syntax::Expr::PostInc(e) => syntax::Expr::PostInc(Box::new(convert_expr(e))),
        glsl::syntax::Expr::PostDec(e) => syntax::Expr::PostDec(Box::new(convert_expr(e))),
        glsl::syntax::Expr::Comma(a, b) => syntax::Expr::Comma(
            Box::new(convert_expr(a)),
            Box::new(convert_expr(b)),
        ),
    }
}

fn convert_array_specifier(a: &glsl::syntax::ArraySpecifier) -> syntax::ArraySpecifier {
    match a {
        glsl::syntax::ArraySpecifier::Unsized => syntax::ArraySpecifier::Unsized,
        glsl::syntax::ArraySpecifier::ExplicitlySized(e) => syntax::ArraySpecifier::ExplicitlySized(
            Box::new(convert_expr(e)),
        ),
    }
}

fn convert_fun_identifier(i: &glsl::syntax::FunIdentifier) -> syntax::FunIdentifier {
    match i {
        glsl::syntax::FunIdentifier::Identifier(n) => syntax::FunIdentifier::Identifier(n.clone()),
        glsl::syntax::FunIdentifier::Expr(e) => syntax::FunIdentifier::Expr(
            Box::new(convert_expr(e)),
        ),
    }
}

fn convert_precision_qualifier(p: &glsl::syntax::PrecisionQualifier) -> syntax::PrecisionQualifier {
    match p {
        glsl::syntax::PrecisionQualifier::High => syntax::PrecisionQualifier::High,
        glsl::syntax::PrecisionQualifier::Medium => syntax::PrecisionQualifier::Medium,
        glsl::syntax::PrecisionQualifier::Low => syntax::PrecisionQualifier::Low,
    }
}

fn convert_interpolation_qualifier(
    i: &glsl::syntax::InterpolationQualifier,
) -> syntax::InterpolationQualifier {
    match i {
        glsl::syntax::InterpolationQualifier::Smooth => syntax::InterpolationQualifier::Smooth,
        glsl::syntax::InterpolationQualifier::Flat => syntax::InterpolationQualifier::Flat,
        glsl::syntax::InterpolationQualifier::NoPerspective => {
            syntax::InterpolationQualifier::NoPerspective
        },
    }
}

fn convert_storage_qualifier(q: &glsl::syntax::StorageQualifier) -> syntax::StorageQualifier {
    match q {
        glsl::syntax::StorageQualifier::Const => syntax::StorageQualifier::Const,
        glsl::syntax::StorageQualifier::InOut => syntax::StorageQualifier::InOut,
        glsl::syntax::StorageQualifier::In => syntax::StorageQualifier::In,
        glsl::syntax::StorageQualifier::Out => syntax::StorageQualifier::Out,
        glsl::syntax::StorageQualifier::Centroid => syntax::StorageQualifier::Centroid,
        glsl::syntax::StorageQualifier::Patch => syntax::StorageQualifier::Patch,
        glsl::syntax::StorageQualifier::Sample => syntax::StorageQualifier::Sample,
        glsl::syntax::StorageQualifier::Uniform => syntax::StorageQualifier::Uniform,
        glsl::syntax::StorageQualifier::Buffer => syntax::StorageQualifier::Buffer,
        glsl::syntax::StorageQualifier::Shared => syntax::StorageQualifier::Shared,
        glsl::syntax::StorageQualifier::Coherent => syntax::StorageQualifier::Coherent,
        glsl::syntax::StorageQualifier::Volatile => syntax::StorageQualifier::Volatile,
        glsl::syntax::StorageQualifier::Restrict => syntax::StorageQualifier::Restrict,
        glsl::syntax::StorageQualifier::ReadOnly => syntax::StorageQualifier::ReadOnly,
        glsl::syntax::StorageQualifier::WriteOnly => syntax::StorageQualifier::WriteOnly,
        glsl::syntax::StorageQualifier::Subroutine(n) => syntax::StorageQualifier::Subroutine(
            n.iter().map(|x| x.clone()).collect(),
        ),
    }
}

fn convert_layout_qualifier_spec(
    l: &glsl::syntax::LayoutQualifierSpec,
) -> syntax::LayoutQualifierSpec {
    match l {
        glsl::syntax::LayoutQualifierSpec::Identifier(i, e) => {
            syntax::LayoutQualifierSpec::Identifier(
                i.clone(),
                e.as_ref().map(|x| Box::new(convert_expr(x))),
            )
        },
        glsl::syntax::LayoutQualifierSpec::Shared => syntax::LayoutQualifierSpec::Shared,
    }
}

fn convert_layout_qualifier(l: &glsl::syntax::LayoutQualifier) -> syntax::LayoutQualifier {
    syntax::LayoutQualifier {
        ids: l.ids.iter().map(|x| convert_layout_qualifier_spec(x)).collect(),
    }
}

fn convert_type_qualifier_spec(q: &glsl::syntax::TypeQualifierSpec) -> syntax::TypeQualifierSpec {
    match q {
        glsl::syntax::TypeQualifierSpec::Storage(s) => syntax::TypeQualifierSpec::Storage(
            convert_storage_qualifier(s),
        ),
        glsl::syntax::TypeQualifierSpec::Layout(l) => syntax::TypeQualifierSpec::Layout(
            convert_layout_qualifier(l),
        ),
        glsl::syntax::TypeQualifierSpec::Precision(p) => syntax::TypeQualifierSpec::Precision(
            convert_precision_qualifier(p),
        ),
        glsl::syntax::TypeQualifierSpec::Interpolation(i) => {
            syntax::TypeQualifierSpec::Interpolation(convert_interpolation_qualifier(i))
        },
        glsl::syntax::TypeQualifierSpec::Invariant => syntax::TypeQualifierSpec::Invariant,
        glsl::syntax::TypeQualifierSpec::Precise => syntax::TypeQualifierSpec::Precise,
    }
}

fn convert_type_qualifier(q: &glsl::syntax::TypeQualifier) -> syntax::TypeQualifier {
    syntax::TypeQualifier {
        qualifiers: q.qualifiers.iter().map(|x| convert_type_qualifier_spec(x)).collect(),
    }
}

fn convert_type_specifier_non_array(
    t: &glsl::syntax::TypeSpecifierNonArray,
) -> syntax::TypeSpecifierNonArray {
    match t {
        glsl::syntax::TypeSpecifierNonArray::Void => syntax::TypeSpecifierNonArray::Void,
        glsl::syntax::TypeSpecifierNonArray::Bool => syntax::TypeSpecifierNonArray::Bool,
        glsl::syntax::TypeSpecifierNonArray::Int => syntax::TypeSpecifierNonArray::Int,
        glsl::syntax::TypeSpecifierNonArray::UInt => syntax::TypeSpecifierNonArray::UInt,
        glsl::syntax::TypeSpecifierNonArray::Float => syntax::TypeSpecifierNonArray::Float,
        glsl::syntax::TypeSpecifierNonArray::Double => syntax::TypeSpecifierNonArray::Double,
        glsl::syntax::TypeSpecifierNonArray::Vec2 => syntax::TypeSpecifierNonArray::Vec2,
        glsl::syntax::TypeSpecifierNonArray::Vec3 => syntax::TypeSpecifierNonArray::Vec3,
        glsl::syntax::TypeSpecifierNonArray::Vec4 => syntax::TypeSpecifierNonArray::Vec4,
        glsl::syntax::TypeSpecifierNonArray::DVec2 => syntax::TypeSpecifierNonArray::DVec2,
        glsl::syntax::TypeSpecifierNonArray::DVec3 => syntax::TypeSpecifierNonArray::DVec3,
        glsl::syntax::TypeSpecifierNonArray::DVec4 => syntax::TypeSpecifierNonArray::DVec4,
        glsl::syntax::TypeSpecifierNonArray::BVec2 => syntax::TypeSpecifierNonArray::BVec2,
        glsl::syntax::TypeSpecifierNonArray::BVec3 => syntax::TypeSpecifierNonArray::BVec3,
        glsl::syntax::TypeSpecifierNonArray::BVec4 => syntax::TypeSpecifierNonArray::BVec4,
        glsl::syntax::TypeSpecifierNonArray::IVec2 => syntax::TypeSpecifierNonArray::IVec2,
        glsl::syntax::TypeSpecifierNonArray::IVec3 => syntax::TypeSpecifierNonArray::IVec3,
        glsl::syntax::TypeSpecifierNonArray::IVec4 => syntax::TypeSpecifierNonArray::IVec4,
        glsl::syntax::TypeSpecifierNonArray::UVec2 => syntax::TypeSpecifierNonArray::UVec2,
        glsl::syntax::TypeSpecifierNonArray::UVec3 => syntax::TypeSpecifierNonArray::UVec3,
        glsl::syntax::TypeSpecifierNonArray::UVec4 => syntax::TypeSpecifierNonArray::UVec4,
        glsl::syntax::TypeSpecifierNonArray::Mat2 => syntax::TypeSpecifierNonArray::Mat2,
        glsl::syntax::TypeSpecifierNonArray::Mat3 => syntax::TypeSpecifierNonArray::Mat3,
        glsl::syntax::TypeSpecifierNonArray::Mat4 => syntax::TypeSpecifierNonArray::Mat4,
        glsl::syntax::TypeSpecifierNonArray::Mat23 => syntax::TypeSpecifierNonArray::Mat23,
        glsl::syntax::TypeSpecifierNonArray::Mat24 => syntax::TypeSpecifierNonArray::Mat24,
        glsl::syntax::TypeSpecifierNonArray::Mat32 => syntax::TypeSpecifierNonArray::Mat32,
        glsl::syntax::TypeSpecifierNonArray::Mat34 => syntax::TypeSpecifierNonArray::Mat34,
        glsl::syntax::TypeSpecifierNonArray::Mat42 => syntax::TypeSpecifierNonArray::Mat42,
        glsl::syntax::TypeSpecifierNonArray::Mat43 => syntax::TypeSpecifierNonArray::Mat43,
        glsl::syntax::TypeSpecifierNonArray::DMat2 => syntax::TypeSpecifierNonArray::DMat2,
        glsl::syntax::TypeSpecifierNonArray::DMat3 => syntax::TypeSpecifierNonArray::DMat3,
        glsl::syntax::TypeSpecifierNonArray::DMat4 => syntax::TypeSpecifierNonArray::DMat4,
        glsl::syntax::TypeSpecifierNonArray::DMat23 => syntax::TypeSpecifierNonArray::DMat23,
        glsl::syntax::TypeSpecifierNonArray::DMat24 => syntax::TypeSpecifierNonArray::DMat24,
        glsl::syntax::TypeSpecifierNonArray::DMat32 => syntax::TypeSpecifierNonArray::DMat32,
        glsl::syntax::TypeSpecifierNonArray::DMat34 => syntax::TypeSpecifierNonArray::DMat34,
        glsl::syntax::TypeSpecifierNonArray::DMat42 => syntax::TypeSpecifierNonArray::DMat42,
        glsl::syntax::TypeSpecifierNonArray::DMat43 => syntax::TypeSpecifierNonArray::DMat43,
        glsl::syntax::TypeSpecifierNonArray::Sampler1D => syntax::TypeSpecifierNonArray::Sampler1D,
        glsl::syntax::TypeSpecifierNonArray::Image1D => syntax::TypeSpecifierNonArray::Image1D,
        glsl::syntax::TypeSpecifierNonArray::Sampler2D => syntax::TypeSpecifierNonArray::Sampler2D,
        glsl::syntax::TypeSpecifierNonArray::Image2D => syntax::TypeSpecifierNonArray::Image2D,
        glsl::syntax::TypeSpecifierNonArray::Sampler3D => syntax::TypeSpecifierNonArray::Sampler3D,
        glsl::syntax::TypeSpecifierNonArray::Image3D => syntax::TypeSpecifierNonArray::Image3D,
        glsl::syntax::TypeSpecifierNonArray::SamplerCube => {
            syntax::TypeSpecifierNonArray::SamplerCube
        },
        glsl::syntax::TypeSpecifierNonArray::ImageCube => syntax::TypeSpecifierNonArray::ImageCube,
        glsl::syntax::TypeSpecifierNonArray::Sampler2DRect => {
            syntax::TypeSpecifierNonArray::Sampler2DRect
        },
        glsl::syntax::TypeSpecifierNonArray::Image2DRect => {
            syntax::TypeSpecifierNonArray::Image2DRect
        },
        glsl::syntax::TypeSpecifierNonArray::Sampler1DArray => {
            syntax::TypeSpecifierNonArray::Sampler1DArray
        },
        glsl::syntax::TypeSpecifierNonArray::Image1DArray => {
            syntax::TypeSpecifierNonArray::Image1DArray
        },
        glsl::syntax::TypeSpecifierNonArray::Sampler2DArray => {
            syntax::TypeSpecifierNonArray::Sampler2DArray
        },
        glsl::syntax::TypeSpecifierNonArray::Image2DArray => {
            syntax::TypeSpecifierNonArray::Image2DArray
        },
        glsl::syntax::TypeSpecifierNonArray::SamplerBuffer => {
            syntax::TypeSpecifierNonArray::SamplerBuffer
        },
        glsl::syntax::TypeSpecifierNonArray::ImageBuffer => {
            syntax::TypeSpecifierNonArray::ImageBuffer
        },
        glsl::syntax::TypeSpecifierNonArray::Sampler2DMS => {
            syntax::TypeSpecifierNonArray::Sampler2DMS
        },
        glsl::syntax::TypeSpecifierNonArray::Image2DMS => syntax::TypeSpecifierNonArray::Image2DMS,
        glsl::syntax::TypeSpecifierNonArray::Sampler2DMSArray => {
            syntax::TypeSpecifierNonArray::Sampler2DMSArray
        },
        glsl::syntax::TypeSpecifierNonArray::Image2DMSArray => {
            syntax::TypeSpecifierNonArray::Image2DMSArray
        },
        glsl::syntax::TypeSpecifierNonArray::SamplerCubeArray => {
            syntax::TypeSpecifierNonArray::SamplerCubeArray
        },
        glsl::syntax::TypeSpecifierNonArray::ImageCubeArray => {
            syntax::TypeSpecifierNonArray::ImageCubeArray
        },
        glsl::syntax::TypeSpecifierNonArray::Sampler1DShadow => {
            syntax::TypeSpecifierNonArray::Sampler1DShadow
        },
        glsl::syntax::TypeSpecifierNonArray::Sampler2DShadow => {
            syntax::TypeSpecifierNonArray::Sampler2DShadow
        },
        glsl::syntax::TypeSpecifierNonArray::Sampler2DRectShadow => {
            syntax::TypeSpecifierNonArray::Sampler2DRectShadow
        },
        glsl::syntax::TypeSpecifierNonArray::Sampler1DArrayShadow => {
            syntax::TypeSpecifierNonArray::Sampler1DArrayShadow
        },
        glsl::syntax::TypeSpecifierNonArray::Sampler2DArrayShadow => {
            syntax::TypeSpecifierNonArray::Sampler2DArrayShadow
        },
        glsl::syntax::TypeSpecifierNonArray::SamplerCubeShadow => {
            syntax::TypeSpecifierNonArray::SamplerCubeShadow
        },
        glsl::syntax::TypeSpecifierNonArray::SamplerCubeArrayShadow => {
            syntax::TypeSpecifierNonArray::SamplerCubeArrayShadow
        },
        glsl::syntax::TypeSpecifierNonArray::ISampler1D => {
            syntax::TypeSpecifierNonArray::ISampler1D
        },
        glsl::syntax::TypeSpecifierNonArray::IImage1D => syntax::TypeSpecifierNonArray::IImage1D,
        glsl::syntax::TypeSpecifierNonArray::ISampler2D => {
            syntax::TypeSpecifierNonArray::ISampler2D
        },
        glsl::syntax::TypeSpecifierNonArray::IImage2D => syntax::TypeSpecifierNonArray::IImage2D,
        glsl::syntax::TypeSpecifierNonArray::ISampler3D => {
            syntax::TypeSpecifierNonArray::ISampler3D
        },
        glsl::syntax::TypeSpecifierNonArray::IImage3D => syntax::TypeSpecifierNonArray::IImage3D,
        glsl::syntax::TypeSpecifierNonArray::ISamplerCube => {
            syntax::TypeSpecifierNonArray::ISamplerCube
        },
        glsl::syntax::TypeSpecifierNonArray::IImageCube => {
            syntax::TypeSpecifierNonArray::IImageCube
        },
        glsl::syntax::TypeSpecifierNonArray::ISampler2DRect => {
            syntax::TypeSpecifierNonArray::ISampler2DRect
        },
        glsl::syntax::TypeSpecifierNonArray::IImage2DRect => {
            syntax::TypeSpecifierNonArray::IImage2DRect
        },
        glsl::syntax::TypeSpecifierNonArray::ISampler1DArray => {
            syntax::TypeSpecifierNonArray::ISampler1DArray
        },
        glsl::syntax::TypeSpecifierNonArray::IImage1DArray => {
            syntax::TypeSpecifierNonArray::IImage1DArray
        },
        glsl::syntax::TypeSpecifierNonArray::ISampler2DArray => {
            syntax::TypeSpecifierNonArray::ISampler2DArray
        },
        glsl::syntax::TypeSpecifierNonArray::IImage2DArray => {
            syntax::TypeSpecifierNonArray::IImage2DArray
        },
        glsl::syntax::TypeSpecifierNonArray::ISamplerBuffer => {
            syntax::TypeSpecifierNonArray::ISamplerBuffer
        },
        glsl::syntax::TypeSpecifierNonArray::IImageBuffer => {
            syntax::TypeSpecifierNonArray::IImageBuffer
        },
        glsl::syntax::TypeSpecifierNonArray::ISampler2DMS => {
            syntax::TypeSpecifierNonArray::ISampler2DMS
        },
        glsl::syntax::TypeSpecifierNonArray::IImage2DMS => {
            syntax::TypeSpecifierNonArray::IImage2DMS
        },
        glsl::syntax::TypeSpecifierNonArray::ISampler2DMSArray => {
            syntax::TypeSpecifierNonArray::ISampler2DMSArray
        },
        glsl::syntax::TypeSpecifierNonArray::IImage2DMSArray => {
            syntax::TypeSpecifierNonArray::IImage2DMSArray
        },
        glsl::syntax::TypeSpecifierNonArray::ISamplerCubeArray => {
            syntax::TypeSpecifierNonArray::ISamplerCubeArray
        },
        glsl::syntax::TypeSpecifierNonArray::IImageCubeArray => {
            syntax::TypeSpecifierNonArray::IImageCubeArray
        },
        glsl::syntax::TypeSpecifierNonArray::AtomicUInt => {
            syntax::TypeSpecifierNonArray::AtomicUInt
        },
        glsl::syntax::TypeSpecifierNonArray::USampler1D => {
            syntax::TypeSpecifierNonArray::USampler1D
        },
        glsl::syntax::TypeSpecifierNonArray::UImage1D => syntax::TypeSpecifierNonArray::UImage1D,
        glsl::syntax::TypeSpecifierNonArray::USampler2D => {
            syntax::TypeSpecifierNonArray::USampler2D
        },
        glsl::syntax::TypeSpecifierNonArray::UImage2D => syntax::TypeSpecifierNonArray::UImage2D,
        glsl::syntax::TypeSpecifierNonArray::USampler3D => {
            syntax::TypeSpecifierNonArray::USampler3D
        },
        glsl::syntax::TypeSpecifierNonArray::UImage3D => syntax::TypeSpecifierNonArray::UImage3D,
        glsl::syntax::TypeSpecifierNonArray::USamplerCube => {
            syntax::TypeSpecifierNonArray::USamplerCube
        },
        glsl::syntax::TypeSpecifierNonArray::UImageCube => {
            syntax::TypeSpecifierNonArray::UImageCube
        },
        glsl::syntax::TypeSpecifierNonArray::USampler2DRect => {
            syntax::TypeSpecifierNonArray::USampler2DRect
        },
        glsl::syntax::TypeSpecifierNonArray::UImage2DRect => {
            syntax::TypeSpecifierNonArray::UImage2DRect
        },
        glsl::syntax::TypeSpecifierNonArray::USampler1DArray => {
            syntax::TypeSpecifierNonArray::USampler1DArray
        },
        glsl::syntax::TypeSpecifierNonArray::UImage1DArray => {
            syntax::TypeSpecifierNonArray::UImage1DArray
        },
        glsl::syntax::TypeSpecifierNonArray::USampler2DArray => {
            syntax::TypeSpecifierNonArray::USampler2DArray
        },
        glsl::syntax::TypeSpecifierNonArray::UImage2DArray => {
            syntax::TypeSpecifierNonArray::UImage2DArray
        },
        glsl::syntax::TypeSpecifierNonArray::USamplerBuffer => {
            syntax::TypeSpecifierNonArray::USamplerBuffer
        },
        glsl::syntax::TypeSpecifierNonArray::UImageBuffer => {
            syntax::TypeSpecifierNonArray::UImageBuffer
        },
        glsl::syntax::TypeSpecifierNonArray::USampler2DMS => {
            syntax::TypeSpecifierNonArray::USampler2DMS
        },
        glsl::syntax::TypeSpecifierNonArray::UImage2DMS => {
            syntax::TypeSpecifierNonArray::UImage2DMS
        },
        glsl::syntax::TypeSpecifierNonArray::USampler2DMSArray => {
            syntax::TypeSpecifierNonArray::USampler2DMSArray
        },
        glsl::syntax::TypeSpecifierNonArray::UImage2DMSArray => {
            syntax::TypeSpecifierNonArray::UImage2DMSArray
        },
        glsl::syntax::TypeSpecifierNonArray::USamplerCubeArray => {
            syntax::TypeSpecifierNonArray::USamplerCubeArray
        },
        glsl::syntax::TypeSpecifierNonArray::UImageCubeArray => {
            syntax::TypeSpecifierNonArray::UImageCubeArray
        },
        glsl::syntax::TypeSpecifierNonArray::Struct(s) => syntax::TypeSpecifierNonArray::Struct(
            convert_struct_specifier(s),
        ),
        glsl::syntax::TypeSpecifierNonArray::TypeName(tn) => {
            syntax::TypeSpecifierNonArray::TypeName(tn.clone())
        },
    }
}

fn convert_type_specifier(t: &glsl::syntax::TypeSpecifier) -> syntax::TypeSpecifier {
    syntax::TypeSpecifier {
        ty: convert_type_specifier_non_array(&t.ty),
        array_specifier: t.array_specifier.as_ref().map(|x| convert_array_specifier(x)),
    }
}

fn convert_struct_specifier(s: &glsl::syntax::StructSpecifier) -> syntax::StructSpecifier {
    syntax::StructSpecifier {
        name: s.name.as_ref().map(|x| x.clone()),
        fields: s.fields.iter().map(|x| convert_struct_field_specifier(x)).collect(),
    }
}

fn convert_struct_field_specifier(
    field: &glsl::syntax::StructFieldSpecifier,
) -> syntax::StructFieldSpecifier {
    syntax::StructFieldSpecifier {
        qualifier: field.qualifier.as_ref().map(|x| convert_type_qualifier(x)),
        ty: convert_type_specifier(&field.ty),
        identifiers: field.identifiers.iter().map(|x| convert_arrayed_identifier(x)).collect(),
    }
}

fn convert_fully_specified_type(
    t: &glsl::syntax::FullySpecifiedType,
) -> syntax::FullySpecifiedType {
    syntax::FullySpecifiedType {
        qualifier: t.qualifier.as_ref().map(|x| convert_type_qualifier(x)),
        ty: convert_type_specifier(&t.ty),
    }
}

fn convert_initializer(i: &glsl::syntax::Initializer) -> syntax::Initializer {
    match i {
        glsl::syntax::Initializer::Simple(e) => syntax::Initializer::Simple(
            Box::new(convert_expr(e)),
        ),
        glsl::syntax::Initializer::List(list) => syntax::Initializer::List(
            list.iter().map(|x| convert_initializer(x)).collect(),
        ),
    }
}

fn convert_single_declaration(d: &glsl::syntax::SingleDeclaration) -> syntax::SingleDeclaration {
    syntax::SingleDeclaration {
        ty: convert_fully_specified_type(&d.ty),
        name: d.name.as_ref().map(|x| x.clone()),
        array_specifier: d.array_specifier.as_ref().map(|x| convert_array_specifier(x)),
        initializer: d.initializer.as_ref().map(|x| convert_initializer(x)),
    }
}

fn convert_single_declaration_no_type(
    d: &glsl::syntax::SingleDeclarationNoType,
) -> syntax::SingleDeclarationNoType {
    syntax::SingleDeclarationNoType {
        name: d.name.clone(),
        array_specifier: d.array_specifier.as_ref().map(|x| convert_array_specifier(x)),
        initializer: d.initializer.as_ref().map(|x| convert_initializer(x)),
    }
}

fn convert_init_declarator_list(
    i: &glsl::syntax::InitDeclaratorList,
) -> syntax::InitDeclaratorList {
    syntax::InitDeclaratorList {
        head: convert_single_declaration(&i.head),
        tail: i.tail.iter().map(|x| convert_single_declaration_no_type(x)).collect(),
    }
}

fn convert_function_parameter_declarator(
    p: &glsl::syntax::FunctionParameterDeclarator,
) -> syntax::FunctionParameterDeclarator {
    syntax::FunctionParameterDeclarator {
        ty: convert_type_specifier(&p.ty),
        name: p.name.clone(),
        array_spec: p.array_spec.as_ref().map(|x| convert_array_specifier(x)),
    }
}

fn convert_function_parameter_declaration(
    p: &glsl::syntax::FunctionParameterDeclaration,
) -> syntax::FunctionParameterDeclaration {
    match p {
        glsl::syntax::FunctionParameterDeclaration::Named(qual, fpd) => {
            syntax::FunctionParameterDeclaration::Named(
                qual.as_ref().map(|x| convert_type_qualifier(x)),
                convert_function_parameter_declarator(fpd),
            )
        },
        glsl::syntax::FunctionParameterDeclaration::Unnamed(qual, ty) => {
            syntax::FunctionParameterDeclaration::Unnamed(
                qual.as_ref().map(|x| convert_type_qualifier(x)),
                convert_type_specifier(ty),
            )
        },
    }
}

fn convert_function_prototype(fp: &glsl::syntax::FunctionPrototype) -> syntax::FunctionPrototype {
    syntax::FunctionPrototype {
        ty: convert_fully_specified_type(&fp.ty),
        name: fp.name.clone(),
        parameters: fp
            .parameters
            .iter()
            .map(|x| convert_function_parameter_declaration(x))
            .collect(),
    }
}

fn convert_block(b: &glsl::syntax::Block) -> syntax::Block {
    syntax::Block {
        qualifier: convert_type_qualifier(&b.qualifier),
        name: b.name.clone(),
        fields: b.fields.iter().map(|x| convert_struct_field_specifier(x)).collect(),
        identifier: b.identifier.as_ref().map(|x| convert_arrayed_identifier(x)),
    }
}

fn convert_declaration(d: &glsl::syntax::Declaration) -> syntax::Declaration {
    match d {
        glsl::syntax::Declaration::FunctionPrototype(proto) => {
            syntax::Declaration::FunctionPrototype(convert_function_prototype(proto))
        },
        glsl::syntax::Declaration::InitDeclaratorList(list) => {
            syntax::Declaration::InitDeclaratorList(convert_init_declarator_list(list))
        },
        glsl::syntax::Declaration::Precision(qual, ty) => syntax::Declaration::Precision(
            convert_precision_qualifier(qual),
            convert_type_specifier(ty),
        ),
        glsl::syntax::Declaration::Block(block) => syntax::Declaration::Block(convert_block(block)),
        glsl::syntax::Declaration::Global(qual, identifiers) => syntax::Declaration::Global(
            convert_type_qualifier(qual),
            identifiers.iter().map(|x| x.clone()).collect(),
        ),
    }
}

fn convert_condition(c: &glsl::syntax::Condition) -> syntax::Condition {
    match c {
        glsl::syntax::Condition::Expr(e) => syntax::Condition::Expr(Box::new(convert_expr(e))),
        glsl::syntax::Condition::Assignment(ty, name, initializer) => syntax::Condition::Assignment(
            convert_fully_specified_type(ty),
            name.clone(),
            convert_initializer(initializer),
        ),
    }
}

fn convert_case_label(cl: &glsl::syntax::CaseLabel) -> syntax::CaseLabel {
    match cl {
        glsl::syntax::CaseLabel::Case(e) => syntax::CaseLabel::Case(Box::new(convert_expr(e))),
        glsl::syntax::CaseLabel::Def => syntax::CaseLabel::Def,
    }
}

fn convert_jump_statement(j: &glsl::syntax::JumpStatement) -> syntax::JumpStatement {
    match j {
        glsl::syntax::JumpStatement::Continue => syntax::JumpStatement::Continue,
        glsl::syntax::JumpStatement::Break => syntax::JumpStatement::Break,
        glsl::syntax::JumpStatement::Return(e) => syntax::JumpStatement::Return(
            Box::new(convert_expr(e)),
        ),
        glsl::syntax::JumpStatement::Discard => syntax::JumpStatement::Discard,
    }
}

fn convert_for_init_statement(i: &glsl::syntax::ForInitStatement) -> syntax::ForInitStatement {
    match i {
        glsl::syntax::ForInitStatement::Expression(expr) => syntax::ForInitStatement::Expression(
            expr.as_ref().map(|x| convert_expr(x)),
        ),
        glsl::syntax::ForInitStatement::Declaration(d) => syntax::ForInitStatement::Declaration(
            Box::new(convert_declaration(d)),
        ),
    }
}

fn convert_for_rest_statement(r: &glsl::syntax::ForRestStatement) -> syntax::ForRestStatement {
    syntax::ForRestStatement {
        condition: r.condition.as_ref().map(|x| convert_condition(x)),
        post_expr: r.post_expr.as_ref().map(|x| Box::new(convert_expr(x))),
    }
}

fn convert_compound_statement(cst: &glsl::syntax::CompoundStatement) -> syntax::CompoundStatement {
    syntax::CompoundStatement {
        statement_list: cst.statement_list.iter().map(|x| convert_statement(x)).collect(),
    }
}

fn convert_statement(st: &glsl::syntax::Statement) -> syntax::Statement {
    match st {
        glsl::syntax::Statement::Compound(cst) => syntax::Statement::Compound(
            Box::new(convert_compound_statement(cst)),
        ),
        glsl::syntax::Statement::Simple(sst) => syntax::Statement::Simple(
            Box::new(convert_simple_statement(sst)),
        ),
    }
}

fn convert_simple_statement(sst: &glsl::syntax::SimpleStatement) -> syntax::SimpleStatement {
    match sst {
        glsl::syntax::SimpleStatement::Declaration(d) => syntax::SimpleStatement::Declaration(
            convert_declaration(d),
        ),
        glsl::syntax::SimpleStatement::Expression(e) => syntax::SimpleStatement::Expression(
            e.as_ref().map(|x| convert_expr(x)),
        ),
        glsl::syntax::SimpleStatement::Selection(s) => syntax::SimpleStatement::Selection(
            convert_selection_statement(s),
        ),
        glsl::syntax::SimpleStatement::Switch(s) => syntax::SimpleStatement::Switch(
            convert_switch_statement(s),
        ),
        glsl::syntax::SimpleStatement::CaseLabel(cl) => syntax::SimpleStatement::CaseLabel(
            convert_case_label(cl),
        ),
        glsl::syntax::SimpleStatement::Iteration(i) => syntax::SimpleStatement::Iteration(
            convert_iteration_statement(i),
        ),
        glsl::syntax::SimpleStatement::Jump(j) => syntax::SimpleStatement::Jump(
            convert_jump_statement(j),
        ),
    }
}

fn convert_selection_statement(
    sst: &glsl::syntax::SelectionStatement,
) -> syntax::SelectionStatement {
    syntax::SelectionStatement {
        cond: Box::new(convert_expr(&sst.cond)),
        rest: convert_selection_rest_statement(&sst.rest),
    }
}

fn convert_selection_rest_statement(
    sst: &glsl::syntax::SelectionRestStatement,
) -> syntax::SelectionRestStatement {
    match sst {
        glsl::syntax::SelectionRestStatement::Statement(if_st) => {
            syntax::SelectionRestStatement::Statement(Box::new(convert_statement(if_st)))
        },
        glsl::syntax::SelectionRestStatement::Else(if_st, else_st) => {
            syntax::SelectionRestStatement::Else(
                Box::new(convert_statement(if_st)),
                Box::new(convert_statement(else_st)),
            )
        },
    }
}

fn convert_switch_statement(sst: &glsl::syntax::SwitchStatement) -> syntax::SwitchStatement {
    syntax::SwitchStatement {
        head: Box::new(convert_expr(&sst.head)),
        body: sst.body.iter().map(|x| convert_statement(x)).collect(),
    }
}

fn convert_iteration_statement(
    ist: &glsl::syntax::IterationStatement,
) -> syntax::IterationStatement {
    match ist {
        glsl::syntax::IterationStatement::While(cond, body) => syntax::IterationStatement::While(
            convert_condition(cond),
            Box::new(convert_statement(body)),
        ),
        glsl::syntax::IterationStatement::DoWhile(body, cond) => {
            syntax::IterationStatement::DoWhile(
                Box::new(convert_statement(body)),
                Box::new(convert_expr(cond)),
            )
        },
        glsl::syntax::IterationStatement::For(init, rest, body) => syntax::IterationStatement::For(
            convert_for_init_statement(init),
            convert_for_rest_statement(rest),
            Box::new(convert_statement(body)),
        ),
    }
}

fn convert_function_definition(
    fd: &glsl::syntax::FunctionDefinition,
) -> syntax::FunctionDefinition {
    syntax::FunctionDefinition {
        prototype: convert_function_prototype(&fd.prototype),
        statement: convert_compound_statement(&fd.statement),
    }
}

fn convert_preprocessor_version_profile(
    profile: &glsl::syntax::PreprocessorVersionProfile,
) -> syntax::PreprocessorVersionProfile {
    match profile {
        glsl::syntax::PreprocessorVersionProfile::Core => syntax::PreprocessorVersionProfile::Core,
        glsl::syntax::PreprocessorVersionProfile::Compatibility => {
            syntax::PreprocessorVersionProfile::Compatibility
        },
        glsl::syntax::PreprocessorVersionProfile::ES => syntax::PreprocessorVersionProfile::ES,
    }
}

fn convert_preprocessor_extension_behavior(
    behavior: &glsl::syntax::PreprocessorExtensionBehavior,
) -> syntax::PreprocessorExtensionBehavior {
    match behavior {
        glsl::syntax::PreprocessorExtensionBehavior::Require => {
            syntax::PreprocessorExtensionBehavior::Require
        },
        glsl::syntax::PreprocessorExtensionBehavior::Enable => {
            syntax::PreprocessorExtensionBehavior::Enable
        },
        glsl::syntax::PreprocessorExtensionBehavior::Warn => {
            syntax::PreprocessorExtensionBehavior::Warn
        },
        glsl::syntax::PreprocessorExtensionBehavior::Disable => {
            syntax::PreprocessorExtensionBehavior::Disable
        },
    }
}

fn convert_preprocessor_version(
    pv: &glsl::syntax::PreprocessorVersion,
) -> syntax::PreprocessorVersion {
    syntax::PreprocessorVersion {
        version: pv.version,
        profile: pv.profile.as_ref().map(|x| convert_preprocessor_version_profile(x)),
    }
}

fn convert_preprocessor_extension_name(
    name: &glsl::syntax::PreprocessorExtensionName,
) -> syntax::PreprocessorExtensionName {
    match name {
        glsl::syntax::PreprocessorExtensionName::All => syntax::PreprocessorExtensionName::All,
        glsl::syntax::PreprocessorExtensionName::Specific(n) => {
            syntax::PreprocessorExtensionName::Specific(n.clone())
        },
    }
}

fn convert_preprocessor_extension(
    pe: &glsl::syntax::PreprocessorExtension,
) -> syntax::PreprocessorExtension {
    syntax::PreprocessorExtension {
        name: convert_preprocessor_extension_name(&pe.name),
        behavior: pe.behavior.as_ref().map(|x| convert_preprocessor_extension_behavior(x)),
    }
}

fn convert_preprocessor(pp: &glsl::syntax::Preprocessor) -> syntax::Preprocessor {
    match pp {
        glsl::syntax::Preprocessor::Version(pv) => syntax::Preprocessor::Version(
            convert_preprocessor_version(pv),
        ),
        glsl::syntax::Preprocessor::Extension(pe) => syntax::Preprocessor::Extension(
            convert_preprocessor_extension(pe),
        ),
    }
}

fn convert_external_declaration(
    ed: &glsl::syntax::ExternalDeclaration,
) -> syntax::ExternalDeclaration {
    match ed {
        glsl::syntax::ExternalDeclaration::Preprocessor(pp) => {
            syntax::ExternalDeclaration::Preprocessor(convert_preprocessor(pp))
        },
        glsl::syntax::ExternalDeclaration::FunctionDefinition(fd) => {
            syntax::ExternalDeclaration::FunctionDefinition(convert_function_definition(fd))
        },
        glsl::syntax::ExternalDeclaration::Declaration(d) => {
            syntax::ExternalDeclaration::Declaration(convert_declaration(d))
        },
    }
}

fn convert_arrayed_identifier(
    i: &(String, Option<glsl::syntax::ArraySpecifier>),
) -> syntax::ArrayedIdentifier {
    (i.0.clone(), i.1.as_ref().map(|x| convert_array_specifier(x)))
}

fn convert_translation_unit(tu: &glsl::syntax::TranslationUnit) -> syntax::TranslationUnit {
    tu.iter().map(|x| convert_external_declaration(x)).collect()
}

// ---- the parser ---------------------------------------------------------------------------------

fn parse(source: &str) -> Parsed {
    match glsl::parser::parse_str(source, glsl::parsers::translation_unit) {
        glsl::parser::ParseResult::Ok(tu) => {
            let tu = convert_translation_unit(&tu);
            assert!(names_are_identifiers(&tu));
            Ok(tu)
        },
        failure => Err(format!("{:?}", failure)),
    }
}

/// The text of a token stream, for comparison.
fn spelled(source: &str) -> String {
    let stream: proc_macro2::TokenStream = source.parse().unwrap();
    stream.to_string()
}

/// The expansion of a shader written as tokens: the parser is handed the text of the tokens, as
/// the host spells them.
fn expanded(source: &str) -> String {
    match glsl_quasiquote::glsl(&spelled(source), parse) {
        Ok(stream) => stream.to_string(),
        Err(error) => panic!("{}", error.message()),
    }
}

/// The expansion of a shader handed over as the text of a string literal.
fn expanded_str(program: &str) -> String {
    let literal = format!("\"{}\"", program);
    match glsl_str(&literal, parse) {
        Ok(stream) => stream.to_string(),
        Err(error) => panic!("{}", error.message()),
    }
}

// ---- expected code ------------------------------------------------------------------------------

fn plain_type(name: &str) -> String {
    format!(
        "glsl::syntax::TypeSpecifier {{ \
         ty: glsl::syntax::TypeSpecifierNonArray::{}, array_specifier: None }}",
        name
    )
}

fn unqualified(ty: &str) -> String {
    format!("glsl::syntax::FullySpecifiedType {{ qualifier: None, ty: {} }}", ty)
}

fn function(return_type: &str, name: &str, statements: &str) -> String {
    format!(
        "glsl::syntax::ExternalDeclaration::FunctionDefinition(\
         glsl::syntax::FunctionDefinition {{ \
         prototype: glsl::syntax::FunctionPrototype {{ \
         ty: {}, name: String::from(\"{}\"), parameters: vec![] }}, \
         statement: glsl::syntax::CompoundStatement {{ statement_list: vec![{}] }} }})",
        unqualified(&plain_type(return_type)),
        name,
        statements
    )
}

fn empty_main() -> String {
    function("Void", "main", "")
}

fn returning(expr: &str) -> String {
    format!(
        "glsl::syntax::Statement::Simple(Box::new(glsl::syntax::SimpleStatement::Jump(\
         glsl::syntax::JumpStatement::Return(Box::new({})))))",
        expr
    )
}

fn field(ty: &str, identifiers: &[&str]) -> String {
    let identifiers: Vec<String> =
        identifiers.iter().map(|i| format!("(String::from(\"{}\"), None)", i)).collect();
    format!(
        "glsl::syntax::StructFieldSpecifier {{ qualifier: None, ty: {}, identifiers: vec![{}] }}",
        plain_type(ty),
        identifiers.join(", ")
    )
}

fn struct_type(name: &str, fields: &[String]) -> String {
    format!(
        "glsl::syntax::TypeSpecifier {{ ty: glsl::syntax::TypeSpecifierNonArray::Struct(\
         glsl::syntax::StructSpecifier {{ name: Some(String::from(\"{}\")), \
         fields: vec![{}] }}), array_specifier: None }}",
        name,
        fields.join(", ")
    )
}

fn sized(n: i32) -> String {
    format!(
        "Some(glsl::syntax::ArraySpecifier::ExplicitlySized(Box::new(\
         glsl::syntax::Expr::IntConst({}i32))))",
        n
    )
}

fn declaration(ty: &str, head: Option<(&str, &str)>, tail: &[(&str, &str)]) -> String {
    let (name, array) = match head {
        Some((name, array)) => (format!("Some(String::from(\"{}\"))", name), array.to_string()),
        None => ("None".to_string(), "None".to_string()),
    };
    let tail: Vec<String> = tail
        .iter()
        .map(|(name, array)| {
            format!(
                "glsl::syntax::SingleDeclarationNoType {{ \
                 name: String::from(\"{}\"), array_specifier: {}, initializer: None }}",
                name, array
            )
        })
        .collect();
    format!(
        "glsl::syntax::ExternalDeclaration::Declaration(\
         glsl::syntax::Declaration::InitDeclaratorList(\
         glsl::syntax::InitDeclaratorList {{ \
         head: glsl::syntax::SingleDeclaration {{ \
         ty: {}, name: {}, array_specifier: {}, initializer: None }}, \
         tail: vec![{}] }}))",
        unqualified(ty),
        name,
        array,
        tail.join(", ")
    )
}

fn directive(kind: &str, fields: &str) -> String {
    format!(
        "glsl::syntax::ExternalDeclaration::Preprocessor(glsl::syntax::Preprocessor::{}(\
         glsl::syntax::Preprocessor{} {{ {} }}))",
        kind, kind, fields
    )
}

fn unit(items: &[String]) -> String {
    spelled(&format!("vec![{}]", items.join(", ")))
}

// ---- the surfaces -------------------------------------------------------------------------------

#[test]
fn void_main_empty() {
    let code = expanded("void main() {}");
    assert_eq!(code, unit(&[empty_main()]));
}

#[test]
fn void_main_empty_str() {
    let code = expanded_str("void main() {}");
    assert_eq!(code, unit(&[empty_main()]));
}

#[test]
fn understands_version() {
    let code = expanded_str(
        "
    #version 330 core
    void main() {
    }
  ",
    );
    let version = directive(
        "Version",
        "version: 330u16, profile: Some(glsl::syntax::PreprocessorVersionProfile::Core)",
    );
    assert_eq!(code, unit(&[version, empty_main()]));
}

#[test]
fn fn_returns_int() {
    let code = expanded(
        "
    int test() {
      return 3.;
    }
  ",
    );
    // the parser reads a constant without a suffix in double precision
    let three = 3.0f64.to_bits();
    assert_eq!(three, 0x4008_0000_0000_0000);
    let body = returning(&format!("glsl::syntax::Expr::DoubleConst(f64::from_bits({}u64))", three));
    assert_eq!(code, unit(&[function("Int", "test", &body)]));
}

#[test]
fn simple_struct() {
    let code = expanded(
        "
    struct V {
      vec4 p;
      vec2 uv;
    };

    struct F {
      vec4 color;
    };
  ",
    );
    let v = struct_type("V", &[field("Vec4", &["p"]), field("Vec2", &["uv"])]);
    let f = struct_type("F", &[field("Vec4", &["color"])]);
    assert_eq!(code, unit(&[declaration(&v, None, &[]), declaration(&f, None, &[])]));
}

#[test]
fn struct_several_ident_per_field() {
    let code = expanded(
        "
    struct S {
      float a, b, c;
    };
  ",
    );
    let s = struct_type("S", &[field("Float", &["a", "b", "c"])]);
    assert_eq!(code, unit(&[declaration(&s, None, &[])]));
}

#[test]
fn struct_with_identifiers() {
    let code = expanded(
        "
    struct S {
      float a, b, c;
    } foo, bar, zoo;
  ",
    );
    let s = struct_type("S", &[field("Float", &["a", "b", "c"])]);
    assert_eq!(
        code,
        unit(&[declaration(&s, Some(("foo", "None")), &[("bar", "None"), ("zoo", "None")])])
    );
}

#[test]
fn struct_with_arrayed_identifiers() {
    let code = expanded(
        "
    struct S {
      float a, b, c;
    } foo[3], bar[12], zoo[];
  ",
    );
    let s = struct_type("S", &[field("Float", &["a", "b", "c"])]);
    let three = sized(3);
    let twelve = sized(12);
    assert!(twelve.contains("12"));
    let open = "Some(glsl::syntax::ArraySpecifier::Unsized)";
    assert_eq!(
        code,
        unit(&[declaration(&s, Some(("foo", &three)), &[("bar", &twelve), ("zoo", open)])])
    );
}

#[test]
fn version_without_profile_then_main() {
    let code = expanded_str("#version 450\nvoid main() {}");
    let version = directive("Version", "version: 450u16, profile: None");
    assert_eq!(code, unit(&[version, empty_main()]));
}

#[test]
fn extension_directive() {
    let code = expanded_str("#extension all: warn\nvoid main() {}");
    let extension = directive(
        "Extension",
        "name: glsl::syntax::PreprocessorExtensionName::All, \
         behavior: Some(glsl::syntax::PreprocessorExtensionBehavior::Warn)",
    );
    assert_eq!(code, unit(&[extension, empty_main()]));
}

#[test]
fn fn_returns_single_precision() {
    let code = expanded("float half() { return 0.5f; }");
    let half = 0.5f32.to_bits();
    let body = returning(&format!("glsl::syntax::Expr::FloatConst(f32::from_bits({}u32))", half));
    assert_eq!(code, unit(&[function("Float", "half", &body)]));
}

#[test]
fn both_surfaces_agree() {
    let program = "float f(float x) { return x * 2.; }";
    assert_eq!(expanded(program), expanded_str(program));
}

#[test]
fn expansion_is_repeatable() {
    let program = "uniform vec3 light; void main() { gl_FragColor = vec4(light, 1.); }";
    assert_eq!(expanded(program), expanded(program));
}

#[test]
fn source_order_is_kept() {
    let code = expanded("void a() {} void b() {} void c() {}");
    assert_eq!(
        code,
        unit(&[function("Void", "a", ""), function("Void", "b", ""), function("Void", "c", "")])
    );
}

// ---- failures -----------------------------------------------------------------------------------

#[test]
fn invalid_shader_is_fatal() {
    let result = glsl_quasiquote::glsl("void main( {", parse);
    match result {
        Err(Error::Parse(description)) => {
            let failure = glsl::parser::parse_str("void main( {", glsl::parsers::translation_unit);
            assert_eq!(description, format!("{:?}", failure));
        },
        other => panic!("expected a parse failure, got {:?}", other.map(|s| s.to_string())),
    }
}

#[test]
fn invalid_shader_is_fatal_on_the_string_surface() {
    let result = glsl_str("\"int int int\"", parse);
    assert!(matches!(result, Err(Error::Parse(_))));
}

#[test]
fn truncated_shader_yields_nothing() {
    // the first function is well formed, the second is cut short: nothing at all is expanded
    let result = glsl_quasiquote::glsl("void main() {} void broken(", parse);
    assert!(matches!(result, Err(Error::Parse(_))));
}

#[test]
fn parse_failure_message() {
    let error = Error::Parse("unexpected end of input".to_string());
    assert_eq!(error.message(), "GLSL error: unexpected end of input");
}

#[test]
fn expand_hands_the_failure_on() {
    let result = expand(Err("no".to_string()));
    assert!(matches!(result, Err(Error::Parse(ref text)) if text == "no"));
}

#[test]
fn expand_of_an_empty_unit() {
    let result = expand(Ok(Vec::new()));
    assert_eq!(result.unwrap().to_string(), spelled("vec![]"));
}

#[test]
fn not_a_string_literal() {
    let result = glsl_str("void main() {}", parse);
    match result {
        Err(Error::Invocation(seen)) => assert_eq!(seen, "void main() {}"),
        other => panic!("expected an invocation failure, got {:?}", other.map(|s| s.to_string())),
    }
}

#[test]
fn not_a_string_literal_is_never_parsed() {
    let result = glsl_str("42", |_source: &str| -> Parsed { panic!("the parser was called") });
    assert!(matches!(result, Err(Error::Invocation(_))));
}

#[test]
fn invocation_failure_message() {
    let error = Error::Invocation("42".to_string());
    assert_eq!(
        error.message(),
        "GLSL error: incorrect macro invocation, please use a single opaque string; saw 42"
    );
}

#[test]
fn unquote_strips_both_delimiters() {
    assert_eq!(unquote("\"void main() {}\""), Ok("void main() {}"));
    assert_eq!(unquote("\"\""), Ok(""));
    assert_eq!(unquote("\"a\\nb\""), Ok("a\\nb"));
    assert_eq!(unquote("\"\u{e9}\u{4e2d}\""), Ok("\u{e9}\u{4e2d}"));
}

#[test]
fn unquote_rejects_other_shapes() {
    assert_eq!(unquote(""), Err(Error::Invocation(String::new())));
    assert_eq!(unquote("\""), Err(Error::Invocation("\"".to_string())));
    assert_eq!(unquote("\"open"), Err(Error::Invocation("\"open".to_string())));
    assert_eq!(unquote("close\""), Err(Error::Invocation("close\"".to_string())));
    assert_eq!(unquote("'c'"), Err(Error::Invocation("'c'".to_string())));
}

#[test]
fn the_parser_sees_the_interior_unchanged() {
    let program = "\n  #version 330 core\n  void main() {\n  }\n";
    let literal = format!("\"{}\"", program);
    let result = glsl_str(&literal, |source: &str| -> Parsed {
        assert_eq!(source, program);
        parse(source)
    });
    assert!(result.is_ok());
}

// ---- names --------------------------------------------------------------------------------------

#[test]
fn variables_and_named_types_are_spelled_as_identifiers() {
    let code = expanded("Light sun; void main() { sun = sun; }");
    let light = "glsl::syntax::TypeSpecifier { ty: Light, array_specifier: None }";
    let assignment = "glsl::syntax::Statement::Simple(Box::new(\
                      glsl::syntax::SimpleStatement::Expression(Some(\
                      glsl::syntax::Expr::Assignment(\
                      Box::new(glsl::syntax::Expr::Variable(sun)), \
                      glsl::syntax::AssignmentOp::Equal, \
                      Box::new(glsl::syntax::Expr::Variable(sun)))))))";
    assert_eq!(
        code,
        unit(&[
            declaration(light, Some(("sun", "None")), &[]),
            function("Void", "main", assignment)
        ])
    );
}

#[test]
fn names_of_a_parsed_shader_are_identifiers() {
    let parsed = parse("uniform vec3 light; void main() { gl_FragColor = vec4(light, 1.); }");
    assert!(names_are_identifiers(&parsed.unwrap()));
}

#[test]
fn names_that_are_no_identifiers_are_found() {
    let well = vec![syntax::ExternalDeclaration::Declaration(syntax::Declaration::Global(
        syntax::TypeQualifier { qualifiers: vec![syntax::TypeQualifierSpec::Invariant] },
        vec!["a".to_string(), "_b1".to_string()],
    ))];
    assert!(names_are_identifiers(&well));
    for odd in ["", "1a", "a b", "a-b", "a.b", "\u{e9}"] {
        let ill = vec![syntax::ExternalDeclaration::Declaration(syntax::Declaration::Global(
            syntax::TypeQualifier { qualifiers: vec![syntax::TypeQualifierSpec::Invariant] },
            vec!["a".to_string(), odd.to_string()],
        ))];
        assert!(!names_are_identifiers(&ill), "{:?}", odd);
    }
    assert!(names_are_identifiers(&Vec::new()));
}

// ---- the string surface, from its tokens --------------------------------------------------------

fn literal(text: &str) -> (TokenKind, String) {
    (TokenKind::Literal, text.to_string())
}

fn other(text: &str) -> (TokenKind, String) {
    (TokenKind::Other, text.to_string())
}

fn seen_by(tokens: Vec<(TokenKind, String)>) -> String {
    let result = glsl_str_tokens(&tokens, |_source: &str| -> Parsed {
        panic!("the parser was called")
    });
    match result {
        Err(Error::Invocation(seen)) => seen,
        other => panic!("expected an invocation failure, got {:?}", other.map(|s| s.to_string())),
    }
}

#[test]
fn one_string_literal_is_expanded() {
    let tokens = vec![literal("\"void main() {}\"")];
    let code = glsl_str_tokens(&tokens, parse).unwrap().to_string();
    assert_eq!(code, unit(&[empty_main()]));
    assert_eq!(code, expanded_str("void main() {}"));
}

#[test]
fn no_token_is_an_incorrect_invocation() {
    assert_eq!(seen_by(vec![]), "");
}

#[test]
fn a_token_that_is_no_literal_is_an_incorrect_invocation() {
    assert_eq!(seen_by(vec![other("main")]), "main");
    assert_eq!(seen_by(vec![other("\"void main() {}\"")]), "\"void main() {}\"");
}

#[test]
fn a_literal_that_is_no_string_is_an_incorrect_invocation() {
    assert_eq!(seen_by(vec![literal("42")]), "42");
    assert_eq!(seen_by(vec![literal("'c'")]), "'c'");
}

#[test]
fn tokens_after_the_literal_are_an_incorrect_invocation() {
    assert_eq!(
        seen_by(vec![literal("\"void main() {}\""), other(","), literal("\"\"")]),
        "\"void main() {}\" , \"\""
    );
    assert_eq!(seen_by(vec![other("a"), other("b")]), "a b");
}

#[test]
fn a_failure_of_the_parser_passes_through_the_tokens() {
    let result = glsl_str_tokens(&vec![literal("\"int int int\"")], parse);
    assert!(matches!(result, Err(Error::Parse(_))));
}
