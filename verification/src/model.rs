//! Mathematical models of the syntax tree.
//!
//! Each type of the tree has a model in which strings are sequences of characters and vectors
//! are sequences of models. Contracts speak of trees through these models: two trees with the
//! same model are the same shader. A type that holds neither a string nor a vector is its own
//! model.

use vstd::prelude::*;
use crate::syntax::{
    ArraySpecifier, ArrayedIdentifier, AssignmentOp, BinaryOp, Block, CaseLabel,
    CompoundStatement, Condition, Declaration, Expr, ExprStatement, ExternalDeclaration,
    ForInitStatement, ForRestStatement, FullySpecifiedType, FunIdentifier, FunctionDefinition,
    FunctionParameterDeclaration, FunctionParameterDeclarator, FunctionPrototype, Identifier,
    InitDeclaratorList, Initializer, InterpolationQualifier, IterationStatement, JumpStatement,
    LayoutQualifier, LayoutQualifierSpec, PrecisionQualifier, Preprocessor, PreprocessorExtension,
    PreprocessorExtensionBehavior, PreprocessorExtensionName, PreprocessorVersion,
    PreprocessorVersionProfile, SelectionRestStatement, SelectionStatement, SimpleStatement,
    SingleDeclaration, SingleDeclarationNoType, Statement, StorageQualifier, StructFieldSpecifier,
    StructSpecifier, SwitchStatement, TranslationUnit, TypeName, TypeQualifier, TypeQualifierSpec,
    TypeSpecifier, TypeSpecifierNonArray, UnaryOp,
};

verus! {

/// The model of an arrayed identifier.
pub type SpecArrayedIdentifier = (Seq<char>, Option<SpecArraySpecifier>);

/// The model of an expression statement.
pub type SpecExprStatement = Option<SpecExpr>;

/// The model of a whole shader.
pub type SpecTranslationUnit = Seq<SpecExternalDeclaration>;

/// The model of [`Expr`].
pub enum SpecExpr {
    Variable(Seq<char>),
    IntConst(i32),
    UIntConst(u32),
    BoolConst(bool),
    FloatConst(u32),
    DoubleConst(u64),
    Unary(UnaryOp, Box<SpecExpr>),
    Binary(BinaryOp, Box<SpecExpr>, Box<SpecExpr>),
    Ternary(Box<SpecExpr>, Box<SpecExpr>, Box<SpecExpr>),
    Assignment(Box<SpecExpr>, AssignmentOp, Box<SpecExpr>),
    Bracket(Box<SpecExpr>, SpecArraySpecifier),
    FunCall(SpecFunIdentifier, Seq<SpecExpr>),
    Dot(Box<SpecExpr>, Seq<char>),
    PostInc(Box<SpecExpr>),
    PostDec(Box<SpecExpr>),
    Comma(Box<SpecExpr>, Box<SpecExpr>),
}

/// The model of [`ArraySpecifier`].
pub enum SpecArraySpecifier {
    Unsized,
    ExplicitlySized(Box<SpecExpr>),
}

/// The model of [`FunIdentifier`].
pub enum SpecFunIdentifier {
    Identifier(Seq<char>),
    Expr(Box<SpecExpr>),
}

/// The model of [`StorageQualifier`].
pub enum SpecStorageQualifier {
    Const,
    InOut,
    In,
    Out,
    Centroid,
    Patch,
    Sample,
    Uniform,
    Buffer,
    Shared,
    Coherent,
    Volatile,
    Restrict,
    ReadOnly,
    WriteOnly,
    Subroutine(Seq<Seq<char>>),
}

/// The model of [`LayoutQualifierSpec`].
pub enum SpecLayoutQualifierSpec {
    Identifier(Seq<char>, Option<Box<SpecExpr>>),
    Shared,
}

/// The model of [`LayoutQualifier`].
pub struct SpecLayoutQualifier {
    pub ids: Seq<SpecLayoutQualifierSpec>,
}

/// The model of [`TypeQualifierSpec`].
pub enum SpecTypeQualifierSpec {
    Storage(SpecStorageQualifier),
    Layout(SpecLayoutQualifier),
    Precision(PrecisionQualifier),
    Interpolation(InterpolationQualifier),
    Invariant,
    Precise,
}

/// The model of [`TypeQualifier`].
pub struct SpecTypeQualifier {
    pub qualifiers: Seq<SpecTypeQualifierSpec>,
}

/// The model of [`TypeSpecifierNonArray`].
pub enum SpecTypeSpecifierNonArray {
    Void,
    Bool,
    Int,
    UInt,
    Float,
    Double,
    Vec2,
    Vec3,
    Vec4,
    DVec2,
    DVec3,
    DVec4,
    BVec2,
    BVec3,
    BVec4,
    IVec2,
    IVec3,
    IVec4,
    UVec2,
    UVec3,
    UVec4,
    Mat2,
    Mat3,
    Mat4,
    Mat23,
    Mat24,
    Mat32,
    Mat34,
    Mat42,
    Mat43,
    DMat2,
    DMat3,
    DMat4,
    DMat23,
    DMat24,
    DMat32,
    DMat34,
    DMat42,
    DMat43,
    Sampler1D,
    Image1D,
    Sampler2D,
    Image2D,
    Sampler3D,
    Image3D,
    SamplerCube,
    ImageCube,
    Sampler2DRect,
    Image2DRect,
    Sampler1DArray,
    Image1DArray,
    Sampler2DArray,
    Image2DArray,
    SamplerBuffer,
    ImageBuffer,
    Sampler2DMS,
    Image2DMS,
    Sampler2DMSArray,
    Image2DMSArray,
    SamplerCubeArray,
    ImageCubeArray,
    Sampler1DShadow,
    Sampler2DShadow,
    Sampler2DRectShadow,
    Sampler1DArrayShadow,
    Sampler2DArrayShadow,
    SamplerCubeShadow,
    SamplerCubeArrayShadow,
    ISampler1D,
    IImage1D,
    ISampler2D,
    IImage2D,
    ISampler3D,
    IImage3D,
    ISamplerCube,
    IImageCube,
    ISampler2DRect,
    IImage2DRect,
    ISampler1DArray,
    IImage1DArray,
    ISampler2DArray,
    IImage2DArray,
    ISamplerBuffer,
    IImageBuffer,
    ISampler2DMS,
    IImage2DMS,
    ISampler2DMSArray,
    IImage2DMSArray,
    ISamplerCubeArray,
    IImageCubeArray,
    AtomicUInt,
    USampler1D,
    UImage1D,
    USampler2D,
    UImage2D,
    USampler3D,
    UImage3D,
    USamplerCube,
    UImageCube,
    USampler2DRect,
    UImage2DRect,
    USampler1DArray,
    UImage1DArray,
    USampler2DArray,
    UImage2DArray,
    USamplerBuffer,
    UImageBuffer,
    USampler2DMS,
    UImage2DMS,
    USampler2DMSArray,
    UImage2DMSArray,
    USamplerCubeArray,
    UImageCubeArray,
    Struct(SpecStructSpecifier),
    TypeName(Seq<char>),
}

/// The model of [`TypeSpecifier`].
pub struct SpecTypeSpecifier {
    pub ty: SpecTypeSpecifierNonArray,
    pub array_specifier: Option<SpecArraySpecifier>,
}

/// The model of [`StructSpecifier`].
pub struct SpecStructSpecifier {
    pub name: Option<Seq<char>>,
    pub fields: Seq<SpecStructFieldSpecifier>,
}

/// The model of [`StructFieldSpecifier`].
pub struct SpecStructFieldSpecifier {
    pub qualifier: Option<SpecTypeQualifier>,
    pub ty: SpecTypeSpecifier,
    pub identifiers: Seq<SpecArrayedIdentifier>,
}

/// The model of [`FullySpecifiedType`].
pub struct SpecFullySpecifiedType {
    pub qualifier: Option<SpecTypeQualifier>,
    pub ty: SpecTypeSpecifier,
}

/// The model of [`Initializer`].
pub enum SpecInitializer {
    Simple(Box<SpecExpr>),
    List(Seq<SpecInitializer>),
}

/// The model of [`SingleDeclaration`].
pub struct SpecSingleDeclaration {
    pub ty: SpecFullySpecifiedType,
    pub name: Option<Seq<char>>,
    pub array_specifier: Option<SpecArraySpecifier>,
    pub initializer: Option<SpecInitializer>,
}

/// The model of [`SingleDeclarationNoType`].
pub struct SpecSingleDeclarationNoType {
    pub name: Seq<char>,
    pub array_specifier: Option<SpecArraySpecifier>,
    pub initializer: Option<SpecInitializer>,
}

/// The model of [`InitDeclaratorList`].
pub struct SpecInitDeclaratorList {
    pub head: SpecSingleDeclaration,
    pub tail: Seq<SpecSingleDeclarationNoType>,
}

/// The model of [`FunctionParameterDeclarator`].
pub struct SpecFunctionParameterDeclarator {
    pub ty: SpecTypeSpecifier,
    pub name: Seq<char>,
    pub array_spec: Option<SpecArraySpecifier>,
}

/// The model of [`FunctionParameterDeclaration`].
pub enum SpecFunctionParameterDeclaration {
    Named(Option<SpecTypeQualifier>, SpecFunctionParameterDeclarator),
    Unnamed(Option<SpecTypeQualifier>, SpecTypeSpecifier),
}

/// The model of [`FunctionPrototype`].
pub struct SpecFunctionPrototype {
    pub ty: SpecFullySpecifiedType,
    pub name: Seq<char>,
    pub parameters: Seq<SpecFunctionParameterDeclaration>,
}

/// The model of [`Block`].
pub struct SpecBlock {
    pub qualifier: SpecTypeQualifier,
    pub name: Seq<char>,
    pub fields: Seq<SpecStructFieldSpecifier>,
    pub identifier: Option<SpecArrayedIdentifier>,
}

/// The model of [`Declaration`].
pub enum SpecDeclaration {
    FunctionPrototype(SpecFunctionPrototype),
    InitDeclaratorList(SpecInitDeclaratorList),
    Precision(PrecisionQualifier, SpecTypeSpecifier),
    Block(SpecBlock),
    Global(SpecTypeQualifier, Seq<Seq<char>>),
}

/// The model of [`Condition`].
pub enum SpecCondition {
    Expr(Box<SpecExpr>),
    Assignment(SpecFullySpecifiedType, Seq<char>, SpecInitializer),
}

/// The model of [`CaseLabel`].
pub enum SpecCaseLabel {
    Case(Box<SpecExpr>),
    Def,
}

/// The model of [`JumpStatement`].
pub enum SpecJumpStatement {
    Continue,
    Break,
    Return(Box<SpecExpr>),
    Discard,
}

/// The model of [`ForInitStatement`].
pub enum SpecForInitStatement {
    Expression(Option<SpecExpr>),
    Declaration(Box<SpecDeclaration>),
}

/// The model of [`ForRestStatement`].
pub struct SpecForRestStatement {
    pub condition: Option<SpecCondition>,
    pub post_expr: Option<Box<SpecExpr>>,
}

/// The model of [`CompoundStatement`].
pub struct SpecCompoundStatement {
    pub statement_list: Seq<SpecStatement>,
}

/// The model of [`Statement`].
pub enum SpecStatement {
    Compound(Box<SpecCompoundStatement>),
    Simple(Box<SpecSimpleStatement>),
}

/// The model of [`SimpleStatement`].
pub enum SpecSimpleStatement {
    Declaration(SpecDeclaration),
    Expression(SpecExprStatement),
    Selection(SpecSelectionStatement),
    Switch(SpecSwitchStatement),
    CaseLabel(SpecCaseLabel),
    Iteration(SpecIterationStatement),
    Jump(SpecJumpStatement),
}

/// The model of [`SelectionStatement`].
pub struct SpecSelectionStatement {
    pub cond: Box<SpecExpr>,
    pub rest: SpecSelectionRestStatement,
}

/// The model of [`SelectionRestStatement`].
pub enum SpecSelectionRestStatement {
    Statement(Box<SpecStatement>),
    Else(Box<SpecStatement>, Box<SpecStatement>),
}

/// The model of [`SwitchStatement`].
pub struct SpecSwitchStatement {
    pub head: Box<SpecExpr>,
    pub body: Seq<SpecStatement>,
}

/// The model of [`IterationStatement`].
pub enum SpecIterationStatement {
    While(SpecCondition, Box<SpecStatement>),
    DoWhile(Box<SpecStatement>, Box<SpecExpr>),
    For(SpecForInitStatement, SpecForRestStatement, Box<SpecStatement>),
}

/// The model of [`FunctionDefinition`].
pub struct SpecFunctionDefinition {
    pub prototype: SpecFunctionPrototype,
    pub statement: SpecCompoundStatement,
}

/// The model of [`PreprocessorExtensionName`].
pub enum SpecPreprocessorExtensionName {
    All,
    Specific(Seq<char>),
}

/// The model of [`PreprocessorExtension`].
pub struct SpecPreprocessorExtension {
    pub name: SpecPreprocessorExtensionName,
    pub behavior: Option<PreprocessorExtensionBehavior>,
}

/// The model of [`Preprocessor`].
pub enum SpecPreprocessor {
    Version(PreprocessorVersion),
    Extension(SpecPreprocessorExtension),
}

/// The model of [`ExternalDeclaration`].
pub enum SpecExternalDeclaration {
    Preprocessor(SpecPreprocessor),
    FunctionDefinition(SpecFunctionDefinition),
    Declaration(SpecDeclaration),
}

impl View for UnaryOp {
    type V = UnaryOp;

    open spec fn view(&self) -> UnaryOp {
        *self
    }
}

impl View for BinaryOp {
    type V = BinaryOp;

    open spec fn view(&self) -> BinaryOp {
        *self
    }
}

impl View for AssignmentOp {
    type V = AssignmentOp;

    open spec fn view(&self) -> AssignmentOp {
        *self
    }
}

/// The model of an expression.
pub open spec fn expr_view(expr: Expr) -> SpecExpr
    decreases expr,
{
    match expr {
        Expr::Variable(i) => SpecExpr::Variable(i@),
        Expr::IntConst(x) => SpecExpr::IntConst(x),
        Expr::UIntConst(x) => SpecExpr::UIntConst(x),
        Expr::BoolConst(x) => SpecExpr::BoolConst(x),
        Expr::FloatConst(x) => SpecExpr::FloatConst(x),
        Expr::DoubleConst(x) => SpecExpr::DoubleConst(x),
        Expr::Unary(op, e) => SpecExpr::Unary(op, Box::new(expr_view(*e))),
        Expr::Binary(op, l, r) => SpecExpr::Binary(
            op,
            Box::new(expr_view(*l)),
            Box::new(expr_view(*r)),
        ),
        Expr::Ternary(c, s, e) => SpecExpr::Ternary(
            Box::new(expr_view(*c)),
            Box::new(expr_view(*s)),
            Box::new(expr_view(*e)),
        ),
        Expr::Assignment(v, op, e) => SpecExpr::Assignment(
            Box::new(expr_view(*v)),
            op,
            Box::new(expr_view(*e)),
        ),
        Expr::Bracket(e, a) => SpecExpr::Bracket(Box::new(expr_view(*e)), array_specifier_view(a)),
        Expr::FunCall(fun, args) => SpecExpr::FunCall(fun_identifier_view(fun), exprs_view(args)),
        Expr::Dot(e, i) => SpecExpr::Dot(Box::new(expr_view(*e)), i@),
        Expr::PostInc(e) => SpecExpr::PostInc(Box::new(expr_view(*e))),
        Expr::PostDec(e) => SpecExpr::PostDec(Box::new(expr_view(*e))),
        Expr::Comma(a, b) => SpecExpr::Comma(Box::new(expr_view(*a)), Box::new(expr_view(*b))),
    }
}

impl View for Expr {
    type V = SpecExpr;

    open spec fn view(&self) -> SpecExpr {
        expr_view(*self)
    }
}

/// The models of a vector of expressions, in the order of the vector.
pub open spec fn exprs_view(v: Vec<Expr>) -> Seq<SpecExpr>
    decreases v,
{
    Seq::new(
        v@.len(),
        |i: int|
            if 0 <= i < v@.len() {
                expr_view(v@[i])
            } else {
                arbitrary()
            },
    )
}

/// The model of an array specifier.
pub open spec fn array_specifier_view(a: ArraySpecifier) -> SpecArraySpecifier
    decreases a,
{
    match a {
        ArraySpecifier::Unsized => SpecArraySpecifier::Unsized,
        ArraySpecifier::ExplicitlySized(e) => SpecArraySpecifier::ExplicitlySized(
            Box::new(expr_view(*e)),
        ),
    }
}

impl View for ArraySpecifier {
    type V = SpecArraySpecifier;

    open spec fn view(&self) -> SpecArraySpecifier {
        array_specifier_view(*self)
    }
}

/// The model of an arrayed identifier.
pub open spec fn arrayed_identifier_view(i: ArrayedIdentifier) -> SpecArrayedIdentifier {
    (
        i.0@,
        match i.1 {
            Some(x) => Some(array_specifier_view(x)),
            None => None,
        },
    )
}

/// The models of a vector of arrayed identifiers, in the order of the vector.
pub open spec fn arrayed_identifiers_view(v: Vec<ArrayedIdentifier>) -> Seq<SpecArrayedIdentifier> {
    Seq::new(
        v@.len(),
        |i: int|
            if 0 <= i < v@.len() {
                arrayed_identifier_view(v@[i])
            } else {
                arbitrary()
            },
    )
}

/// The model of a function identifier.
pub open spec fn fun_identifier_view(i: FunIdentifier) -> SpecFunIdentifier
    decreases i,
{
    match i {
        FunIdentifier::Identifier(n) => SpecFunIdentifier::Identifier(n@),
        FunIdentifier::Expr(e) => SpecFunIdentifier::Expr(Box::new(expr_view(*e))),
    }
}

impl View for FunIdentifier {
    type V = SpecFunIdentifier;

    open spec fn view(&self) -> SpecFunIdentifier {
        fun_identifier_view(*self)
    }
}

/// The model of an expression statement.
pub open spec fn expr_statement_view(est: ExprStatement) -> SpecExprStatement {
    match est {
        Some(x) => Some(expr_view(x)),
        None => None,
    }
}

impl View for PrecisionQualifier {
    type V = PrecisionQualifier;

    open spec fn view(&self) -> PrecisionQualifier {
        *self
    }
}

impl View for InterpolationQualifier {
    type V = InterpolationQualifier;

    open spec fn view(&self) -> InterpolationQualifier {
        *self
    }
}

/// The model of a storage qualifier.
pub open spec fn storage_qualifier_view(q: StorageQualifier) -> SpecStorageQualifier {
    match q {
        StorageQualifier::Const => SpecStorageQualifier::Const,
        StorageQualifier::InOut => SpecStorageQualifier::InOut,
        StorageQualifier::In => SpecStorageQualifier::In,
        StorageQualifier::Out => SpecStorageQualifier::Out,
        StorageQualifier::Centroid => SpecStorageQualifier::Centroid,
        StorageQualifier::Patch => SpecStorageQualifier::Patch,
        StorageQualifier::Sample => SpecStorageQualifier::Sample,
        StorageQualifier::Uniform => SpecStorageQualifier::Uniform,
        StorageQualifier::Buffer => SpecStorageQualifier::Buffer,
        StorageQualifier::Shared => SpecStorageQualifier::Shared,
        StorageQualifier::Coherent => SpecStorageQualifier::Coherent,
        StorageQualifier::Volatile => SpecStorageQualifier::Volatile,
        StorageQualifier::Restrict => SpecStorageQualifier::Restrict,
        StorageQualifier::ReadOnly => SpecStorageQualifier::ReadOnly,
        StorageQualifier::WriteOnly => SpecStorageQualifier::WriteOnly,
        StorageQualifier::Subroutine(n) => SpecStorageQualifier::Subroutine(type_names_view(n)),
    }
}

impl View for StorageQualifier {
    type V = SpecStorageQualifier;

    open spec fn view(&self) -> SpecStorageQualifier {
        storage_qualifier_view(*self)
    }
}

/// The model of a layout qualifier entry.
pub open spec fn layout_qualifier_spec_view(l: LayoutQualifierSpec) -> SpecLayoutQualifierSpec {
    match l {
        LayoutQualifierSpec::Identifier(i, e) => SpecLayoutQualifierSpec::Identifier(
            i@,
            match e {
                Some(x) => Some(Box::new(expr_view(*x))),
                None => None,
            },
        ),
        LayoutQualifierSpec::Shared => SpecLayoutQualifierSpec::Shared,
    }
}

impl View for LayoutQualifierSpec {
    type V = SpecLayoutQualifierSpec;

    open spec fn view(&self) -> SpecLayoutQualifierSpec {
        layout_qualifier_spec_view(*self)
    }
}

/// The models of a vector of layout entries, in the order of the vector.
pub open spec fn layout_qualifier_specs_view(
    v: Vec<LayoutQualifierSpec>,
) -> Seq<SpecLayoutQualifierSpec> {
    Seq::new(
        v@.len(),
        |i: int|
            if 0 <= i < v@.len() {
                layout_qualifier_spec_view(v@[i])
            } else {
                arbitrary()
            },
    )
}

/// The model of a layout qualifier.
pub open spec fn layout_qualifier_view(l: LayoutQualifier) -> SpecLayoutQualifier {
    SpecLayoutQualifier {
        ids: layout_qualifier_specs_view(l.ids),
    }
}

impl View for LayoutQualifier {
    type V = SpecLayoutQualifier;

    open spec fn view(&self) -> SpecLayoutQualifier {
        layout_qualifier_view(*self)
    }
}

/// The model of a type qualifier entry.
pub open spec fn type_qualifier_spec_view(q: TypeQualifierSpec) -> SpecTypeQualifierSpec {
    match q {
        TypeQualifierSpec::Storage(s) => SpecTypeQualifierSpec::Storage(storage_qualifier_view(s)),
        TypeQualifierSpec::Layout(l) => SpecTypeQualifierSpec::Layout(layout_qualifier_view(l)),
        TypeQualifierSpec::Precision(p) => SpecTypeQualifierSpec::Precision(p),
        TypeQualifierSpec::Interpolation(i) => SpecTypeQualifierSpec::Interpolation(i),
        TypeQualifierSpec::Invariant => SpecTypeQualifierSpec::Invariant,
        TypeQualifierSpec::Precise => SpecTypeQualifierSpec::Precise,
    }
}

impl View for TypeQualifierSpec {
    type V = SpecTypeQualifierSpec;

    open spec fn view(&self) -> SpecTypeQualifierSpec {
        type_qualifier_spec_view(*self)
    }
}

/// The models of a vector of qualifier entries, in the order of the vector.
pub open spec fn type_qualifier_specs_view(
    v: Vec<TypeQualifierSpec>,
) -> Seq<SpecTypeQualifierSpec> {
    Seq::new(
        v@.len(),
        |i: int|
            if 0 <= i < v@.len() {
                type_qualifier_spec_view(v@[i])
            } else {
                arbitrary()
            },
    )
}

/// The model of a type qualifier.
pub open spec fn type_qualifier_view(q: TypeQualifier) -> SpecTypeQualifier {
    SpecTypeQualifier {
        qualifiers: type_qualifier_specs_view(q.qualifiers),
    }
}

impl View for TypeQualifier {
    type V = SpecTypeQualifier;

    open spec fn view(&self) -> SpecTypeQualifier {
        type_qualifier_view(*self)
    }
}

/// The model of a non-array type specifier.
pub open spec fn type_specifier_non_array_view(
    t: TypeSpecifierNonArray,
) -> SpecTypeSpecifierNonArray
    decreases t,
{
    match t {
        TypeSpecifierNonArray::Void => SpecTypeSpecifierNonArray::Void,
        TypeSpecifierNonArray::Bool => SpecTypeSpecifierNonArray::Bool,
        TypeSpecifierNonArray::Int => SpecTypeSpecifierNonArray::Int,
        TypeSpecifierNonArray::UInt => SpecTypeSpecifierNonArray::UInt,
        TypeSpecifierNonArray::Float => SpecTypeSpecifierNonArray::Float,
        TypeSpecifierNonArray::Double => SpecTypeSpecifierNonArray::Double,
        TypeSpecifierNonArray::Vec2 => SpecTypeSpecifierNonArray::Vec2,
        TypeSpecifierNonArray::Vec3 => SpecTypeSpecifierNonArray::Vec3,
        TypeSpecifierNonArray::Vec4 => SpecTypeSpecifierNonArray::Vec4,
        TypeSpecifierNonArray::DVec2 => SpecTypeSpecifierNonArray::DVec2,
        TypeSpecifierNonArray::DVec3 => SpecTypeSpecifierNonArray::DVec3,
        TypeSpecifierNonArray::DVec4 => SpecTypeSpecifierNonArray::DVec4,
        TypeSpecifierNonArray::BVec2 => SpecTypeSpecifierNonArray::BVec2,
        TypeSpecifierNonArray::BVec3 => SpecTypeSpecifierNonArray::BVec3,
        TypeSpecifierNonArray::BVec4 => SpecTypeSpecifierNonArray::BVec4,
        TypeSpecifierNonArray::IVec2 => SpecTypeSpecifierNonArray::IVec2,
        TypeSpecifierNonArray::IVec3 => SpecTypeSpecifierNonArray::IVec3,
        TypeSpecifierNonArray::IVec4 => SpecTypeSpecifierNonArray::IVec4,
        TypeSpecifierNonArray::UVec2 => SpecTypeSpecifierNonArray::UVec2,
        TypeSpecifierNonArray::UVec3 => SpecTypeSpecifierNonArray::UVec3,
        TypeSpecifierNonArray::UVec4 => SpecTypeSpecifierNonArray::UVec4,
        TypeSpecifierNonArray::Mat2 => SpecTypeSpecifierNonArray::Mat2,
        TypeSpecifierNonArray::Mat3 => SpecTypeSpecifierNonArray::Mat3,
        TypeSpecifierNonArray::Mat4 => SpecTypeSpecifierNonArray::Mat4,
        TypeSpecifierNonArray::Mat23 => SpecTypeSpecifierNonArray::Mat23,
        TypeSpecifierNonArray::Mat24 => SpecTypeSpecifierNonArray::Mat24,
        TypeSpecifierNonArray::Mat32 => SpecTypeSpecifierNonArray::Mat32,
        TypeSpecifierNonArray::Mat34 => SpecTypeSpecifierNonArray::Mat34,
        TypeSpecifierNonArray::Mat42 => SpecTypeSpecifierNonArray::Mat42,
        TypeSpecifierNonArray::Mat43 => SpecTypeSpecifierNonArray::Mat43,
        TypeSpecifierNonArray::DMat2 => SpecTypeSpecifierNonArray::DMat2,
        TypeSpecifierNonArray::DMat3 => SpecTypeSpecifierNonArray::DMat3,
        TypeSpecifierNonArray::DMat4 => SpecTypeSpecifierNonArray::DMat4,
        TypeSpecifierNonArray::DMat23 => SpecTypeSpecifierNonArray::DMat23,
        TypeSpecifierNonArray::DMat24 => SpecTypeSpecifierNonArray::DMat24,
        TypeSpecifierNonArray::DMat32 => SpecTypeSpecifierNonArray::DMat32,
        TypeSpecifierNonArray::DMat34 => SpecTypeSpecifierNonArray::DMat34,
        TypeSpecifierNonArray::DMat42 => SpecTypeSpecifierNonArray::DMat42,
        TypeSpecifierNonArray::DMat43 => SpecTypeSpecifierNonArray::DMat43,
        TypeSpecifierNonArray::Sampler1D => SpecTypeSpecifierNonArray::Sampler1D,
        TypeSpecifierNonArray::Image1D => SpecTypeSpecifierNonArray::Image1D,
        TypeSpecifierNonArray::Sampler2D => SpecTypeSpecifierNonArray::Sampler2D,
        TypeSpecifierNonArray::Image2D => SpecTypeSpecifierNonArray::Image2D,
        TypeSpecifierNonArray::Sampler3D => SpecTypeSpecifierNonArray::Sampler3D,
        TypeSpecifierNonArray::Image3D => SpecTypeSpecifierNonArray::Image3D,
        TypeSpecifierNonArray::SamplerCube => SpecTypeSpecifierNonArray::SamplerCube,
        TypeSpecifierNonArray::ImageCube => SpecTypeSpecifierNonArray::ImageCube,
        TypeSpecifierNonArray::Sampler2DRect => SpecTypeSpecifierNonArray::Sampler2DRect,
        TypeSpecifierNonArray::Image2DRect => SpecTypeSpecifierNonArray::Image2DRect,
        TypeSpecifierNonArray::Sampler1DArray => SpecTypeSpecifierNonArray::Sampler1DArray,
        TypeSpecifierNonArray::Image1DArray => SpecTypeSpecifierNonArray::Image1DArray,
        TypeSpecifierNonArray::Sampler2DArray => SpecTypeSpecifierNonArray::Sampler2DArray,
        TypeSpecifierNonArray::Image2DArray => SpecTypeSpecifierNonArray::Image2DArray,
        TypeSpecifierNonArray::SamplerBuffer => SpecTypeSpecifierNonArray::SamplerBuffer,
        TypeSpecifierNonArray::ImageBuffer => SpecTypeSpecifierNonArray::ImageBuffer,
        TypeSpecifierNonArray::Sampler2DMS => SpecTypeSpecifierNonArray::Sampler2DMS,
        TypeSpecifierNonArray::Image2DMS => SpecTypeSpecifierNonArray::Image2DMS,
        TypeSpecifierNonArray::Sampler2DMSArray => SpecTypeSpecifierNonArray::Sampler2DMSArray,
        TypeSpecifierNonArray::Image2DMSArray => SpecTypeSpecifierNonArray::Image2DMSArray,
        TypeSpecifierNonArray::SamplerCubeArray => SpecTypeSpecifierNonArray::SamplerCubeArray,
        TypeSpecifierNonArray::ImageCubeArray => SpecTypeSpecifierNonArray::ImageCubeArray,
        TypeSpecifierNonArray::Sampler1DShadow => SpecTypeSpecifierNonArray::Sampler1DShadow,
        TypeSpecifierNonArray::Sampler2DShadow => SpecTypeSpecifierNonArray::Sampler2DShadow,
        TypeSpecifierNonArray::Sampler2DRectShadow => {
            SpecTypeSpecifierNonArray::Sampler2DRectShadow
        },
        TypeSpecifierNonArray::Sampler1DArrayShadow => {
            SpecTypeSpecifierNonArray::Sampler1DArrayShadow
        },
        TypeSpecifierNonArray::Sampler2DArrayShadow => {
            SpecTypeSpecifierNonArray::Sampler2DArrayShadow
        },
        TypeSpecifierNonArray::SamplerCubeShadow => SpecTypeSpecifierNonArray::SamplerCubeShadow,
        TypeSpecifierNonArray::SamplerCubeArrayShadow => {
            SpecTypeSpecifierNonArray::SamplerCubeArrayShadow
        },
        TypeSpecifierNonArray::ISampler1D => SpecTypeSpecifierNonArray::ISampler1D,
        TypeSpecifierNonArray::IImage1D => SpecTypeSpecifierNonArray::IImage1D,
        TypeSpecifierNonArray::ISampler2D => SpecTypeSpecifierNonArray::ISampler2D,
        TypeSpecifierNonArray::IImage2D => SpecTypeSpecifierNonArray::IImage2D,
        TypeSpecifierNonArray::ISampler3D => SpecTypeSpecifierNonArray::ISampler3D,
        TypeSpecifierNonArray::IImage3D => SpecTypeSpecifierNonArray::IImage3D,
        TypeSpecifierNonArray::ISamplerCube => SpecTypeSpecifierNonArray::ISamplerCube,
        TypeSpecifierNonArray::IImageCube => SpecTypeSpecifierNonArray::IImageCube,
        TypeSpecifierNonArray::ISampler2DRect => SpecTypeSpecifierNonArray::ISampler2DRect,
        TypeSpecifierNonArray::IImage2DRect => SpecTypeSpecifierNonArray::IImage2DRect,
        TypeSpecifierNonArray::ISampler1DArray => SpecTypeSpecifierNonArray::ISampler1DArray,
        TypeSpecifierNonArray::IImage1DArray => SpecTypeSpecifierNonArray::IImage1DArray,
        TypeSpecifierNonArray::ISampler2DArray => SpecTypeSpecifierNonArray::ISampler2DArray,
        TypeSpecifierNonArray::IImage2DArray => SpecTypeSpecifierNonArray::IImage2DArray,
        TypeSpecifierNonArray::ISamplerBuffer => SpecTypeSpecifierNonArray::ISamplerBuffer,
        TypeSpecifierNonArray::IImageBuffer => SpecTypeSpecifierNonArray::IImageBuffer,
        TypeSpecifierNonArray::ISampler2DMS => SpecTypeSpecifierNonArray::ISampler2DMS,
        TypeSpecifierNonArray::IImage2DMS => SpecTypeSpecifierNonArray::IImage2DMS,
        TypeSpecifierNonArray::ISampler2DMSArray => SpecTypeSpecifierNonArray::ISampler2DMSArray,
        TypeSpecifierNonArray::IImage2DMSArray => SpecTypeSpecifierNonArray::IImage2DMSArray,
        TypeSpecifierNonArray::ISamplerCubeArray => SpecTypeSpecifierNonArray::ISamplerCubeArray,
        TypeSpecifierNonArray::IImageCubeArray => SpecTypeSpecifierNonArray::IImageCubeArray,
        TypeSpecifierNonArray::AtomicUInt => SpecTypeSpecifierNonArray::AtomicUInt,
        TypeSpecifierNonArray::USampler1D => SpecTypeSpecifierNonArray::USampler1D,
        TypeSpecifierNonArray::UImage1D => SpecTypeSpecifierNonArray::UImage1D,
        TypeSpecifierNonArray::USampler2D => SpecTypeSpecifierNonArray::USampler2D,
        TypeSpecifierNonArray::UImage2D => SpecTypeSpecifierNonArray::UImage2D,
        TypeSpecifierNonArray::USampler3D => SpecTypeSpecifierNonArray::USampler3D,
        TypeSpecifierNonArray::UImage3D => SpecTypeSpecifierNonArray::UImage3D,
        TypeSpecifierNonArray::USamplerCube => SpecTypeSpecifierNonArray::USamplerCube,
        TypeSpecifierNonArray::UImageCube => SpecTypeSpecifierNonArray::UImageCube,
        TypeSpecifierNonArray::USampler2DRect => SpecTypeSpecifierNonArray::USampler2DRect,
        TypeSpecifierNonArray::UImage2DRect => SpecTypeSpecifierNonArray::UImage2DRect,
        TypeSpecifierNonArray::USampler1DArray => SpecTypeSpecifierNonArray::USampler1DArray,
        TypeSpecifierNonArray::UImage1DArray => SpecTypeSpecifierNonArray::UImage1DArray,
        TypeSpecifierNonArray::USampler2DArray => SpecTypeSpecifierNonArray::USampler2DArray,
        TypeSpecifierNonArray::UImage2DArray => SpecTypeSpecifierNonArray::UImage2DArray,
        TypeSpecifierNonArray::USamplerBuffer => SpecTypeSpecifierNonArray::USamplerBuffer,
        TypeSpecifierNonArray::UImageBuffer => SpecTypeSpecifierNonArray::UImageBuffer,
        TypeSpecifierNonArray::USampler2DMS => SpecTypeSpecifierNonArray::USampler2DMS,
        TypeSpecifierNonArray::UImage2DMS => SpecTypeSpecifierNonArray::UImage2DMS,
        TypeSpecifierNonArray::USampler2DMSArray => SpecTypeSpecifierNonArray::USampler2DMSArray,
        TypeSpecifierNonArray::UImage2DMSArray => SpecTypeSpecifierNonArray::UImage2DMSArray,
        TypeSpecifierNonArray::USamplerCubeArray => SpecTypeSpecifierNonArray::USamplerCubeArray,
        TypeSpecifierNonArray::UImageCubeArray => SpecTypeSpecifierNonArray::UImageCubeArray,
        TypeSpecifierNonArray::Struct(s) => SpecTypeSpecifierNonArray::Struct(
            struct_specifier_view(s),
        ),
        TypeSpecifierNonArray::TypeName(tn) => SpecTypeSpecifierNonArray::TypeName(tn@),
    }
}

impl View for TypeSpecifierNonArray {
    type V = SpecTypeSpecifierNonArray;

    open spec fn view(&self) -> SpecTypeSpecifierNonArray {
        type_specifier_non_array_view(*self)
    }
}

/// The model of a type specifier.
pub open spec fn type_specifier_view(t: TypeSpecifier) -> SpecTypeSpecifier
    decreases t,
{
    SpecTypeSpecifier {
        ty: type_specifier_non_array_view(t.ty),
        array_specifier: match t.array_specifier {
            Some(x) => Some(array_specifier_view(x)),
            None => None,
        },
    }
}

impl View for TypeSpecifier {
    type V = SpecTypeSpecifier;

    open spec fn view(&self) -> SpecTypeSpecifier {
        type_specifier_view(*self)
    }
}

/// The model of a struct specifier.
pub open spec fn struct_specifier_view(s: StructSpecifier) -> SpecStructSpecifier
    decreases s,
{
    SpecStructSpecifier {
        name: match s.name {
            Some(x) => Some(x@),
            None => None,
        },
        fields: struct_fields_view(s.fields),
    }
}

impl View for StructSpecifier {
    type V = SpecStructSpecifier;

    open spec fn view(&self) -> SpecStructSpecifier {
        struct_specifier_view(*self)
    }
}

/// The model of a struct field specifier.
pub open spec fn struct_field_specifier_view(
    field: StructFieldSpecifier,
) -> SpecStructFieldSpecifier
    decreases field,
{
    SpecStructFieldSpecifier {
        qualifier: match field.qualifier {
            Some(x) => Some(type_qualifier_view(x)),
            None => None,
        },
        ty: type_specifier_view(field.ty),
        identifiers: arrayed_identifiers_view(field.identifiers),
    }
}

impl View for StructFieldSpecifier {
    type V = SpecStructFieldSpecifier;

    open spec fn view(&self) -> SpecStructFieldSpecifier {
        struct_field_specifier_view(*self)
    }
}

/// The models of a vector of field specifiers, in the order of the vector.
pub open spec fn struct_fields_view(v: Vec<StructFieldSpecifier>) -> Seq<SpecStructFieldSpecifier>
    decreases v,
{
    Seq::new(
        v@.len(),
        |i: int|
            if 0 <= i < v@.len() {
                struct_field_specifier_view(v@[i])
            } else {
                arbitrary()
            },
    )
}

/// The model of a fully specified type.
pub open spec fn fully_specified_type_view(t: FullySpecifiedType) -> SpecFullySpecifiedType {
    SpecFullySpecifiedType {
        qualifier: match t.qualifier {
            Some(x) => Some(type_qualifier_view(x)),
            None => None,
        },
        ty: type_specifier_view(t.ty),
    }
}

impl View for FullySpecifiedType {
    type V = SpecFullySpecifiedType;

    open spec fn view(&self) -> SpecFullySpecifiedType {
        fully_specified_type_view(*self)
    }
}

/// The model of an initializer.
pub open spec fn initializer_view(i: Initializer) -> SpecInitializer
    decreases i,
{
    match i {
        Initializer::Simple(e) => SpecInitializer::Simple(Box::new(expr_view(*e))),
        Initializer::List(list) => SpecInitializer::List(initializers_view(list)),
    }
}

impl View for Initializer {
    type V = SpecInitializer;

    open spec fn view(&self) -> SpecInitializer {
        initializer_view(*self)
    }
}

/// The models of a vector of initializers, in the order of the vector.
pub open spec fn initializers_view(v: Vec<Initializer>) -> Seq<SpecInitializer>
    decreases v,
{
    Seq::new(
        v@.len(),
        |i: int|
            if 0 <= i < v@.len() {
                initializer_view(v@[i])
            } else {
                arbitrary()
            },
    )
}

/// The model of a single declaration.
pub open spec fn single_declaration_view(d: SingleDeclaration) -> SpecSingleDeclaration {
    SpecSingleDeclaration {
        ty: fully_specified_type_view(d.ty),
        name: match d.name {
            Some(x) => Some(x@),
            None => None,
        },
        array_specifier: match d.array_specifier {
            Some(x) => Some(array_specifier_view(x)),
            None => None,
        },
        initializer: match d.initializer {
            Some(x) => Some(initializer_view(x)),
            None => None,
        },
    }
}

impl View for SingleDeclaration {
    type V = SpecSingleDeclaration;

    open spec fn view(&self) -> SpecSingleDeclaration {
        single_declaration_view(*self)
    }
}

/// The model of a declaration without a type.
pub open spec fn single_declaration_no_type_view(
    d: SingleDeclarationNoType,
) -> SpecSingleDeclarationNoType {
    SpecSingleDeclarationNoType {
        name: d.name@,
        array_specifier: match d.array_specifier {
            Some(x) => Some(array_specifier_view(x)),
            None => None,
        },
        initializer: match d.initializer {
            Some(x) => Some(initializer_view(x)),
            None => None,
        },
    }
}

impl View for SingleDeclarationNoType {
    type V = SpecSingleDeclarationNoType;

    open spec fn view(&self) -> SpecSingleDeclarationNoType {
        single_declaration_no_type_view(*self)
    }
}

/// The models of a vector of declarators, in the order of the vector.
pub open spec fn declarators_view(
    v: Vec<SingleDeclarationNoType>,
) -> Seq<SpecSingleDeclarationNoType> {
    Seq::new(
        v@.len(),
        |i: int|
            if 0 <= i < v@.len() {
                single_declaration_no_type_view(v@[i])
            } else {
                arbitrary()
            },
    )
}

/// The model of an init declarator list.
pub open spec fn init_declarator_list_view(i: InitDeclaratorList) -> SpecInitDeclaratorList {
    SpecInitDeclaratorList {
        head: single_declaration_view(i.head),
        tail: declarators_view(i.tail),
    }
}

impl View for InitDeclaratorList {
    type V = SpecInitDeclaratorList;

    open spec fn view(&self) -> SpecInitDeclaratorList {
        init_declarator_list_view(*self)
    }
}

/// The model of a function parameter declarator.
pub open spec fn function_parameter_declarator_view(
    p: FunctionParameterDeclarator,
) -> SpecFunctionParameterDeclarator {
    SpecFunctionParameterDeclarator {
        ty: type_specifier_view(p.ty),
        name: p.name@,
        array_spec: match p.array_spec {
            Some(x) => Some(array_specifier_view(x)),
            None => None,
        },
    }
}

impl View for FunctionParameterDeclarator {
    type V = SpecFunctionParameterDeclarator;

    open spec fn view(&self) -> SpecFunctionParameterDeclarator {
        function_parameter_declarator_view(*self)
    }
}

/// The model of a function parameter declaration.
pub open spec fn function_parameter_declaration_view(
    p: FunctionParameterDeclaration,
) -> SpecFunctionParameterDeclaration {
    match p {
        FunctionParameterDeclaration::Named(qual, fpd) => SpecFunctionParameterDeclaration::Named(
            match qual {
                Some(x) => Some(type_qualifier_view(x)),
                None => None,
            },
            function_parameter_declarator_view(fpd),
        ),
        FunctionParameterDeclaration::Unnamed(qual, ty) => SpecFunctionParameterDeclaration::Unnamed(
            match qual {
                Some(x) => Some(type_qualifier_view(x)),
                None => None,
            },
            type_specifier_view(ty),
        ),
    }
}

impl View for FunctionParameterDeclaration {
    type V = SpecFunctionParameterDeclaration;

    open spec fn view(&self) -> SpecFunctionParameterDeclaration {
        function_parameter_declaration_view(*self)
    }
}

/// The models of a vector of parameters, in the order of the vector.
pub open spec fn parameters_view(
    v: Vec<FunctionParameterDeclaration>,
) -> Seq<SpecFunctionParameterDeclaration> {
    Seq::new(
        v@.len(),
        |i: int|
            if 0 <= i < v@.len() {
                function_parameter_declaration_view(v@[i])
            } else {
                arbitrary()
            },
    )
}

/// The model of a function prototype.
pub open spec fn function_prototype_view(fp: FunctionPrototype) -> SpecFunctionPrototype {
    SpecFunctionPrototype {
        ty: fully_specified_type_view(fp.ty),
        name: fp.name@,
        parameters: parameters_view(fp.parameters),
    }
}

impl View for FunctionPrototype {
    type V = SpecFunctionPrototype;

    open spec fn view(&self) -> SpecFunctionPrototype {
        function_prototype_view(*self)
    }
}

/// The model of a block.
pub open spec fn block_view(b: Block) -> SpecBlock {
    SpecBlock {
        qualifier: type_qualifier_view(b.qualifier),
        name: b.name@,
        fields: struct_fields_view(b.fields),
        identifier: match b.identifier {
            Some(x) => Some(arrayed_identifier_view(x)),
            None => None,
        },
    }
}

impl View for Block {
    type V = SpecBlock;

    open spec fn view(&self) -> SpecBlock {
        block_view(*self)
    }
}

/// The model of a declaration.
pub open spec fn declaration_view(d: Declaration) -> SpecDeclaration {
    match d {
        Declaration::FunctionPrototype(proto) => SpecDeclaration::FunctionPrototype(
            function_prototype_view(proto),
        ),
        Declaration::InitDeclaratorList(list) => SpecDeclaration::InitDeclaratorList(
            init_declarator_list_view(list),
        ),
        Declaration::Precision(qual, ty) => SpecDeclaration::Precision(
            qual,
            type_specifier_view(ty),
        ),
        Declaration::Block(block) => SpecDeclaration::Block(block_view(block)),
        Declaration::Global(qual, identifiers) => SpecDeclaration::Global(
            type_qualifier_view(qual),
            identifiers_view(identifiers),
        ),
    }
}

impl View for Declaration {
    type V = SpecDeclaration;

    open spec fn view(&self) -> SpecDeclaration {
        declaration_view(*self)
    }
}

/// The model of a condition.
pub open spec fn condition_view(c: Condition) -> SpecCondition {
    match c {
        Condition::Expr(e) => SpecCondition::Expr(Box::new(expr_view(*e))),
        Condition::Assignment(ty, name, initializer) => SpecCondition::Assignment(
            fully_specified_type_view(ty),
            name@,
            initializer_view(initializer),
        ),
    }
}

impl View for Condition {
    type V = SpecCondition;

    open spec fn view(&self) -> SpecCondition {
        condition_view(*self)
    }
}

/// The model of a case label.
pub open spec fn case_label_view(cl: CaseLabel) -> SpecCaseLabel {
    match cl {
        CaseLabel::Case(e) => SpecCaseLabel::Case(Box::new(expr_view(*e))),
        CaseLabel::Def => SpecCaseLabel::Def,
    }
}

impl View for CaseLabel {
    type V = SpecCaseLabel;

    open spec fn view(&self) -> SpecCaseLabel {
        case_label_view(*self)
    }
}

/// The model of a jump statement.
pub open spec fn jump_statement_view(j: JumpStatement) -> SpecJumpStatement {
    match j {
        JumpStatement::Continue => SpecJumpStatement::Continue,
        JumpStatement::Break => SpecJumpStatement::Break,
        JumpStatement::Return(e) => SpecJumpStatement::Return(Box::new(expr_view(*e))),
        JumpStatement::Discard => SpecJumpStatement::Discard,
    }
}

impl View for JumpStatement {
    type V = SpecJumpStatement;

    open spec fn view(&self) -> SpecJumpStatement {
        jump_statement_view(*self)
    }
}

/// The model of a `for` initialiser.
pub open spec fn for_init_statement_view(i: ForInitStatement) -> SpecForInitStatement {
    match i {
        ForInitStatement::Expression(expr) => SpecForInitStatement::Expression(
            match expr {
                Some(x) => Some(expr_view(x)),
                None => None,
            },
        ),
        ForInitStatement::Declaration(d) => SpecForInitStatement::Declaration(
            Box::new(declaration_view(*d)),
        ),
    }
}

impl View for ForInitStatement {
    type V = SpecForInitStatement;

    open spec fn view(&self) -> SpecForInitStatement {
        for_init_statement_view(*self)
    }
}

/// The model of a `for` remainder.
pub open spec fn for_rest_statement_view(r: ForRestStatement) -> SpecForRestStatement {
    SpecForRestStatement {
        condition: match r.condition {
            Some(x) => Some(condition_view(x)),
            None => None,
        },
        post_expr: match r.post_expr {
            Some(x) => Some(Box::new(expr_view(*x))),
            None => None,
        },
    }
}

impl View for ForRestStatement {
    type V = SpecForRestStatement;

    open spec fn view(&self) -> SpecForRestStatement {
        for_rest_statement_view(*self)
    }
}

/// The model of a compound statement.
pub open spec fn compound_statement_view(cst: CompoundStatement) -> SpecCompoundStatement
    decreases cst,
{
    SpecCompoundStatement {
        statement_list: statements_view(cst.statement_list),
    }
}

impl View for CompoundStatement {
    type V = SpecCompoundStatement;

    open spec fn view(&self) -> SpecCompoundStatement {
        compound_statement_view(*self)
    }
}

/// The model of a statement.
pub open spec fn statement_view(st: Statement) -> SpecStatement
    decreases st,
{
    match st {
        Statement::Compound(cst) => SpecStatement::Compound(
            Box::new(compound_statement_view(*cst)),
        ),
        Statement::Simple(sst) => SpecStatement::Simple(Box::new(simple_statement_view(*sst))),
    }
}

impl View for Statement {
    type V = SpecStatement;

    open spec fn view(&self) -> SpecStatement {
        statement_view(*self)
    }
}

/// The models of a vector of statements, in the order of the vector.
pub open spec fn statements_view(v: Vec<Statement>) -> Seq<SpecStatement>
    decreases v,
{
    Seq::new(
        v@.len(),
        |i: int|
            if 0 <= i < v@.len() {
                statement_view(v@[i])
            } else {
                arbitrary()
            },
    )
}

/// The model of a simple statement.
pub open spec fn simple_statement_view(sst: SimpleStatement) -> SpecSimpleStatement
    decreases sst,
{
    match sst {
        SimpleStatement::Declaration(d) => SpecSimpleStatement::Declaration(declaration_view(d)),
        SimpleStatement::Expression(e) => SpecSimpleStatement::Expression(expr_statement_view(e)),
        SimpleStatement::Selection(s) => SpecSimpleStatement::Selection(
            selection_statement_view(s),
        ),
        SimpleStatement::Switch(s) => SpecSimpleStatement::Switch(switch_statement_view(s)),
        SimpleStatement::CaseLabel(cl) => SpecSimpleStatement::CaseLabel(case_label_view(cl)),
        SimpleStatement::Iteration(i) => SpecSimpleStatement::Iteration(
            iteration_statement_view(i),
        ),
        SimpleStatement::Jump(j) => SpecSimpleStatement::Jump(jump_statement_view(j)),
    }
}

impl View for SimpleStatement {
    type V = SpecSimpleStatement;

    open spec fn view(&self) -> SpecSimpleStatement {
        simple_statement_view(*self)
    }
}

/// The model of a selection statement.
pub open spec fn selection_statement_view(sst: SelectionStatement) -> SpecSelectionStatement
    decreases sst,
{
    SpecSelectionStatement {
        cond: Box::new(expr_view(*sst.cond)),
        rest: selection_rest_statement_view(sst.rest),
    }
}

impl View for SelectionStatement {
    type V = SpecSelectionStatement;

    open spec fn view(&self) -> SpecSelectionStatement {
        selection_statement_view(*self)
    }
}

/// The model of a selection remainder.
pub open spec fn selection_rest_statement_view(
    sst: SelectionRestStatement,
) -> SpecSelectionRestStatement
    decreases sst,
{
    match sst {
        SelectionRestStatement::Statement(if_st) => SpecSelectionRestStatement::Statement(
            Box::new(statement_view(*if_st)),
        ),
        SelectionRestStatement::Else(if_st, else_st) => SpecSelectionRestStatement::Else(
            Box::new(statement_view(*if_st)),
            Box::new(statement_view(*else_st)),
        ),
    }
}

impl View for SelectionRestStatement {
    type V = SpecSelectionRestStatement;

    open spec fn view(&self) -> SpecSelectionRestStatement {
        selection_rest_statement_view(*self)
    }
}

/// The model of a switch statement.
pub open spec fn switch_statement_view(sst: SwitchStatement) -> SpecSwitchStatement
    decreases sst,
{
    SpecSwitchStatement {
        head: Box::new(expr_view(*sst.head)),
        body: statements_view(sst.body),
    }
}

impl View for SwitchStatement {
    type V = SpecSwitchStatement;

    open spec fn view(&self) -> SpecSwitchStatement {
        switch_statement_view(*self)
    }
}

/// The model of an iteration statement.
pub open spec fn iteration_statement_view(ist: IterationStatement) -> SpecIterationStatement
    decreases ist,
{
    match ist {
        IterationStatement::While(cond, body) => SpecIterationStatement::While(
            condition_view(cond),
            Box::new(statement_view(*body)),
        ),
        IterationStatement::DoWhile(body, cond) => SpecIterationStatement::DoWhile(
            Box::new(statement_view(*body)),
            Box::new(expr_view(*cond)),
        ),
        IterationStatement::For(init, rest, body) => SpecIterationStatement::For(
            for_init_statement_view(init),
            for_rest_statement_view(rest),
            Box::new(statement_view(*body)),
        ),
    }
}

impl View for IterationStatement {
    type V = SpecIterationStatement;

    open spec fn view(&self) -> SpecIterationStatement {
        iteration_statement_view(*self)
    }
}

/// The model of a function definition.
pub open spec fn function_definition_view(fd: FunctionDefinition) -> SpecFunctionDefinition {
    SpecFunctionDefinition {
        prototype: function_prototype_view(fd.prototype),
        statement: compound_statement_view(fd.statement),
    }
}

impl View for FunctionDefinition {
    type V = SpecFunctionDefinition;

    open spec fn view(&self) -> SpecFunctionDefinition {
        function_definition_view(*self)
    }
}

impl View for PreprocessorVersionProfile {
    type V = PreprocessorVersionProfile;

    open spec fn view(&self) -> PreprocessorVersionProfile {
        *self
    }
}

impl View for PreprocessorExtensionBehavior {
    type V = PreprocessorExtensionBehavior;

    open spec fn view(&self) -> PreprocessorExtensionBehavior {
        *self
    }
}

impl View for PreprocessorVersion {
    type V = PreprocessorVersion;

    open spec fn view(&self) -> PreprocessorVersion {
        *self
    }
}

/// The model of an extension name.
pub open spec fn preprocessor_extension_name_view(
    name: PreprocessorExtensionName,
) -> SpecPreprocessorExtensionName {
    match name {
        PreprocessorExtensionName::All => SpecPreprocessorExtensionName::All,
        PreprocessorExtensionName::Specific(n) => SpecPreprocessorExtensionName::Specific(n@),
    }
}

impl View for PreprocessorExtensionName {
    type V = SpecPreprocessorExtensionName;

    open spec fn view(&self) -> SpecPreprocessorExtensionName {
        preprocessor_extension_name_view(*self)
    }
}

/// The model of an extension directive.
pub open spec fn preprocessor_extension_view(
    pe: PreprocessorExtension,
) -> SpecPreprocessorExtension {
    SpecPreprocessorExtension {
        name: preprocessor_extension_name_view(pe.name),
        behavior: match pe.behavior {
            Some(x) => Some(x),
            None => None,
        },
    }
}

impl View for PreprocessorExtension {
    type V = SpecPreprocessorExtension;

    open spec fn view(&self) -> SpecPreprocessorExtension {
        preprocessor_extension_view(*self)
    }
}

/// The model of a preprocessor directive.
pub open spec fn preprocessor_view(pp: Preprocessor) -> SpecPreprocessor {
    match pp {
        Preprocessor::Version(pv) => SpecPreprocessor::Version(pv),
        Preprocessor::Extension(pe) => SpecPreprocessor::Extension(
            preprocessor_extension_view(pe),
        ),
    }
}

impl View for Preprocessor {
    type V = SpecPreprocessor;

    open spec fn view(&self) -> SpecPreprocessor {
        preprocessor_view(*self)
    }
}

/// The model of an external declaration.
pub open spec fn external_declaration_view(ed: ExternalDeclaration) -> SpecExternalDeclaration {
    match ed {
        ExternalDeclaration::Preprocessor(pp) => SpecExternalDeclaration::Preprocessor(
            preprocessor_view(pp),
        ),
        ExternalDeclaration::FunctionDefinition(fd) => SpecExternalDeclaration::FunctionDefinition(
            function_definition_view(fd),
        ),
        ExternalDeclaration::Declaration(d) => SpecExternalDeclaration::Declaration(
            declaration_view(d),
        ),
    }
}

impl View for ExternalDeclaration {
    type V = SpecExternalDeclaration;

    open spec fn view(&self) -> SpecExternalDeclaration {
        external_declaration_view(*self)
    }
}

/// The models of a vector of external declarations, in the order of the vector.
pub open spec fn translation_unit_view(v: TranslationUnit) -> SpecTranslationUnit {
    Seq::new(
        v@.len(),
        |i: int|
            if 0 <= i < v@.len() {
                external_declaration_view(v@[i])
            } else {
                arbitrary()
            },
    )
}

/// The models of a vector of type names, in the order of the vector.
pub open spec fn type_names_view(v: Vec<TypeName>) -> Seq<Seq<char>> {
    Seq::new(
        v@.len(),
        |i: int|
            if 0 <= i < v@.len() {
                v@[i]@
            } else {
                arbitrary()
            },
    )
}

/// The models of a vector of identifiers, in the order of the vector.
pub open spec fn identifiers_view(v: Vec<Identifier>) -> Seq<Seq<char>> {
    Seq::new(
        v@.len(),
        |i: int|
            if 0 <= i < v@.len() {
                v@[i]@
            } else {
                arbitrary()
            },
    )
}

} // verus!
