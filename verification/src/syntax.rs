//! The syntax tree of a shader.
//!
//! The tree follows the GLSL grammar node for node: every rule of the grammar is a type here and
//! every alternative of a rule is a variant. A parser builds such a tree; the tokenizers of this
//! crate read it and never change it.
//!
//! Floating-point constants are held by their IEEE 754 bit patterns, so that two trees are equal
//! exactly when they denote the same constants, bit for bit.

use vstd::prelude::*;

verus! {

/// An identifier of the shader.
pub type Identifier = String;

/// The name of a type.
pub type TypeName = String;

/// An identifier together with the array part that may follow it.
pub type ArrayedIdentifier = (Identifier, Option<ArraySpecifier>);

/// An expression statement. The expression is absent in the empty statement `;`.
pub type ExprStatement = Option<Expr>;

/// A whole shader: its external declarations in source order.
pub type TranslationUnit = Vec<ExternalDeclaration>;

/// A prefix operator.
#[derive(Debug, Clone, Copy, PartialEq, Eq)]
pub enum UnaryOp {
    Inc,
    Dec,
    Add,
    Minus,
    Not,
    Complement,
}

/// An infix operator.
#[derive(Debug, Clone, Copy, PartialEq, Eq)]
pub enum BinaryOp {
    Or,
    Xor,
    And,
    BitOr,
    BitXor,
    BitAnd,
    Equal,
    NonEqual,
    LT,
    GT,
    LTE,
    GTE,
    LShift,
    RShift,
    Add,
    Sub,
    Mult,
    Div,
    Mod,
}

/// An assignment operator.
#[derive(Debug, Clone, Copy, PartialEq, Eq)]
pub enum AssignmentOp {
    Equal,
    Mult,
    Div,
    Mod,
    Add,
    Sub,
    LShift,
    RShift,
    And,
    Xor,
    Or,
}

/// An expression.
#[derive(Debug, PartialEq, Eq)]
pub enum Expr {
    /// A reference to a variable.
    Variable(Identifier),
    /// A signed integer constant.
    IntConst(i32),
    /// An unsigned integer constant.
    UIntConst(u32),
    /// A boolean constant.
    BoolConst(bool),
    /// A single-precision constant, held as its IEEE 754 bit pattern.
    FloatConst(u32),
    /// A double-precision constant, held as its IEEE 754 bit pattern.
    DoubleConst(u64),
    /// A prefix operator applied to an operand.
    Unary(UnaryOp, Box<Expr>),
    /// An infix operator applied to two operands.
    Binary(BinaryOp, Box<Expr>, Box<Expr>),
    /// A conditional: the condition, then both branches.
    Ternary(Box<Expr>, Box<Expr>, Box<Expr>),
    /// An assignment: target, operator, value.
    Assignment(Box<Expr>, AssignmentOp, Box<Expr>),
    /// A subscript.
    Bracket(Box<Expr>, ArraySpecifier),
    /// A call: the callee and its arguments in order.
    FunCall(FunIdentifier, Vec<Expr>),
    /// A member access.
    Dot(Box<Expr>, Identifier),
    /// A postfix increment.
    PostInc(Box<Expr>),
    /// A postfix decrement.
    PostDec(Box<Expr>),
    /// Two expressions in sequence.
    Comma(Box<Expr>, Box<Expr>),
}

/// The size of an array.
#[derive(Debug, PartialEq, Eq)]
pub enum ArraySpecifier {
    /// No size is given.
    Unsized,
    /// The size is a constant expression.
    ExplicitlySized(Box<Expr>),
}

/// What a call applies.
#[derive(Debug, PartialEq, Eq)]
pub enum FunIdentifier {
    /// A function or constructor named directly.
    Identifier(Identifier),
    /// A callee that is itself computed.
    Expr(Box<Expr>),
}

/// A precision qualifier.
#[derive(Debug, Clone, Copy, PartialEq, Eq)]
pub enum PrecisionQualifier {
    High,
    Medium,
    Low,
}

/// An interpolation qualifier.
#[derive(Debug, Clone, Copy, PartialEq, Eq)]
pub enum InterpolationQualifier {
    Smooth,
    Flat,
    NoPerspective,
}

/// A storage qualifier.
#[derive(Debug, PartialEq, Eq)]
pub enum StorageQualifier {
    Const,
    InOut,
    In,
    Out,
    Centroid,
    Patch,
    Sample,
    Uniform,
    Buffer,
    Shared,
    Coherent,
    Volatile,
    Restrict,
    ReadOnly,
    WriteOnly,
    /// A subroutine over the named types, in order.
    Subroutine(Vec<TypeName>),
}

/// One entry of a layout qualifier.
#[derive(Debug, PartialEq, Eq)]
pub enum LayoutQualifierSpec {
    /// A named entry with the constant expression it may be bound to.
    Identifier(Identifier, Option<Box<Expr>>),
    /// The bare `shared` marker.
    Shared,
}

/// A layout qualifier.
#[derive(Debug, PartialEq, Eq)]
pub struct LayoutQualifier {
    /// The entries, in source order.
    pub ids: Vec<LayoutQualifierSpec>,
}

/// One entry of a type qualifier.
#[derive(Debug, PartialEq, Eq)]
pub enum TypeQualifierSpec {
    Storage(StorageQualifier),
    Layout(LayoutQualifier),
    Precision(PrecisionQualifier),
    Interpolation(InterpolationQualifier),
    Invariant,
    Precise,
}

/// The qualifiers that stand in front of a type.
#[derive(Debug, PartialEq, Eq)]
pub struct TypeQualifier {
    /// The entries, in source order; the order carries meaning.
    pub qualifiers: Vec<TypeQualifierSpec>,
}

/// A type specifier without its array part.
#[derive(Debug, PartialEq, Eq)]
pub enum TypeSpecifierNonArray {
    // Scalars, vectors and matrices.
    Void,
    Bool,
    Int,
    UInt,
    Float,
    Double,
    Vec2,
    Vec3,
    Vec4,
    DVec2,
    DVec3,
    DVec4,
    BVec2,
    BVec3,
    BVec4,
    IVec2,
    IVec3,
    IVec4,
    UVec2,
    UVec3,
    UVec4,
    Mat2,
    Mat3,
    Mat4,
    Mat23,
    Mat24,
    Mat32,
    Mat34,
    Mat42,
    Mat43,
    DMat2,
    DMat3,
    DMat4,
    DMat23,
    DMat24,
    DMat32,
    DMat34,
    DMat42,
    DMat43,
    // Opaque types over floating-point texels.
    Sampler1D,
    Image1D,
    Sampler2D,
    Image2D,
    Sampler3D,
    Image3D,
    SamplerCube,
    ImageCube,
    Sampler2DRect,
    Image2DRect,
    Sampler1DArray,
    Image1DArray,
    Sampler2DArray,
    Image2DArray,
    SamplerBuffer,
    ImageBuffer,
    Sampler2DMS,
    Image2DMS,
    Sampler2DMSArray,
    Image2DMSArray,
    SamplerCubeArray,
    ImageCubeArray,
    Sampler1DShadow,
    Sampler2DShadow,
    Sampler2DRectShadow,
    Sampler1DArrayShadow,
    Sampler2DArrayShadow,
    SamplerCubeShadow,
    SamplerCubeArrayShadow,
    // Opaque types over signed integer texels.
    ISampler1D,
    IImage1D,
    ISampler2D,
    IImage2D,
    ISampler3D,
    IImage3D,
    ISamplerCube,
    IImageCube,
    ISampler2DRect,
    IImage2DRect,
    ISampler1DArray,
    IImage1DArray,
    ISampler2DArray,
    IImage2DArray,
    ISamplerBuffer,
    IImageBuffer,
    ISampler2DMS,
    IImage2DMS,
    ISampler2DMSArray,
    IImage2DMSArray,
    ISamplerCubeArray,
    IImageCubeArray,
    // Opaque types over unsigned integer texels.
    AtomicUInt,
    USampler1D,
    UImage1D,
    USampler2D,
    UImage2D,
    USampler3D,
    UImage3D,
    USamplerCube,
    UImageCube,
    USampler2DRect,
    UImage2DRect,
    USampler1DArray,
    UImage1DArray,
    USampler2DArray,
    UImage2DArray,
    USamplerBuffer,
    UImageBuffer,
    USampler2DMS,
    UImage2DMS,
    USampler2DMSArray,
    UImage2DMSArray,
    USamplerCubeArray,
    UImageCubeArray,
    /// A struct defined in place.
    Struct(StructSpecifier),
    /// A type known by its name.
    TypeName(TypeName),
}

/// A type specifier.
#[derive(Debug, PartialEq, Eq)]
pub struct TypeSpecifier {
    pub ty: TypeSpecifierNonArray,
    pub array_specifier: Option<ArraySpecifier>,
}

/// The definition of a struct.
#[derive(Debug, PartialEq, Eq)]
pub struct StructSpecifier {
    /// The name, absent for an anonymous struct.
    pub name: Option<String>,
    /// The field specifiers, in source order.
    pub fields: Vec<StructFieldSpecifier>,
}

/// One field line of a struct or block: a type shared by one or more declared names.
#[derive(Debug, PartialEq, Eq)]
pub struct StructFieldSpecifier {
    pub qualifier: Option<TypeQualifier>,
    pub ty: TypeSpecifier,
    /// The declared names, each with its own array part.
    pub identifiers: Vec<ArrayedIdentifier>,
}

/// A type together with the qualifiers in front of it.
#[derive(Debug, PartialEq, Eq)]
pub struct FullySpecifiedType {
    pub qualifier: Option<TypeQualifier>,
    pub ty: TypeSpecifier,
}

/// What a declared name is initialised with.
#[derive(Debug, PartialEq, Eq)]
pub enum Initializer {
    /// A single expression.
    Simple(Box<Expr>),
    /// A brace-enclosed aggregate, which may nest.
    List(Vec<Initializer>),
}

/// The first declaration of an init-declarator list; it carries the type.
#[derive(Debug, PartialEq, Eq)]
pub struct SingleDeclaration {
    pub ty: FullySpecifiedType,
    /// The declared name, absent where only a type is declared.
    pub name: Option<Identifier>,
    pub array_specifier: Option<ArraySpecifier>,
    pub initializer: Option<Initializer>,
}

/// A further declaration of an init-declarator list; it shares the type of the first.
#[derive(Debug, PartialEq, Eq)]
pub struct SingleDeclarationNoType {
    pub name: Identifier,
    pub array_specifier: Option<ArraySpecifier>,
    pub initializer: Option<Initializer>,
}

/// One typed declaration followed by siblings of the same type.
#[derive(Debug, PartialEq, Eq)]
pub struct InitDeclaratorList {
    pub head: SingleDeclaration,
    /// The siblings, in source order.
    pub tail: Vec<SingleDeclarationNoType>,
}

/// The type, name and array part of a named parameter.
#[derive(Debug, PartialEq, Eq)]
pub struct FunctionParameterDeclarator {
    pub ty: TypeSpecifier,
    pub name: Identifier,
    pub array_spec: Option<ArraySpecifier>,
}

/// A parameter of a function.
#[derive(Debug, PartialEq, Eq)]
pub enum FunctionParameterDeclaration {
    /// A parameter with a name.
    Named(Option<TypeQualifier>, FunctionParameterDeclarator),
    /// A parameter given by its type alone.
    Unnamed(Option<TypeQualifier>, TypeSpecifier),
}

/// The signature of a function.
#[derive(Debug, PartialEq, Eq)]
pub struct FunctionPrototype {
    /// The return type.
    pub ty: FullySpecifiedType,
    pub name: Identifier,
    /// The parameters, in source order.
    pub parameters: Vec<FunctionParameterDeclaration>,
}

/// An interface block.
#[derive(Debug, PartialEq, Eq)]
pub struct Block {
    pub qualifier: TypeQualifier,
    pub name: Identifier,
    /// The field specifiers, in source order.
    pub fields: Vec<StructFieldSpecifier>,
    /// The instance name that may follow the block.
    pub identifier: Option<ArrayedIdentifier>,
}

/// A declaration.
#[derive(Debug, PartialEq, Eq)]
pub enum Declaration {
    FunctionPrototype(FunctionPrototype),
    InitDeclaratorList(InitDeclaratorList),
    /// A default precision for a type.
    Precision(PrecisionQualifier, TypeSpecifier),
    Block(Block),
    /// Qualifiers applied to names declared before.
    Global(TypeQualifier, Vec<Identifier>),
}

/// The condition of a loop.
#[derive(Debug, PartialEq, Eq)]
pub enum Condition {
    /// A plain expression.
    Expr(Box<Expr>),
    /// A variable declared and initialised in place.
    Assignment(FullySpecifiedType, Identifier, Initializer),
}

/// A label inside the body of a switch.
#[derive(Debug, PartialEq, Eq)]
pub enum CaseLabel {
    Case(Box<Expr>),
    /// The `default` label.
    Def,
}

/// A jump.
#[derive(Debug, PartialEq, Eq)]
pub enum JumpStatement {
    Continue,
    Break,
    Return(Box<Expr>),
    Discard,
}

/// The first clause of a `for` loop.
#[derive(Debug, PartialEq, Eq)]
pub enum ForInitStatement {
    Expression(Option<Expr>),
    Declaration(Box<Declaration>),
}

/// The second and third clause of a `for` loop.
#[derive(Debug, PartialEq, Eq)]
pub struct ForRestStatement {
    pub condition: Option<Condition>,
    pub post_expr: Option<Box<Expr>>,
}

/// A brace-enclosed sequence of statements.
#[derive(Debug, PartialEq, Eq)]
pub struct CompoundStatement {
    /// The statements, in source order.
    pub statement_list: Vec<Statement>,
}

/// A statement.
#[derive(Debug, PartialEq, Eq)]
pub enum Statement {
    Compound(Box<CompoundStatement>),
    Simple(Box<SimpleStatement>),
}

/// A statement that is not a block.
#[derive(Debug, PartialEq, Eq)]
pub enum SimpleStatement {
    Declaration(Declaration),
    Expression(ExprStatement),
    Selection(SelectionStatement),
    Switch(SwitchStatement),
    CaseLabel(CaseLabel),
    Iteration(IterationStatement),
    Jump(JumpStatement),
}

/// An `if` statement.
#[derive(Debug, PartialEq, Eq)]
pub struct SelectionStatement {
    pub cond: Box<Expr>,
    pub rest: SelectionRestStatement,
}

/// The branches of an `if` statement.
#[derive(Debug, PartialEq, Eq)]
pub enum SelectionRestStatement {
    /// The branch taken when the condition holds; there is no `else`.
    Statement(Box<Statement>),
    /// Both branches.
    Else(Box<Statement>, Box<Statement>),
}

/// A `switch` statement.
#[derive(Debug, PartialEq, Eq)]
pub struct SwitchStatement {
    pub head: Box<Expr>,
    /// The body, in source order; case labels stand among the statements.
    pub body: Vec<Statement>,
}

/// A loop.
#[derive(Debug, PartialEq, Eq)]
pub enum IterationStatement {
    While(Condition, Box<Statement>),
    DoWhile(Box<Statement>, Box<Expr>),
    For(ForInitStatement, ForRestStatement, Box<Statement>),
}

/// A function with its body.
#[derive(Debug, PartialEq, Eq)]
pub struct FunctionDefinition {
    pub prototype: FunctionPrototype,
    pub statement: CompoundStatement,
}

/// The profile named by a `#version` directive.
#[derive(Debug, Clone, Copy, PartialEq, Eq)]
pub enum PreprocessorVersionProfile {
    Core,
    Compatibility,
    ES,
}

/// The behaviour asked for by an `#extension` directive.
#[derive(Debug, Clone, Copy, PartialEq, Eq)]
pub enum PreprocessorExtensionBehavior {
    Require,
    Enable,
    Warn,
    Disable,
}

/// A `#version` directive.
#[derive(Debug, Clone, Copy, PartialEq, Eq)]
pub struct PreprocessorVersion {
    pub version: u16,
    pub profile: Option<PreprocessorVersionProfile>,
}

/// The extension named by an `#extension` directive.
#[derive(Debug, PartialEq, Eq)]
pub enum PreprocessorExtensionName {
    /// Every extension.
    All,
    /// The extension of that name.
    Specific(String),
}

/// An `#extension` directive.
#[derive(Debug, PartialEq, Eq)]
pub struct PreprocessorExtension {
    pub name: PreprocessorExtensionName,
    pub behavior: Option<PreprocessorExtensionBehavior>,
}

/// A preprocessor directive that stays in the tree.
#[derive(Debug, PartialEq, Eq)]
pub enum Preprocessor {
    Version(PreprocessorVersion),
    Extension(PreprocessorExtension),
}

/// An item at the top level of a shader.
#[derive(Debug, PartialEq, Eq)]
pub enum ExternalDeclaration {
    Preprocessor(Preprocessor),
    FunctionDefinition(FunctionDefinition),
    Declaration(Declaration),
}

} // verus!
