//! The names that a constructor expression can mention.
//!
//! A constructor expression names variants, structs and fields of the syntax tree. They form
//! three closed sets, one enumeration each, so that an expression cannot name what the tree does
//! not have. Each name is spelled as the tree spells it, and every spelling is an identifier.

use crate::tokens::is_ident;
use vstd::prelude::*;

verus! {

/// A variant of one of the enumerations of the syntax tree: the enumeration's name followed by
/// the variant's.
#[derive(Debug, Clone, Copy, PartialEq, Eq)]
pub enum Variant {
    UnaryOpInc,
    UnaryOpDec,
    UnaryOpAdd,
    UnaryOpMinus,
    UnaryOpNot,
    UnaryOpComplement,
    BinaryOpOr,
    BinaryOpXor,
    BinaryOpAnd,
    BinaryOpBitOr,
    BinaryOpBitXor,
    BinaryOpBitAnd,
    BinaryOpEqual,
    BinaryOpNonEqual,
    BinaryOpLT,
    BinaryOpGT,
    BinaryOpLTE,
    BinaryOpGTE,
    BinaryOpLShift,
    BinaryOpRShift,
    BinaryOpAdd,
    BinaryOpSub,
    BinaryOpMult,
    BinaryOpDiv,
    BinaryOpMod,
    AssignmentOpEqual,
    AssignmentOpMult,
    AssignmentOpDiv,
    AssignmentOpMod,
    AssignmentOpAdd,
    AssignmentOpSub,
    AssignmentOpLShift,
    AssignmentOpRShift,
    AssignmentOpAnd,
    AssignmentOpXor,
    AssignmentOpOr,
    ExprVariable,
    ExprIntConst,
    ExprUIntConst,
    ExprBoolConst,
    ExprFloatConst,
    ExprDoubleConst,
    ExprUnary,
    ExprBinary,
    ExprTernary,
    ExprAssignment,
    ExprBracket,
    ExprFunCall,
    ExprDot,
    ExprPostInc,
    ExprPostDec,
    ExprComma,
    ArraySpecifierUnsized,
    ArraySpecifierExplicitlySized,
    FunIdentifierIdentifier,
    FunIdentifierExpr,
    PrecisionQualifierHigh,
    PrecisionQualifierMedium,
    PrecisionQualifierLow,
    InterpolationQualifierSmooth,
    InterpolationQualifierFlat,
    InterpolationQualifierNoPerspective,
    StorageQualifierConst,
    StorageQualifierInOut,
    StorageQualifierIn,
    StorageQualifierOut,
    StorageQualifierCentroid,
    StorageQualifierPatch,
    StorageQualifierSample,
    StorageQualifierUniform,
    StorageQualifierBuffer,
    StorageQualifierShared,
    StorageQualifierCoherent,
    StorageQualifierVolatile,
    StorageQualifierRestrict,
    StorageQualifierReadOnly,
    StorageQualifierWriteOnly,
    StorageQualifierSubroutine,
    LayoutQualifierSpecIdentifier,
    LayoutQualifierSpecShared,
    TypeQualifierSpecStorage,
    TypeQualifierSpecLayout,
    TypeQualifierSpecPrecision,
    TypeQualifierSpecInterpolation,
    TypeQualifierSpecInvariant,
    TypeQualifierSpecPrecise,
    TypeSpecifierNonArrayVoid,
    TypeSpecifierNonArrayBool,
    TypeSpecifierNonArrayInt,
    TypeSpecifierNonArrayUInt,
    TypeSpecifierNonArrayFloat,
    TypeSpecifierNonArrayDouble,
    TypeSpecifierNonArrayVec2,
    TypeSpecifierNonArrayVec3,
    TypeSpecifierNonArrayVec4,
    TypeSpecifierNonArrayDVec2,
    TypeSpecifierNonArrayDVec3,
    TypeSpecifierNonArrayDVec4,
    TypeSpecifierNonArrayBVec2,
    TypeSpecifierNonArrayBVec3,
    TypeSpecifierNonArrayBVec4,
    TypeSpecifierNonArrayIVec2,
    TypeSpecifierNonArrayIVec3,
    TypeSpecifierNonArrayIVec4,
    TypeSpecifierNonArrayUVec2,
    TypeSpecifierNonArrayUVec3,
    TypeSpecifierNonArrayUVec4,
    TypeSpecifierNonArrayMat2,
    TypeSpecifierNonArrayMat3,
    TypeSpecifierNonArrayMat4,
    TypeSpecifierNonArrayMat23,
    TypeSpecifierNonArrayMat24,
    TypeSpecifierNonArrayMat32,
    TypeSpecifierNonArrayMat34,
    TypeSpecifierNonArrayMat42,
    TypeSpecifierNonArrayMat43,
    TypeSpecifierNonArrayDMat2,
    TypeSpecifierNonArrayDMat3,
    TypeSpecifierNonArrayDMat4,
    TypeSpecifierNonArrayDMat23,
    TypeSpecifierNonArrayDMat24,
    TypeSpecifierNonArrayDMat32,
    TypeSpecifierNonArrayDMat34,
    TypeSpecifierNonArrayDMat42,
    TypeSpecifierNonArrayDMat43,
    TypeSpecifierNonArraySampler1D,
    TypeSpecifierNonArrayImage1D,
    TypeSpecifierNonArraySampler2D,
    TypeSpecifierNonArrayImage2D,
    TypeSpecifierNonArraySampler3D,
    TypeSpecifierNonArrayImage3D,
    TypeSpecifierNonArraySamplerCube,
    TypeSpecifierNonArrayImageCube,
    TypeSpecifierNonArraySampler2DRect,
    TypeSpecifierNonArrayImage2DRect,
    TypeSpecifierNonArraySampler1DArray,
    TypeSpecifierNonArrayImage1DArray,
    TypeSpecifierNonArraySampler2DArray,
    TypeSpecifierNonArrayImage2DArray,
    TypeSpecifierNonArraySamplerBuffer,
    TypeSpecifierNonArrayImageBuffer,
    TypeSpecifierNonArraySampler2DMS,
    TypeSpecifierNonArrayImage2DMS,
    TypeSpecifierNonArraySampler2DMSArray,
    TypeSpecifierNonArrayImage2DMSArray,
    TypeSpecifierNonArraySamplerCubeArray,
    TypeSpecifierNonArrayImageCubeArray,
    TypeSpecifierNonArraySampler1DShadow,
    TypeSpecifierNonArraySampler2DShadow,
    TypeSpecifierNonArraySampler2DRectShadow,
    TypeSpecifierNonArraySampler1DArrayShadow,
    TypeSpecifierNonArraySampler2DArrayShadow,
    TypeSpecifierNonArraySamplerCubeShadow,
    TypeSpecifierNonArraySamplerCubeArrayShadow,
    TypeSpecifierNonArrayISampler1D,
    TypeSpecifierNonArrayIImage1D,
    TypeSpecifierNonArrayISampler2D,
    TypeSpecifierNonArrayIImage2D,
    TypeSpecifierNonArrayISampler3D,
    TypeSpecifierNonArrayIImage3D,
    TypeSpecifierNonArrayISamplerCube,
    TypeSpecifierNonArrayIImageCube,
    TypeSpecifierNonArrayISampler2DRect,
    TypeSpecifierNonArrayIImage2DRect,
    TypeSpecifierNonArrayISampler1DArray,
    TypeSpecifierNonArrayIImage1DArray,
    TypeSpecifierNonArrayISampler2DArray,
    TypeSpecifierNonArrayIImage2DArray,
    TypeSpecifierNonArrayISamplerBuffer,
    TypeSpecifierNonArrayIImageBuffer,
    TypeSpecifierNonArrayISampler2DMS,
    TypeSpecifierNonArrayIImage2DMS,
    TypeSpecifierNonArrayISampler2DMSArray,
    TypeSpecifierNonArrayIImage2DMSArray,
    TypeSpecifierNonArrayISamplerCubeArray,
    TypeSpecifierNonArrayIImageCubeArray,
    TypeSpecifierNonArrayAtomicUInt,
    TypeSpecifierNonArrayUSampler1D,
    TypeSpecifierNonArrayUImage1D,
    TypeSpecifierNonArrayUSampler2D,
    TypeSpecifierNonArrayUImage2D,
    TypeSpecifierNonArrayUSampler3D,
    TypeSpecifierNonArrayUImage3D,
    TypeSpecifierNonArrayUSamplerCube,
    TypeSpecifierNonArrayUImageCube,
    TypeSpecifierNonArrayUSampler2DRect,
    TypeSpecifierNonArrayUImage2DRect,
    TypeSpecifierNonArrayUSampler1DArray,
    TypeSpecifierNonArrayUImage1DArray,
    TypeSpecifierNonArrayUSampler2DArray,
    TypeSpecifierNonArrayUImage2DArray,
    TypeSpecifierNonArrayUSamplerBuffer,
    TypeSpecifierNonArrayUImageBuffer,
    TypeSpecifierNonArrayUSampler2DMS,
    TypeSpecifierNonArrayUImage2DMS,
    TypeSpecifierNonArrayUSampler2DMSArray,
    TypeSpecifierNonArrayUImage2DMSArray,
    TypeSpecifierNonArrayUSamplerCubeArray,
    TypeSpecifierNonArrayUImageCubeArray,
    TypeSpecifierNonArrayStruct,
    InitializerSimple,
    InitializerList,
    FunctionParameterDeclarationNamed,
    FunctionParameterDeclarationUnnamed,
    DeclarationFunctionPrototype,
    DeclarationInitDeclaratorList,
    DeclarationPrecision,
    DeclarationBlock,
    DeclarationGlobal,
    ConditionExpr,
    ConditionAssignment,
    CaseLabelCase,
    CaseLabelDef,
    JumpStatementContinue,
    JumpStatementBreak,
    JumpStatementReturn,
    JumpStatementDiscard,
    ForInitStatementExpression,
    ForInitStatementDeclaration,
    StatementCompound,
    StatementSimple,
    SimpleStatementDeclaration,
    SimpleStatementExpression,
    SimpleStatementSelection,
    SimpleStatementSwitch,
    SimpleStatementCaseLabel,
    SimpleStatementIteration,
    SimpleStatementJump,
    SelectionRestStatementStatement,
    SelectionRestStatementElse,
    IterationStatementWhile,
    IterationStatementDoWhile,
    IterationStatementFor,
    PreprocessorVersionProfileCore,
    PreprocessorVersionProfileCompatibility,
    PreprocessorVersionProfileES,
    PreprocessorExtensionBehaviorRequire,
    PreprocessorExtensionBehaviorEnable,
    PreprocessorExtensionBehaviorWarn,
    PreprocessorExtensionBehaviorDisable,
    PreprocessorExtensionNameAll,
    PreprocessorExtensionNameSpecific,
    PreprocessorVersion,
    PreprocessorExtension,
    ExternalDeclarationPreprocessor,
    ExternalDeclarationFunctionDefinition,
    ExternalDeclarationDeclaration,
}

/// A struct of the syntax tree.
#[derive(Debug, Clone, Copy, PartialEq, Eq)]
pub enum Record {
    LayoutQualifier,
    TypeQualifier,
    TypeSpecifier,
    StructSpecifier,
    StructFieldSpecifier,
    FullySpecifiedType,
    SingleDeclaration,
    SingleDeclarationNoType,
    InitDeclaratorList,
    FunctionParameterDeclarator,
    FunctionPrototype,
    Block,
    ForRestStatement,
    CompoundStatement,
    SelectionStatement,
    SwitchStatement,
    FunctionDefinition,
    PreprocessorVersion,
    PreprocessorExtension,
}

/// A field of one of the structs of the syntax tree.
#[derive(Debug, Clone, Copy, PartialEq, Eq)]
pub enum Field {
    Ids,
    Qualifiers,
    Ty,
    ArraySpecifier,
    Name,
    Fields,
    Qualifier,
    Identifiers,
    Initializer,
    Head,
    Tail,
    ArraySpec,
    Parameters,
    Identifier,
    Condition,
    PostExpr,
    StatementList,
    Cond,
    Rest,
    Body,
    Prototype,
    Statement,
    Version,
    Profile,
    Behavior,
}

impl Variant {
    /// The name of the enumeration that the variant belongs to.
    pub open spec fn owner(self) -> Seq<char> {
        match self {
            Variant::UnaryOpInc | Variant::UnaryOpDec | Variant::UnaryOpAdd
            | Variant::UnaryOpMinus | Variant::UnaryOpNot | Variant::UnaryOpComplement => {
                "UnaryOp"@
            },
            Variant::BinaryOpOr | Variant::BinaryOpXor | Variant::BinaryOpAnd
            | Variant::BinaryOpBitOr | Variant::BinaryOpBitXor | Variant::BinaryOpBitAnd
            | Variant::BinaryOpEqual | Variant::BinaryOpNonEqual | Variant::BinaryOpLT
            | Variant::BinaryOpGT | Variant::BinaryOpLTE | Variant::BinaryOpGTE
            | Variant::BinaryOpLShift | Variant::BinaryOpRShift | Variant::BinaryOpAdd
            | Variant::BinaryOpSub | Variant::BinaryOpMult | Variant::BinaryOpDiv
            | Variant::BinaryOpMod => "BinaryOp"@,
            Variant::AssignmentOpEqual | Variant::AssignmentOpMult | Variant::AssignmentOpDiv
            | Variant::AssignmentOpMod | Variant::AssignmentOpAdd | Variant::AssignmentOpSub
            | Variant::AssignmentOpLShift | Variant::AssignmentOpRShift
            | Variant::AssignmentOpAnd | Variant::AssignmentOpXor | Variant::AssignmentOpOr => {
                "AssignmentOp"@
            },
            Variant::ExprVariable | Variant::ExprIntConst | Variant::ExprUIntConst
            | Variant::ExprBoolConst | Variant::ExprFloatConst | Variant::ExprDoubleConst
            | Variant::ExprUnary | Variant::ExprBinary | Variant::ExprTernary
            | Variant::ExprAssignment | Variant::ExprBracket | Variant::ExprFunCall
            | Variant::ExprDot | Variant::ExprPostInc | Variant::ExprPostDec
            | Variant::ExprComma => "Expr"@,
            Variant::ArraySpecifierUnsized | Variant::ArraySpecifierExplicitlySized => {
                "ArraySpecifier"@
            },
            Variant::FunIdentifierIdentifier | Variant::FunIdentifierExpr => "FunIdentifier"@,
            Variant::PrecisionQualifierHigh | Variant::PrecisionQualifierMedium
            | Variant::PrecisionQualifierLow => "PrecisionQualifier"@,
            Variant::InterpolationQualifierSmooth | Variant::InterpolationQualifierFlat
            | Variant::InterpolationQualifierNoPerspective => "InterpolationQualifier"@,
            Variant::StorageQualifierConst | Variant::StorageQualifierInOut
            | Variant::StorageQualifierIn | Variant::StorageQualifierOut
            | Variant::StorageQualifierCentroid | Variant::StorageQualifierPatch
            | Variant::StorageQualifierSample | Variant::StorageQualifierUniform
            | Variant::StorageQualifierBuffer | Variant::StorageQualifierShared
            | Variant::StorageQualifierCoherent | Variant::StorageQualifierVolatile
            | Variant::StorageQualifierRestrict | Variant::StorageQualifierReadOnly
            | Variant::StorageQualifierWriteOnly | Variant::StorageQualifierSubroutine => {
                "StorageQualifier"@
            },
            Variant::LayoutQualifierSpecIdentifier | Variant::LayoutQualifierSpecShared => {
                "LayoutQualifierSpec"@
            },
            Variant::TypeQualifierSpecStorage | Variant::TypeQualifierSpecLayout
            | Variant::TypeQualifierSpecPrecision | Variant::TypeQualifierSpecInterpolation
            | Variant::TypeQualifierSpecInvariant | Variant::TypeQualifierSpecPrecise => {
                "TypeQualifierSpec"@
            },
            Variant::TypeSpecifierNonArrayVoid | Variant::TypeSpecifierNonArrayBool
            | Variant::TypeSpecifierNonArrayInt | Variant::TypeSpecifierNonArrayUInt
            | Variant::TypeSpecifierNonArrayFloat | Variant::TypeSpecifierNonArrayDouble
            | Variant::TypeSpecifierNonArrayVec2 | Variant::TypeSpecifierNonArrayVec3
            | Variant::TypeSpecifierNonArrayVec4 | Variant::TypeSpecifierNonArrayDVec2
            | Variant::TypeSpecifierNonArrayDVec3 | Variant::TypeSpecifierNonArrayDVec4
            | Variant::TypeSpecifierNonArrayBVec2 | Variant::TypeSpecifierNonArrayBVec3
            | Variant::TypeSpecifierNonArrayBVec4 | Variant::TypeSpecifierNonArrayIVec2
            | Variant::TypeSpecifierNonArrayIVec3 | Variant::TypeSpecifierNonArrayIVec4
            | Variant::TypeSpecifierNonArrayUVec2 | Variant::TypeSpecifierNonArrayUVec3
            | Variant::TypeSpecifierNonArrayUVec4 | Variant::TypeSpecifierNonArrayMat2
            | Variant::TypeSpecifierNonArrayMat3 | Variant::TypeSpecifierNonArrayMat4
            | Variant::TypeSpecifierNonArrayMat23 | Variant::TypeSpecifierNonArrayMat24
            | Variant::TypeSpecifierNonArrayMat32 | Variant::TypeSpecifierNonArrayMat34
            | Variant::TypeSpecifierNonArrayMat42 | Variant::TypeSpecifierNonArrayMat43
            | Variant::TypeSpecifierNonArrayDMat2 | Variant::TypeSpecifierNonArrayDMat3
            | Variant::TypeSpecifierNonArrayDMat4 | Variant::TypeSpecifierNonArrayDMat23
            | Variant::TypeSpecifierNonArrayDMat24 | Variant::TypeSpecifierNonArrayDMat32
            | Variant::TypeSpecifierNonArrayDMat34 | Variant::TypeSpecifierNonArrayDMat42
            | Variant::TypeSpecifierNonArrayDMat43 | Variant::TypeSpecifierNonArraySampler1D
            | Variant::TypeSpecifierNonArrayImage1D | Variant::TypeSpecifierNonArraySampler2D
            | Variant::TypeSpecifierNonArrayImage2D | Variant::TypeSpecifierNonArraySampler3D
            | Variant::TypeSpecifierNonArrayImage3D
            | Variant::TypeSpecifierNonArraySamplerCube
            | Variant::TypeSpecifierNonArrayImageCube
            | Variant::TypeSpecifierNonArraySampler2DRect
            | Variant::TypeSpecifierNonArrayImage2DRect
            | Variant::TypeSpecifierNonArraySampler1DArray
            | Variant::TypeSpecifierNonArrayImage1DArray
            | Variant::TypeSpecifierNonArraySampler2DArray
            | Variant::TypeSpecifierNonArrayImage2DArray
            | Variant::TypeSpecifierNonArraySamplerBuffer
            | Variant::TypeSpecifierNonArrayImageBuffer
            | Variant::TypeSpecifierNonArraySampler2DMS
            | Variant::TypeSpecifierNonArrayImage2DMS
            | Variant::TypeSpecifierNonArraySampler2DMSArray
            | Variant::TypeSpecifierNonArrayImage2DMSArray
            | Variant::TypeSpecifierNonArraySamplerCubeArray
            | Variant::TypeSpecifierNonArrayImageCubeArray
            | Variant::TypeSpecifierNonArraySampler1DShadow
            | Variant::TypeSpecifierNonArraySampler2DShadow
            | Variant::TypeSpecifierNonArraySampler2DRectShadow
            | Variant::TypeSpecifierNonArraySampler1DArrayShadow
            | Variant::TypeSpecifierNonArraySampler2DArrayShadow
            | Variant::TypeSpecifierNonArraySamplerCubeShadow
            | Variant::TypeSpecifierNonArraySamplerCubeArrayShadow
            | Variant::TypeSpecifierNonArrayISampler1D
            | Variant::TypeSpecifierNonArrayIImage1D
            | Variant::TypeSpecifierNonArrayISampler2D
            | Variant::TypeSpecifierNonArrayIImage2D
            | Variant::TypeSpecifierNonArrayISampler3D
            | Variant::TypeSpecifierNonArrayIImage3D
            | Variant::TypeSpecifierNonArrayISamplerCube
            | Variant::TypeSpecifierNonArrayIImageCube
            | Variant::TypeSpecifierNonArrayISampler2DRect
            | Variant::TypeSpecifierNonArrayIImage2DRect
            | Variant::TypeSpecifierNonArrayISampler1DArray
            | Variant::TypeSpecifierNonArrayIImage1DArray
            | Variant::TypeSpecifierNonArrayISampler2DArray
            | Variant::TypeSpecifierNonArrayIImage2DArray
            | Variant::TypeSpecifierNonArrayISamplerBuffer
            | Variant::TypeSpecifierNonArrayIImageBuffer
            | Variant::TypeSpecifierNonArrayISampler2DMS
            | Variant::TypeSpecifierNonArrayIImage2DMS
            | Variant::TypeSpecifierNonArrayISampler2DMSArray
            | Variant::TypeSpecifierNonArrayIImage2DMSArray
            | Variant::TypeSpecifierNonArrayISamplerCubeArray
            | Variant::TypeSpecifierNonArrayIImageCubeArray
            | Variant::TypeSpecifierNonArrayAtomicUInt
            | Variant::TypeSpecifierNonArrayUSampler1D
            | Variant::TypeSpecifierNonArrayUImage1D
            | Variant::TypeSpecifierNonArrayUSampler2D
            | Variant::TypeSpecifierNonArrayUImage2D
            | Variant::TypeSpecifierNonArrayUSampler3D
            | Variant::TypeSpecifierNonArrayUImage3D
            | Variant::TypeSpecifierNonArrayUSamplerCube
            | Variant::TypeSpecifierNonArrayUImageCube
            | Variant::TypeSpecifierNonArrayUSampler2DRect
            | Variant::TypeSpecifierNonArrayUImage2DRect
            | Variant::TypeSpecifierNonArrayUSampler1DArray
            | Variant::TypeSpecifierNonArrayUImage1DArray
            | Variant::TypeSpecifierNonArrayUSampler2DArray
            | Variant::TypeSpecifierNonArrayUImage2DArray
            | Variant::TypeSpecifierNonArrayUSamplerBuffer
            | Variant::TypeSpecifierNonArrayUImageBuffer
            | Variant::TypeSpecifierNonArrayUSampler2DMS
            | Variant::TypeSpecifierNonArrayUImage2DMS
            | Variant::TypeSpecifierNonArrayUSampler2DMSArray
            | Variant::TypeSpecifierNonArrayUImage2DMSArray
            | Variant::TypeSpecifierNonArrayUSamplerCubeArray
            | Variant::TypeSpecifierNonArrayUImageCubeArray
            | Variant::TypeSpecifierNonArrayStruct => "TypeSpecifierNonArray"@,
            Variant::InitializerSimple | Variant::InitializerList => "Initializer"@,
            Variant::FunctionParameterDeclarationNamed
            | Variant::FunctionParameterDeclarationUnnamed => "FunctionParameterDeclaration"@,
            Variant::DeclarationFunctionPrototype | Variant::DeclarationInitDeclaratorList
            | Variant::DeclarationPrecision | Variant::DeclarationBlock
            | Variant::DeclarationGlobal => "Declaration"@,
            Variant::ConditionExpr | Variant::ConditionAssignment => "Condition"@,
            Variant::CaseLabelCase | Variant::CaseLabelDef => "CaseLabel"@,
            Variant::JumpStatementContinue | Variant::JumpStatementBreak
            | Variant::JumpStatementReturn | Variant::JumpStatementDiscard => "JumpStatement"@,
            Variant::ForInitStatementExpression | Variant::ForInitStatementDeclaration => {
                "ForInitStatement"@
            },
            Variant::StatementCompound | Variant::StatementSimple => "Statement"@,
            Variant::SimpleStatementDeclaration | Variant::SimpleStatementExpression
            | Variant::SimpleStatementSelection | Variant::SimpleStatementSwitch
            | Variant::SimpleStatementCaseLabel | Variant::SimpleStatementIteration
            | Variant::SimpleStatementJump => "SimpleStatement"@,
            Variant::SelectionRestStatementStatement | Variant::SelectionRestStatementElse => {
                "SelectionRestStatement"@
            },
            Variant::IterationStatementWhile | Variant::IterationStatementDoWhile
            | Variant::IterationStatementFor => "IterationStatement"@,
            Variant::PreprocessorVersionProfileCore
            | Variant::PreprocessorVersionProfileCompatibility
            | Variant::PreprocessorVersionProfileES => "PreprocessorVersionProfile"@,
            Variant::PreprocessorExtensionBehaviorRequire
            | Variant::PreprocessorExtensionBehaviorEnable
            | Variant::PreprocessorExtensionBehaviorWarn
            | Variant::PreprocessorExtensionBehaviorDisable => "PreprocessorExtensionBehavior"@,
            Variant::PreprocessorExtensionNameAll | Variant::PreprocessorExtensionNameSpecific => {
                "PreprocessorExtensionName"@
            },
            Variant::PreprocessorVersion | Variant::PreprocessorExtension => "Preprocessor"@,
            Variant::ExternalDeclarationPreprocessor
            | Variant::ExternalDeclarationFunctionDefinition
            | Variant::ExternalDeclarationDeclaration => "ExternalDeclaration"@,
        }
    }

    /// The name of the variant within its enumeration.
    pub open spec fn name(self) -> Seq<char> {
        match self {
            Variant::UnaryOpInc => "Inc"@,
            Variant::UnaryOpDec => "Dec"@,
            Variant::UnaryOpAdd => "Add"@,
            Variant::UnaryOpMinus => "Minus"@,
            Variant::UnaryOpNot => "Not"@,
            Variant::UnaryOpComplement => "Complement"@,
            Variant::BinaryOpOr => "Or"@,
            Variant::BinaryOpXor => "Xor"@,
            Variant::BinaryOpAnd => "And"@,
            Variant::BinaryOpBitOr => "BitOr"@,
            Variant::BinaryOpBitXor => "BitXor"@,
            Variant::BinaryOpBitAnd => "BitAnd"@,
            Variant::BinaryOpEqual => "Equal"@,
            Variant::BinaryOpNonEqual => "NonEqual"@,
            Variant::BinaryOpLT => "LT"@,
            Variant::BinaryOpGT => "GT"@,
            Variant::BinaryOpLTE => "LTE"@,
            Variant::BinaryOpGTE => "GTE"@,
            Variant::BinaryOpLShift => "LShift"@,
            Variant::BinaryOpRShift => "RShift"@,
            Variant::BinaryOpAdd => "Add"@,
            Variant::BinaryOpSub => "Sub"@,
            Variant::BinaryOpMult => "Mult"@,
            Variant::BinaryOpDiv => "Div"@,
            Variant::BinaryOpMod => "Mod"@,
            Variant::AssignmentOpEqual => "Equal"@,
            Variant::AssignmentOpMult => "Mult"@,
            Variant::AssignmentOpDiv => "Div"@,
            Variant::AssignmentOpMod => "Mod"@,
            Variant::AssignmentOpAdd => "Add"@,
            Variant::AssignmentOpSub => "Sub"@,
            Variant::AssignmentOpLShift => "LShift"@,
            Variant::AssignmentOpRShift => "RShift"@,
            Variant::AssignmentOpAnd => "And"@,
            Variant::AssignmentOpXor => "Xor"@,
            Variant::AssignmentOpOr => "Or"@,
            Variant::ExprVariable => "Variable"@,
            Variant::ExprIntConst => "IntConst"@,
            Variant::ExprUIntConst => "UIntConst"@,
            Variant::ExprBoolConst => "BoolConst"@,
            Variant::ExprFloatConst => "FloatConst"@,
            Variant::ExprDoubleConst => "DoubleConst"@,
            Variant::ExprUnary => "Unary"@,
            Variant::ExprBinary => "Binary"@,
            Variant::ExprTernary => "Ternary"@,
            Variant::ExprAssignment => "Assignment"@,
            Variant::ExprBracket => "Bracket"@,
            Variant::ExprFunCall => "FunCall"@,
            Variant::ExprDot => "Dot"@,
            Variant::ExprPostInc => "PostInc"@,
            Variant::ExprPostDec => "PostDec"@,
            Variant::ExprComma => "Comma"@,
            Variant::ArraySpecifierUnsized => "Unsized"@,
            Variant::ArraySpecifierExplicitlySized => "ExplicitlySized"@,
            Variant::FunIdentifierIdentifier => "Identifier"@,
            Variant::FunIdentifierExpr => "Expr"@,
            Variant::PrecisionQualifierHigh => "High"@,
            Variant::PrecisionQualifierMedium => "Medium"@,
            Variant::PrecisionQualifierLow => "Low"@,
            Variant::InterpolationQualifierSmooth => "Smooth"@,
            Variant::InterpolationQualifierFlat => "Flat"@,
            Variant::InterpolationQualifierNoPerspective => "NoPerspective"@,
            Variant::StorageQualifierConst => "Const"@,
            Variant::StorageQualifierInOut => "InOut"@,
            Variant::StorageQualifierIn => "In"@,
            Variant::StorageQualifierOut => "Out"@,
            Variant::StorageQualifierCentroid => "Centroid"@,
            Variant::StorageQualifierPatch => "Patch"@,
            Variant::StorageQualifierSample => "Sample"@,
            Variant::StorageQualifierUniform => "Uniform"@,
            Variant::StorageQualifierBuffer => "Buffer"@,
            Variant::StorageQualifierShared => "Shared"@,
            Variant::StorageQualifierCoherent => "Coherent"@,
            Variant::StorageQualifierVolatile => "Volatile"@,
            Variant::StorageQualifierRestrict => "Restrict"@,
            Variant::StorageQualifierReadOnly => "ReadOnly"@,
            Variant::StorageQualifierWriteOnly => "WriteOnly"@,
            Variant::StorageQualifierSubroutine => "Subroutine"@,
            Variant::LayoutQualifierSpecIdentifier => "Identifier"@,
            Variant::LayoutQualifierSpecShared => "Shared"@,
            Variant::TypeQualifierSpecStorage => "Storage"@,
            Variant::TypeQualifierSpecLayout => "Layout"@,
            Variant::TypeQualifierSpecPrecision => "Precision"@,
            Variant::TypeQualifierSpecInterpolation => "Interpolation"@,
            Variant::TypeQualifierSpecInvariant => "Invariant"@,
            Variant::TypeQualifierSpecPrecise => "Precise"@,
            Variant::TypeSpecifierNonArrayVoid => "Void"@,
            Variant::TypeSpecifierNonArrayBool => "Bool"@,
            Variant::TypeSpecifierNonArrayInt => "Int"@,
            Variant::TypeSpecifierNonArrayUInt => "UInt"@,
            Variant::TypeSpecifierNonArrayFloat => "Float"@,
            Variant::TypeSpecifierNonArrayDouble => "Double"@,
            Variant::TypeSpecifierNonArrayVec2 => "Vec2"@,
            Variant::TypeSpecifierNonArrayVec3 => "Vec3"@,
            Variant::TypeSpecifierNonArrayVec4 => "Vec4"@,
            Variant::TypeSpecifierNonArrayDVec2 => "DVec2"@,
            Variant::TypeSpecifierNonArrayDVec3 => "DVec3"@,
            Variant::TypeSpecifierNonArrayDVec4 => "DVec4"@,
            Variant::TypeSpecifierNonArrayBVec2 => "BVec2"@,
            Variant::TypeSpecifierNonArrayBVec3 => "BVec3"@,
            Variant::TypeSpecifierNonArrayBVec4 => "BVec4"@,
            Variant::TypeSpecifierNonArrayIVec2 => "IVec2"@,
            Variant::TypeSpecifierNonArrayIVec3 => "IVec3"@,
            Variant::TypeSpecifierNonArrayIVec4 => "IVec4"@,
            Variant::TypeSpecifierNonArrayUVec2 => "UVec2"@,
            Variant::TypeSpecifierNonArrayUVec3 => "UVec3"@,
            Variant::TypeSpecifierNonArrayUVec4 => "UVec4"@,
            Variant::TypeSpecifierNonArrayMat2 => "Mat2"@,
            Variant::TypeSpecifierNonArrayMat3 => "Mat3"@,
            Variant::TypeSpecifierNonArrayMat4 => "Mat4"@,
            Variant::TypeSpecifierNonArrayMat23 => "Mat23"@,
            Variant::TypeSpecifierNonArrayMat24 => "Mat24"@,
            Variant::TypeSpecifierNonArrayMat32 => "Mat32"@,
            Variant::TypeSpecifierNonArrayMat34 => "Mat34"@,
            Variant::TypeSpecifierNonArrayMat42 => "Mat42"@,
            Variant::TypeSpecifierNonArrayMat43 => "Mat43"@,
            Variant::TypeSpecifierNonArrayDMat2 => "DMat2"@,
            Variant::TypeSpecifierNonArrayDMat3 => "DMat3"@,
            Variant::TypeSpecifierNonArrayDMat4 => "DMat4"@,
            Variant::TypeSpecifierNonArrayDMat23 => "DMat23"@,
            Variant::TypeSpecifierNonArrayDMat24 => "DMat24"@,
            Variant::TypeSpecifierNonArrayDMat32 => "DMat32"@,
            Variant::TypeSpecifierNonArrayDMat34 => "DMat34"@,
            Variant::TypeSpecifierNonArrayDMat42 => "DMat42"@,
            Variant::TypeSpecifierNonArrayDMat43 => "DMat43"@,
            Variant::TypeSpecifierNonArraySampler1D => "Sampler1D"@,
            Variant::TypeSpecifierNonArrayImage1D => "Image1D"@,
            Variant::TypeSpecifierNonArraySampler2D => "Sampler2D"@,
            Variant::TypeSpecifierNonArrayImage2D => "Image2D"@,
            Variant::TypeSpecifierNonArraySampler3D => "Sampler3D"@,
            Variant::TypeSpecifierNonArrayImage3D => "Image3D"@,
            Variant::TypeSpecifierNonArraySamplerCube => "SamplerCube"@,
            Variant::TypeSpecifierNonArrayImageCube => "ImageCube"@,
            Variant::TypeSpecifierNonArraySampler2DRect => "Sampler2DRect"@,
            Variant::TypeSpecifierNonArrayImage2DRect => "Image2DRect"@,
            Variant::TypeSpecifierNonArraySampler1DArray => "Sampler1DArray"@,
            Variant::TypeSpecifierNonArrayImage1DArray => "Image1DArray"@,
            Variant::TypeSpecifierNonArraySampler2DArray => "Sampler2DArray"@,
            Variant::TypeSpecifierNonArrayImage2DArray => "Image2DArray"@,
            Variant::TypeSpecifierNonArraySamplerBuffer => "SamplerBuffer"@,
            Variant::TypeSpecifierNonArrayImageBuffer => "ImageBuffer"@,
            Variant::TypeSpecifierNonArraySampler2DMS => "Sampler2DMS"@,
            Variant::TypeSpecifierNonArrayImage2DMS => "Image2DMS"@,
            Variant::TypeSpecifierNonArraySampler2DMSArray => "Sampler2DMSArray"@,
            Variant::TypeSpecifierNonArrayImage2DMSArray => "Image2DMSArray"@,
            Variant::TypeSpecifierNonArraySamplerCubeArray => "SamplerCubeArray"@,
            Variant::TypeSpecifierNonArrayImageCubeArray => "ImageCubeArray"@,
            Variant::TypeSpecifierNonArraySampler1DShadow => "Sampler1DShadow"@,
            Variant::TypeSpecifierNonArraySampler2DShadow => "Sampler2DShadow"@,
            Variant::TypeSpecifierNonArraySampler2DRectShadow => "Sampler2DRectShadow"@,
            Variant::TypeSpecifierNonArraySampler1DArrayShadow => "Sampler1DArrayShadow"@,
            Variant::TypeSpecifierNonArraySampler2DArrayShadow => "Sampler2DArrayShadow"@,
            Variant::TypeSpecifierNonArraySamplerCubeShadow => "SamplerCubeShadow"@,
            Variant::TypeSpecifierNonArraySamplerCubeArrayShadow => "SamplerCubeArrayShadow"@,
            Variant::TypeSpecifierNonArrayISampler1D => "ISampler1D"@,
            Variant::TypeSpecifierNonArrayIImage1D => "IImage1D"@,
            Variant::TypeSpecifierNonArrayISampler2D => "ISampler2D"@,
            Variant::TypeSpecifierNonArrayIImage2D => "IImage2D"@,
            Variant::TypeSpecifierNonArrayISampler3D => "ISampler3D"@,
            Variant::TypeSpecifierNonArrayIImage3D => "IImage3D"@,
            Variant::TypeSpecifierNonArrayISamplerCube => "ISamplerCube"@,
            Variant::TypeSpecifierNonArrayIImageCube => "IImageCube"@,
            Variant::TypeSpecifierNonArrayISampler2DRect => "ISampler2DRect"@,
            Variant::TypeSpecifierNonArrayIImage2DRect => "IImage2DRect"@,
            Variant::TypeSpecifierNonArrayISampler1DArray => "ISampler1DArray"@,
            Variant::TypeSpecifierNonArrayIImage1DArray => "IImage1DArray"@,
            Variant::TypeSpecifierNonArrayISampler2DArray => "ISampler2DArray"@,
            Variant::TypeSpecifierNonArrayIImage2DArray => "IImage2DArray"@,
            Variant::TypeSpecifierNonArrayISamplerBuffer => "ISamplerBuffer"@,
            Variant::TypeSpecifierNonArrayIImageBuffer => "IImageBuffer"@,
            Variant::TypeSpecifierNonArrayISampler2DMS => "ISampler2DMS"@,
            Variant::TypeSpecifierNonArrayIImage2DMS => "IImage2DMS"@,
            Variant::TypeSpecifierNonArrayISampler2DMSArray => "ISampler2DMSArray"@,
            Variant::TypeSpecifierNonArrayIImage2DMSArray => "IImage2DMSArray"@,
            Variant::TypeSpecifierNonArrayISamplerCubeArray => "ISamplerCubeArray"@,
            Variant::TypeSpecifierNonArrayIImageCubeArray => "IImageCubeArray"@,
            Variant::TypeSpecifierNonArrayAtomicUInt => "AtomicUInt"@,
            Variant::TypeSpecifierNonArrayUSampler1D => "USampler1D"@,
            Variant::TypeSpecifierNonArrayUImage1D => "UImage1D"@,
            Variant::TypeSpecifierNonArrayUSampler2D => "USampler2D"@,
            Variant::TypeSpecifierNonArrayUImage2D => "UImage2D"@,
            Variant::TypeSpecifierNonArrayUSampler3D => "USampler3D"@,
            Variant::TypeSpecifierNonArrayUImage3D => "UImage3D"@,
            Variant::TypeSpecifierNonArrayUSamplerCube => "USamplerCube"@,
            Variant::TypeSpecifierNonArrayUImageCube => "UImageCube"@,
            Variant::TypeSpecifierNonArrayUSampler2DRect => "USampler2DRect"@,
            Variant::TypeSpecifierNonArrayUImage2DRect => "UImage2DRect"@,
            Variant::TypeSpecifierNonArrayUSampler1DArray => "USampler1DArray"@,
            Variant::TypeSpecifierNonArrayUImage1DArray => "UImage1DArray"@,
            Variant::TypeSpecifierNonArrayUSampler2DArray => "USampler2DArray"@,
            Variant::TypeSpecifierNonArrayUImage2DArray => "UImage2DArray"@,
            Variant::TypeSpecifierNonArrayUSamplerBuffer => "USamplerBuffer"@,
            Variant::TypeSpecifierNonArrayUImageBuffer => "UImageBuffer"@,
            Variant::TypeSpecifierNonArrayUSampler2DMS => "USampler2DMS"@,
            Variant::TypeSpecifierNonArrayUImage2DMS => "UImage2DMS"@,
            Variant::TypeSpecifierNonArrayUSampler2DMSArray => "USampler2DMSArray"@,
            Variant::TypeSpecifierNonArrayUImage2DMSArray => "UImage2DMSArray"@,
            Variant::TypeSpecifierNonArrayUSamplerCubeArray => "USamplerCubeArray"@,
            Variant::TypeSpecifierNonArrayUImageCubeArray => "UImageCubeArray"@,
            Variant::TypeSpecifierNonArrayStruct => "Struct"@,
            Variant::InitializerSimple => "Simple"@,
            Variant::InitializerList => "List"@,
            Variant::FunctionParameterDeclarationNamed => "Named"@,
            Variant::FunctionParameterDeclarationUnnamed => "Unnamed"@,
            Variant::DeclarationFunctionPrototype => "FunctionPrototype"@,
            Variant::DeclarationInitDeclaratorList => "InitDeclaratorList"@,
            Variant::DeclarationPrecision => "Precision"@,
            Variant::DeclarationBlock => "Block"@,
            Variant::DeclarationGlobal => "Global"@,
            Variant::ConditionExpr => "Expr"@,
            Variant::ConditionAssignment => "Assignment"@,
            Variant::CaseLabelCase => "Case"@,
            Variant::CaseLabelDef => "Def"@,
            Variant::JumpStatementContinue => "Continue"@,
            Variant::JumpStatementBreak => "Break"@,
            Variant::JumpStatementReturn => "Return"@,
            Variant::JumpStatementDiscard => "Discard"@,
            Variant::ForInitStatementExpression => "Expression"@,
            Variant::ForInitStatementDeclaration => "Declaration"@,
            Variant::StatementCompound => "Compound"@,
            Variant::StatementSimple => "Simple"@,
            Variant::SimpleStatementDeclaration => "Declaration"@,
            Variant::SimpleStatementExpression => "Expression"@,
            Variant::SimpleStatementSelection => "Selection"@,
            Variant::SimpleStatementSwitch => "Switch"@,
            Variant::SimpleStatementCaseLabel => "CaseLabel"@,
            Variant::SimpleStatementIteration => "Iteration"@,
            Variant::SimpleStatementJump => "Jump"@,
            Variant::SelectionRestStatementStatement => "Statement"@,
            Variant::SelectionRestStatementElse => "Else"@,
            Variant::IterationStatementWhile => "While"@,
            Variant::IterationStatementDoWhile => "DoWhile"@,
            Variant::IterationStatementFor => "For"@,
            Variant::PreprocessorVersionProfileCore => "Core"@,
            Variant::PreprocessorVersionProfileCompatibility => "Compatibility"@,
            Variant::PreprocessorVersionProfileES => "ES"@,
            Variant::PreprocessorExtensionBehaviorRequire => "Require"@,
            Variant::PreprocessorExtensionBehaviorEnable => "Enable"@,
            Variant::PreprocessorExtensionBehaviorWarn => "Warn"@,
            Variant::PreprocessorExtensionBehaviorDisable => "Disable"@,
            Variant::PreprocessorExtensionNameAll => "All"@,
            Variant::PreprocessorExtensionNameSpecific => "Specific"@,
            Variant::PreprocessorVersion => "Version"@,
            Variant::PreprocessorExtension => "Extension"@,
            Variant::ExternalDeclarationPreprocessor => "Preprocessor"@,
            Variant::ExternalDeclarationFunctionDefinition => "FunctionDefinition"@,
            Variant::ExternalDeclarationDeclaration => "Declaration"@,
        }
    }

    /// The name of the enumeration that the variant belongs to, as text.
    pub fn owner_str(self) -> (s: &'static str)
        ensures
            s@ == self.owner(),
            is_ident(s@),
    {
        proof {
            reveal_strlit("UnaryOp");
            reveal_strlit("BinaryOp");
            reveal_strlit("AssignmentOp");
            reveal_strlit("Expr");
            reveal_strlit("ArraySpecifier");
            reveal_strlit("FunIdentifier");
            reveal_strlit("PrecisionQualifier");
            reveal_strlit("InterpolationQualifier");
            reveal_strlit("StorageQualifier");
            reveal_strlit("LayoutQualifierSpec");
            reveal_strlit("TypeQualifierSpec");
            reveal_strlit("TypeSpecifierNonArray");
            reveal_strlit("Initializer");
            reveal_strlit("FunctionParameterDeclaration");
            reveal_strlit("Declaration");
            reveal_strlit("Condition");
            reveal_strlit("CaseLabel");
            reveal_strlit("JumpStatement");
            reveal_strlit("ForInitStatement");
            reveal_strlit("Statement");
            reveal_strlit("SimpleStatement");
            reveal_strlit("SelectionRestStatement");
            reveal_strlit("IterationStatement");
            reveal_strlit("PreprocessorVersionProfile");
            reveal_strlit("PreprocessorExtensionBehavior");
            reveal_strlit("PreprocessorExtensionName");
            reveal_strlit("Preprocessor");
            reveal_strlit("ExternalDeclaration");
        }
        match self {
            Variant::UnaryOpInc | Variant::UnaryOpDec | Variant::UnaryOpAdd
            | Variant::UnaryOpMinus | Variant::UnaryOpNot | Variant::UnaryOpComplement => "UnaryOp",
            Variant::BinaryOpOr | Variant::BinaryOpXor | Variant::BinaryOpAnd
            | Variant::BinaryOpBitOr | Variant::BinaryOpBitXor | Variant::BinaryOpBitAnd
            | Variant::BinaryOpEqual | Variant::BinaryOpNonEqual | Variant::BinaryOpLT
            | Variant::BinaryOpGT | Variant::BinaryOpLTE | Variant::BinaryOpGTE
            | Variant::BinaryOpLShift | Variant::BinaryOpRShift | Variant::BinaryOpAdd
            | Variant::BinaryOpSub | Variant::BinaryOpMult | Variant::BinaryOpDiv
            | Variant::BinaryOpMod => "BinaryOp",
            Variant::AssignmentOpEqual | Variant::AssignmentOpMult | Variant::AssignmentOpDiv
            | Variant::AssignmentOpMod | Variant::AssignmentOpAdd | Variant::AssignmentOpSub
            | Variant::AssignmentOpLShift | Variant::AssignmentOpRShift
            | Variant::AssignmentOpAnd | Variant::AssignmentOpXor | Variant::AssignmentOpOr => {
                "AssignmentOp"
            },
            Variant::ExprVariable | Variant::ExprIntConst | Variant::ExprUIntConst
            | Variant::ExprBoolConst | Variant::ExprFloatConst | Variant::ExprDoubleConst
            | Variant::ExprUnary | Variant::ExprBinary | Variant::ExprTernary
            | Variant::ExprAssignment | Variant::ExprBracket | Variant::ExprFunCall
            | Variant::ExprDot | Variant::ExprPostInc | Variant::ExprPostDec
            | Variant::ExprComma => "Expr",
            Variant::ArraySpecifierUnsized | Variant::ArraySpecifierExplicitlySized => {
                "ArraySpecifier"
            },
            Variant::FunIdentifierIdentifier | Variant::FunIdentifierExpr => "FunIdentifier",
            Variant::PrecisionQualifierHigh | Variant::PrecisionQualifierMedium
            | Variant::PrecisionQualifierLow => "PrecisionQualifier",
            Variant::InterpolationQualifierSmooth | Variant::InterpolationQualifierFlat
            | Variant::InterpolationQualifierNoPerspective => "InterpolationQualifier",
            Variant::StorageQualifierConst | Variant::StorageQualifierInOut
            | Variant::StorageQualifierIn | Variant::StorageQualifierOut
            | Variant::StorageQualifierCentroid | Variant::StorageQualifierPatch
            | Variant::StorageQualifierSample | Variant::StorageQualifierUniform
            | Variant::StorageQualifierBuffer | Variant::StorageQualifierShared
            | Variant::StorageQualifierCoherent | Variant::StorageQualifierVolatile
            | Variant::StorageQualifierRestrict | Variant::StorageQualifierReadOnly
            | Variant::StorageQualifierWriteOnly | Variant::StorageQualifierSubroutine => {
                "StorageQualifier"
            },
            Variant::LayoutQualifierSpecIdentifier | Variant::LayoutQualifierSpecShared => {
                "LayoutQualifierSpec"
            },
            Variant::TypeQualifierSpecStorage | Variant::TypeQualifierSpecLayout
            | Variant::TypeQualifierSpecPrecision | Variant::TypeQualifierSpecInterpolation
            | Variant::TypeQualifierSpecInvariant | Variant::TypeQualifierSpecPrecise => {
                "TypeQualifierSpec"
            },
            Variant::TypeSpecifierNonArrayVoid | Variant::TypeSpecifierNonArrayBool
            | Variant::TypeSpecifierNonArrayInt | Variant::TypeSpecifierNonArrayUInt
            | Variant::TypeSpecifierNonArrayFloat | Variant::TypeSpecifierNonArrayDouble
            | Variant::TypeSpecifierNonArrayVec2 | Variant::TypeSpecifierNonArrayVec3
            | Variant::TypeSpecifierNonArrayVec4 | Variant::TypeSpecifierNonArrayDVec2
            | Variant::TypeSpecifierNonArrayDVec3 | Variant::TypeSpecifierNonArrayDVec4
            | Variant::TypeSpecifierNonArrayBVec2 | Variant::TypeSpecifierNonArrayBVec3
            | Variant::TypeSpecifierNonArrayBVec4 | Variant::TypeSpecifierNonArrayIVec2
            | Variant::TypeSpecifierNonArrayIVec3 | Variant::TypeSpecifierNonArrayIVec4
            | Variant::TypeSpecifierNonArrayUVec2 | Variant::TypeSpecifierNonArrayUVec3
            | Variant::TypeSpecifierNonArrayUVec4 | Variant::TypeSpecifierNonArrayMat2
            | Variant::TypeSpecifierNonArrayMat3 | Variant::TypeSpecifierNonArrayMat4
            | Variant::TypeSpecifierNonArrayMat23 | Variant::TypeSpecifierNonArrayMat24
            | Variant::TypeSpecifierNonArrayMat32 | Variant::TypeSpecifierNonArrayMat34
            | Variant::TypeSpecifierNonArrayMat42 | Variant::TypeSpecifierNonArrayMat43
            | Variant::TypeSpecifierNonArrayDMat2 | Variant::TypeSpecifierNonArrayDMat3
            | Variant::TypeSpecifierNonArrayDMat4 | Variant::TypeSpecifierNonArrayDMat23
            | Variant::TypeSpecifierNonArrayDMat24 | Variant::TypeSpecifierNonArrayDMat32
            | Variant::TypeSpecifierNonArrayDMat34 | Variant::TypeSpecifierNonArrayDMat42
            | Variant::TypeSpecifierNonArrayDMat43 | Variant::TypeSpecifierNonArraySampler1D
            | Variant::TypeSpecifierNonArrayImage1D | Variant::TypeSpecifierNonArraySampler2D
            | Variant::TypeSpecifierNonArrayImage2D | Variant::TypeSpecifierNonArraySampler3D
            | Variant::TypeSpecifierNonArrayImage3D
            | Variant::TypeSpecifierNonArraySamplerCube
            | Variant::TypeSpecifierNonArrayImageCube
            | Variant::TypeSpecifierNonArraySampler2DRect
            | Variant::TypeSpecifierNonArrayImage2DRect
            | Variant::TypeSpecifierNonArraySampler1DArray
            | Variant::TypeSpecifierNonArrayImage1DArray
            | Variant::TypeSpecifierNonArraySampler2DArray
            | Variant::TypeSpecifierNonArrayImage2DArray
            | Variant::TypeSpecifierNonArraySamplerBuffer
            | Variant::TypeSpecifierNonArrayImageBuffer
            | Variant::TypeSpecifierNonArraySampler2DMS
            | Variant::TypeSpecifierNonArrayImage2DMS
            | Variant::TypeSpecifierNonArraySampler2DMSArray
            | Variant::TypeSpecifierNonArrayImage2DMSArray
            | Variant::TypeSpecifierNonArraySamplerCubeArray
            | Variant::TypeSpecifierNonArrayImageCubeArray
            | Variant::TypeSpecifierNonArraySampler1DShadow
            | Variant::TypeSpecifierNonArraySampler2DShadow
            | Variant::TypeSpecifierNonArraySampler2DRectShadow
            | Variant::TypeSpecifierNonArraySampler1DArrayShadow
            | Variant::TypeSpecifierNonArraySampler2DArrayShadow
            | Variant::TypeSpecifierNonArraySamplerCubeShadow
            | Variant::TypeSpecifierNonArraySamplerCubeArrayShadow
            | Variant::TypeSpecifierNonArrayISampler1D
            | Variant::TypeSpecifierNonArrayIImage1D
            | Variant::TypeSpecifierNonArrayISampler2D
            | Variant::TypeSpecifierNonArrayIImage2D
            | Variant::TypeSpecifierNonArrayISampler3D
            | Variant::TypeSpecifierNonArrayIImage3D
            | Variant::TypeSpecifierNonArrayISamplerCube
            | Variant::TypeSpecifierNonArrayIImageCube
            | Variant::TypeSpecifierNonArrayISampler2DRect
            | Variant::TypeSpecifierNonArrayIImage2DRect
            | Variant::TypeSpecifierNonArrayISampler1DArray
            | Variant::TypeSpecifierNonArrayIImage1DArray
            | Variant::TypeSpecifierNonArrayISampler2DArray
            | Variant::TypeSpecifierNonArrayIImage2DArray
            | Variant::TypeSpecifierNonArrayISamplerBuffer
            | Variant::TypeSpecifierNonArrayIImageBuffer
            | Variant::TypeSpecifierNonArrayISampler2DMS
            | Variant::TypeSpecifierNonArrayIImage2DMS
            | Variant::TypeSpecifierNonArrayISampler2DMSArray
            | Variant::TypeSpecifierNonArrayIImage2DMSArray
            | Variant::TypeSpecifierNonArrayISamplerCubeArray
            | Variant::TypeSpecifierNonArrayIImageCubeArray
            | Variant::TypeSpecifierNonArrayAtomicUInt
            | Variant::TypeSpecifierNonArrayUSampler1D
            | Variant::TypeSpecifierNonArrayUImage1D
            | Variant::TypeSpecifierNonArrayUSampler2D
            | Variant::TypeSpecifierNonArrayUImage2D
            | Variant::TypeSpecifierNonArrayUSampler3D
            | Variant::TypeSpecifierNonArrayUImage3D
            | Variant::TypeSpecifierNonArrayUSamplerCube
            | Variant::TypeSpecifierNonArrayUImageCube
            | Variant::TypeSpecifierNonArrayUSampler2DRect
            | Variant::TypeSpecifierNonArrayUImage2DRect
            | Variant::TypeSpecifierNonArrayUSampler1DArray
            | Variant::TypeSpecifierNonArrayUImage1DArray
            | Variant::TypeSpecifierNonArrayUSampler2DArray
            | Variant::TypeSpecifierNonArrayUImage2DArray
            | Variant::TypeSpecifierNonArrayUSamplerBuffer
            | Variant::TypeSpecifierNonArrayUImageBuffer
            | Variant::TypeSpecifierNonArrayUSampler2DMS
            | Variant::TypeSpecifierNonArrayUImage2DMS
            | Variant::TypeSpecifierNonArrayUSampler2DMSArray
            | Variant::TypeSpecifierNonArrayUImage2DMSArray
            | Variant::TypeSpecifierNonArrayUSamplerCubeArray
            | Variant::TypeSpecifierNonArrayUImageCubeArray
            | Variant::TypeSpecifierNonArrayStruct => "TypeSpecifierNonArray",
            Variant::InitializerSimple | Variant::InitializerList => "Initializer",
            Variant::FunctionParameterDeclarationNamed
            | Variant::FunctionParameterDeclarationUnnamed => "FunctionParameterDeclaration",
            Variant::DeclarationFunctionPrototype | Variant::DeclarationInitDeclaratorList
            | Variant::DeclarationPrecision | Variant::DeclarationBlock
            | Variant::DeclarationGlobal => "Declaration",
            Variant::ConditionExpr | Variant::ConditionAssignment => "Condition",
            Variant::CaseLabelCase | Variant::CaseLabelDef => "CaseLabel",
            Variant::JumpStatementContinue | Variant::JumpStatementBreak
            | Variant::JumpStatementReturn | Variant::JumpStatementDiscard => "JumpStatement",
            Variant::ForInitStatementExpression | Variant::ForInitStatementDeclaration => {
                "ForInitStatement"
            },
            Variant::StatementCompound | Variant::StatementSimple => "Statement",
            Variant::SimpleStatementDeclaration | Variant::SimpleStatementExpression
            | Variant::SimpleStatementSelection | Variant::SimpleStatementSwitch
            | Variant::SimpleStatementCaseLabel | Variant::SimpleStatementIteration
            | Variant::SimpleStatementJump => "SimpleStatement",
            Variant::SelectionRestStatementStatement | Variant::SelectionRestStatementElse => {
                "SelectionRestStatement"
            },
            Variant::IterationStatementWhile | Variant::IterationStatementDoWhile
            | Variant::IterationStatementFor => "IterationStatement",
            Variant::PreprocessorVersionProfileCore
            | Variant::PreprocessorVersionProfileCompatibility
            | Variant::PreprocessorVersionProfileES => "PreprocessorVersionProfile",
            Variant::PreprocessorExtensionBehaviorRequire
            | Variant::PreprocessorExtensionBehaviorEnable
            | Variant::PreprocessorExtensionBehaviorWarn
            | Variant::PreprocessorExtensionBehaviorDisable => "PreprocessorExtensionBehavior",
            Variant::PreprocessorExtensionNameAll | Variant::PreprocessorExtensionNameSpecific => {
                "PreprocessorExtensionName"
            },
            Variant::PreprocessorVersion | Variant::PreprocessorExtension => "Preprocessor",
            Variant::ExternalDeclarationPreprocessor
            | Variant::ExternalDeclarationFunctionDefinition
            | Variant::ExternalDeclarationDeclaration => "ExternalDeclaration",
        }
    }

    /// The name of the variant within its enumeration, as text.
    pub fn name_str(self) -> (s: &'static str)
        ensures
            s@ == self.name(),
            is_ident(s@),
    {
        proof {
            reveal_strlit("Inc");
            reveal_strlit("Dec");
            reveal_strlit("Add");
            reveal_strlit("Minus");
            reveal_strlit("Not");
            reveal_strlit("Complement");
            reveal_strlit("Or");
            reveal_strlit("Xor");
            reveal_strlit("And");
            reveal_strlit("BitOr");
            reveal_strlit("BitXor");
            reveal_strlit("BitAnd");
            reveal_strlit("Equal");
            reveal_strlit("NonEqual");
            reveal_strlit("LT");
            reveal_strlit("GT");
            reveal_strlit("LTE");
            reveal_strlit("GTE");
            reveal_strlit("LShift");
            reveal_strlit("RShift");
            reveal_strlit("Sub");
            reveal_strlit("Mult");
            reveal_strlit("Div");
            reveal_strlit("Mod");
            reveal_strlit("Variable");
            reveal_strlit("IntConst");
            reveal_strlit("UIntConst");
            reveal_strlit("BoolConst");
            reveal_strlit("FloatConst");
            reveal_strlit("DoubleConst");
            reveal_strlit("Unary");
            reveal_strlit("Binary");
            reveal_strlit("Ternary");
            reveal_strlit("Assignment");
            reveal_strlit("Bracket");
            reveal_strlit("FunCall");
            reveal_strlit("Dot");
            reveal_strlit("PostInc");
            reveal_strlit("PostDec");
            reveal_strlit("Comma");
            reveal_strlit("Unsized");
            reveal_strlit("ExplicitlySized");
            reveal_strlit("Identifier");
            reveal_strlit("Expr");
            reveal_strlit("High");
            reveal_strlit("Medium");
            reveal_strlit("Low");
            reveal_strlit("Smooth");
            reveal_strlit("Flat");
            reveal_strlit("NoPerspective");
            reveal_strlit("Const");
            reveal_strlit("InOut");
            reveal_strlit("In");
            reveal_strlit("Out");
            reveal_strlit("Centroid");
            reveal_strlit("Patch");
            reveal_strlit("Sample");
            reveal_strlit("Uniform");
            reveal_strlit("Buffer");
            reveal_strlit("Shared");
            reveal_strlit("Coherent");
            reveal_strlit("Volatile");
            reveal_strlit("Restrict");
            reveal_strlit("ReadOnly");
            reveal_strlit("WriteOnly");
            reveal_strlit("Subroutine");
            reveal_strlit("Storage");
            reveal_strlit("Layout");
            reveal_strlit("Precision");
            reveal_strlit("Interpolation");
            reveal_strlit("Invariant");
            reveal_strlit("Precise");
            reveal_strlit("Void");
            reveal_strlit("Bool");
            reveal_strlit("Int");
            reveal_strlit("UInt");
            reveal_strlit("Float");
            reveal_strlit("Double");
            reveal_strlit("Vec2");
            reveal_strlit("Vec3");
            reveal_strlit("Vec4");
            reveal_strlit("DVec2");
            reveal_strlit("DVec3");
            reveal_strlit("DVec4");
            reveal_strlit("BVec2");
            reveal_strlit("BVec3");
            reveal_strlit("BVec4");
            reveal_strlit("IVec2");
            reveal_strlit("IVec3");
            reveal_strlit("IVec4");
            reveal_strlit("UVec2");
            reveal_strlit("UVec3");
            reveal_strlit("UVec4");
            reveal_strlit("Mat2");
            reveal_strlit("Mat3");
            reveal_strlit("Mat4");
            reveal_strlit("Mat23");
            reveal_strlit("Mat24");
            reveal_strlit("Mat32");
            reveal_strlit("Mat34");
            reveal_strlit("Mat42");
            reveal_strlit("Mat43");
            reveal_strlit("DMat2");
            reveal_strlit("DMat3");
            reveal_strlit("DMat4");
            reveal_strlit("DMat23");
            reveal_strlit("DMat24");
            reveal_strlit("DMat32");
            reveal_strlit("DMat34");
            reveal_strlit("DMat42");
            reveal_strlit("DMat43");
            reveal_strlit("Sampler1D");
            reveal_strlit("Image1D");
            reveal_strlit("Sampler2D");
            reveal_strlit("Image2D");
            reveal_strlit("Sampler3D");
            reveal_strlit("Image3D");
            reveal_strlit("SamplerCube");
            reveal_strlit("ImageCube");
            reveal_strlit("Sampler2DRect");
            reveal_strlit("Image2DRect");
            reveal_strlit("Sampler1DArray");
            reveal_strlit("Image1DArray");
            reveal_strlit("Sampler2DArray");
            reveal_strlit("Image2DArray");
            reveal_strlit("SamplerBuffer");
            reveal_strlit("ImageBuffer");
            reveal_strlit("Sampler2DMS");
            reveal_strlit("Image2DMS");
            reveal_strlit("Sampler2DMSArray");
            reveal_strlit("Image2DMSArray");
            reveal_strlit("SamplerCubeArray");
            reveal_strlit("ImageCubeArray");
            reveal_strlit("Sampler1DShadow");
            reveal_strlit("Sampler2DShadow");
            reveal_strlit("Sampler2DRectShadow");
            reveal_strlit("Sampler1DArrayShadow");
            reveal_strlit("Sampler2DArrayShadow");
            reveal_strlit("SamplerCubeShadow");
            reveal_strlit("SamplerCubeArrayShadow");
            reveal_strlit("ISampler1D");
            reveal_strlit("IImage1D");
            reveal_strlit("ISampler2D");
            reveal_strlit("IImage2D");
            reveal_strlit("ISampler3D");
            reveal_strlit("IImage3D");
            reveal_strlit("ISamplerCube");
            reveal_strlit("IImageCube");
            reveal_strlit("ISampler2DRect");
            reveal_strlit("IImage2DRect");
            reveal_strlit("ISampler1DArray");
            reveal_strlit("IImage1DArray");
            reveal_strlit("ISampler2DArray");
            reveal_strlit("IImage2DArray");
            reveal_strlit("ISamplerBuffer");
            reveal_strlit("IImageBuffer");
            reveal_strlit("ISampler2DMS");
            reveal_strlit("IImage2DMS");
            reveal_strlit("ISampler2DMSArray");
            reveal_strlit("IImage2DMSArray");
            reveal_strlit("ISamplerCubeArray");
            reveal_strlit("IImageCubeArray");
            reveal_strlit("AtomicUInt");
            reveal_strlit("USampler1D");
            reveal_strlit("UImage1D");
            reveal_strlit("USampler2D");
            reveal_strlit("UImage2D");
            reveal_strlit("USampler3D");
            reveal_strlit("UImage3D");
            reveal_strlit("USamplerCube");
            reveal_strlit("UImageCube");
            reveal_strlit("USampler2DRect");
            reveal_strlit("UImage2DRect");
            reveal_strlit("USampler1DArray");
            reveal_strlit("UImage1DArray");
            reveal_strlit("USampler2DArray");
            reveal_strlit("UImage2DArray");
            reveal_strlit("USamplerBuffer");
            reveal_strlit("UImageBuffer");
            reveal_strlit("USampler2DMS");
            reveal_strlit("UImage2DMS");
            reveal_strlit("USampler2DMSArray");
            reveal_strlit("UImage2DMSArray");
            reveal_strlit("USamplerCubeArray");
            reveal_strlit("UImageCubeArray");
            reveal_strlit("Struct");
            reveal_strlit("Simple");
            reveal_strlit("List");
            reveal_strlit("Named");
            reveal_strlit("Unnamed");
            reveal_strlit("FunctionPrototype");
            reveal_strlit("InitDeclaratorList");
            reveal_strlit("Block");
            reveal_strlit("Global");
            reveal_strlit("Case");
            reveal_strlit("Def");
            reveal_strlit("Continue");
            reveal_strlit("Break");
            reveal_strlit("Return");
            reveal_strlit("Discard");
            reveal_strlit("Expression");
            reveal_strlit("Declaration");
            reveal_strlit("Compound");
            reveal_strlit("Selection");
            reveal_strlit("Switch");
            reveal_strlit("CaseLabel");
            reveal_strlit("Iteration");
            reveal_strlit("Jump");
            reveal_strlit("Statement");
            reveal_strlit("Else");
            reveal_strlit("While");
            reveal_strlit("DoWhile");
            reveal_strlit("For");
            reveal_strlit("Core");
            reveal_strlit("Compatibility");
            reveal_strlit("ES");
            reveal_strlit("Require");
            reveal_strlit("Enable");
            reveal_strlit("Warn");
            reveal_strlit("Disable");
            reveal_strlit("All");
            reveal_strlit("Specific");
            reveal_strlit("Version");
            reveal_strlit("Extension");
            reveal_strlit("Preprocessor");
            reveal_strlit("FunctionDefinition");
        }
        match self {
            Variant::UnaryOpInc => "Inc",
            Variant::UnaryOpDec => "Dec",
            Variant::UnaryOpAdd => "Add",
            Variant::UnaryOpMinus => "Minus",
            Variant::UnaryOpNot => "Not",
            Variant::UnaryOpComplement => "Complement",
            Variant::BinaryOpOr => "Or",
            Variant::BinaryOpXor => "Xor",
            Variant::BinaryOpAnd => "And",
            Variant::BinaryOpBitOr => "BitOr",
            Variant::BinaryOpBitXor => "BitXor",
            Variant::BinaryOpBitAnd => "BitAnd",
            Variant::BinaryOpEqual => "Equal",
            Variant::BinaryOpNonEqual => "NonEqual",
            Variant::BinaryOpLT => "LT",
            Variant::BinaryOpGT => "GT",
            Variant::BinaryOpLTE => "LTE",
            Variant::BinaryOpGTE => "GTE",
            Variant::BinaryOpLShift => "LShift",
            Variant::BinaryOpRShift => "RShift",
            Variant::BinaryOpAdd => "Add",
            Variant::BinaryOpSub => "Sub",
            Variant::BinaryOpMult => "Mult",
            Variant::BinaryOpDiv => "Div",
            Variant::BinaryOpMod => "Mod",
            Variant::AssignmentOpEqual => "Equal",
            Variant::AssignmentOpMult => "Mult",
            Variant::AssignmentOpDiv => "Div",
            Variant::AssignmentOpMod => "Mod",
            Variant::AssignmentOpAdd => "Add",
            Variant::AssignmentOpSub => "Sub",
            Variant::AssignmentOpLShift => "LShift",
            Variant::AssignmentOpRShift => "RShift",
            Variant::AssignmentOpAnd => "And",
            Variant::AssignmentOpXor => "Xor",
            Variant::AssignmentOpOr => "Or",
            Variant::ExprVariable => "Variable",
            Variant::ExprIntConst => "IntConst",
            Variant::ExprUIntConst => "UIntConst",
            Variant::ExprBoolConst => "BoolConst",
            Variant::ExprFloatConst => "FloatConst",
            Variant::ExprDoubleConst => "DoubleConst",
            Variant::ExprUnary => "Unary",
            Variant::ExprBinary => "Binary",
            Variant::ExprTernary => "Ternary",
            Variant::ExprAssignment => "Assignment",
            Variant::ExprBracket => "Bracket",
            Variant::ExprFunCall => "FunCall",
            Variant::ExprDot => "Dot",
            Variant::ExprPostInc => "PostInc",
            Variant::ExprPostDec => "PostDec",
            Variant::ExprComma => "Comma",
            Variant::ArraySpecifierUnsized => "Unsized",
            Variant::ArraySpecifierExplicitlySized => "ExplicitlySized",
            Variant::FunIdentifierIdentifier => "Identifier",
            Variant::FunIdentifierExpr => "Expr",
            Variant::PrecisionQualifierHigh => "High",
            Variant::PrecisionQualifierMedium => "Medium",
            Variant::PrecisionQualifierLow => "Low",
            Variant::InterpolationQualifierSmooth => "Smooth",
            Variant::InterpolationQualifierFlat => "Flat",
            Variant::InterpolationQualifierNoPerspective => "NoPerspective",
            Variant::StorageQualifierConst => "Const",
            Variant::StorageQualifierInOut => "InOut",
            Variant::StorageQualifierIn => "In",
            Variant::StorageQualifierOut => "Out",
            Variant::StorageQualifierCentroid => "Centroid",
            Variant::StorageQualifierPatch => "Patch",
            Variant::StorageQualifierSample => "Sample",
            Variant::StorageQualifierUniform => "Uniform",
            Variant::StorageQualifierBuffer => "Buffer",
            Variant::StorageQualifierShared => "Shared",
            Variant::StorageQualifierCoherent => "Coherent",
            Variant::StorageQualifierVolatile => "Volatile",
            Variant::StorageQualifierRestrict => "Restrict",
            Variant::StorageQualifierReadOnly => "ReadOnly",
            Variant::StorageQualifierWriteOnly => "WriteOnly",
            Variant::StorageQualifierSubroutine => "Subroutine",
            Variant::LayoutQualifierSpecIdentifier => "Identifier",
            Variant::LayoutQualifierSpecShared => "Shared",
            Variant::TypeQualifierSpecStorage => "Storage",
            Variant::TypeQualifierSpecLayout => "Layout",
            Variant::TypeQualifierSpecPrecision => "Precision",
            Variant::TypeQualifierSpecInterpolation => "Interpolation",
            Variant::TypeQualifierSpecInvariant => "Invariant",
            Variant::TypeQualifierSpecPrecise => "Precise",
            Variant::TypeSpecifierNonArrayVoid => "Void",
            Variant::TypeSpecifierNonArrayBool => "Bool",
            Variant::TypeSpecifierNonArrayInt => "Int",
            Variant::TypeSpecifierNonArrayUInt => "UInt",
            Variant::TypeSpecifierNonArrayFloat => "Float",
            Variant::TypeSpecifierNonArrayDouble => "Double",
            Variant::TypeSpecifierNonArrayVec2 => "Vec2",
            Variant::TypeSpecifierNonArrayVec3 => "Vec3",
            Variant::TypeSpecifierNonArrayVec4 => "Vec4",
            Variant::TypeSpecifierNonArrayDVec2 => "DVec2",
            Variant::TypeSpecifierNonArrayDVec3 => "DVec3",
            Variant::TypeSpecifierNonArrayDVec4 => "DVec4",
            Variant::TypeSpecifierNonArrayBVec2 => "BVec2",
            Variant::TypeSpecifierNonArrayBVec3 => "BVec3",
            Variant::TypeSpecifierNonArrayBVec4 => "BVec4",
            Variant::TypeSpecifierNonArrayIVec2 => "IVec2",
            Variant::TypeSpecifierNonArrayIVec3 => "IVec3",
            Variant::TypeSpecifierNonArrayIVec4 => "IVec4",
            Variant::TypeSpecifierNonArrayUVec2 => "UVec2",
            Variant::TypeSpecifierNonArrayUVec3 => "UVec3",
            Variant::TypeSpecifierNonArrayUVec4 => "UVec4",
            Variant::TypeSpecifierNonArrayMat2 => "Mat2",
            Variant::TypeSpecifierNonArrayMat3 => "Mat3",
            Variant::TypeSpecifierNonArrayMat4 => "Mat4",
            Variant::TypeSpecifierNonArrayMat23 => "Mat23",
            Variant::TypeSpecifierNonArrayMat24 => "Mat24",
            Variant::TypeSpecifierNonArrayMat32 => "Mat32",
            Variant::TypeSpecifierNonArrayMat34 => "Mat34",
            Variant::TypeSpecifierNonArrayMat42 => "Mat42",
            Variant::TypeSpecifierNonArrayMat43 => "Mat43",
            Variant::TypeSpecifierNonArrayDMat2 => "DMat2",
            Variant::TypeSpecifierNonArrayDMat3 => "DMat3",
            Variant::TypeSpecifierNonArrayDMat4 => "DMat4",
            Variant::TypeSpecifierNonArrayDMat23 => "DMat23",
            Variant::TypeSpecifierNonArrayDMat24 => "DMat24",
            Variant::TypeSpecifierNonArrayDMat32 => "DMat32",
            Variant::TypeSpecifierNonArrayDMat34 => "DMat34",
            Variant::TypeSpecifierNonArrayDMat42 => "DMat42",
            Variant::TypeSpecifierNonArrayDMat43 => "DMat43",
            Variant::TypeSpecifierNonArraySampler1D => "Sampler1D",
            Variant::TypeSpecifierNonArrayImage1D => "Image1D",
            Variant::TypeSpecifierNonArraySampler2D => "Sampler2D",
            Variant::TypeSpecifierNonArrayImage2D => "Image2D",
            Variant::TypeSpecifierNonArraySampler3D => "Sampler3D",
            Variant::TypeSpecifierNonArrayImage3D => "Image3D",
            Variant::TypeSpecifierNonArraySamplerCube => "SamplerCube",
            Variant::TypeSpecifierNonArrayImageCube => "ImageCube",
            Variant::TypeSpecifierNonArraySampler2DRect => "Sampler2DRect",
            Variant::TypeSpecifierNonArrayImage2DRect => "Image2DRect",
            Variant::TypeSpecifierNonArraySampler1DArray => "Sampler1DArray",
            Variant::TypeSpecifierNonArrayImage1DArray => "Image1DArray",
            Variant::TypeSpecifierNonArraySampler2DArray => "Sampler2DArray",
            Variant::TypeSpecifierNonArrayImage2DArray => "Image2DArray",
            Variant::TypeSpecifierNonArraySamplerBuffer => "SamplerBuffer",
            Variant::TypeSpecifierNonArrayImageBuffer => "ImageBuffer",
            Variant::TypeSpecifierNonArraySampler2DMS => "Sampler2DMS",
            Variant::TypeSpecifierNonArrayImage2DMS => "Image2DMS",
            Variant::TypeSpecifierNonArraySampler2DMSArray => "Sampler2DMSArray",
            Variant::TypeSpecifierNonArrayImage2DMSArray => "Image2DMSArray",
            Variant::TypeSpecifierNonArraySamplerCubeArray => "SamplerCubeArray",
            Variant::TypeSpecifierNonArrayImageCubeArray => "ImageCubeArray",
            Variant::TypeSpecifierNonArraySampler1DShadow => "Sampler1DShadow",
            Variant::TypeSpecifierNonArraySampler2DShadow => "Sampler2DShadow",
            Variant::TypeSpecifierNonArraySampler2DRectShadow => "Sampler2DRectShadow",
            Variant::TypeSpecifierNonArraySampler1DArrayShadow => "Sampler1DArrayShadow",
            Variant::TypeSpecifierNonArraySampler2DArrayShadow => "Sampler2DArrayShadow",
            Variant::TypeSpecifierNonArraySamplerCubeShadow => "SamplerCubeShadow",
            Variant::TypeSpecifierNonArraySamplerCubeArrayShadow => "SamplerCubeArrayShadow",
            Variant::TypeSpecifierNonArrayISampler1D => "ISampler1D",
            Variant::TypeSpecifierNonArrayIImage1D => "IImage1D",
            Variant::TypeSpecifierNonArrayISampler2D => "ISampler2D",
            Variant::TypeSpecifierNonArrayIImage2D => "IImage2D",
            Variant::TypeSpecifierNonArrayISampler3D => "ISampler3D",
            Variant::TypeSpecifierNonArrayIImage3D => "IImage3D",
            Variant::TypeSpecifierNonArrayISamplerCube => "ISamplerCube",
            Variant::TypeSpecifierNonArrayIImageCube => "IImageCube",
            Variant::TypeSpecifierNonArrayISampler2DRect => "ISampler2DRect",
            Variant::TypeSpecifierNonArrayIImage2DRect => "IImage2DRect",
            Variant::TypeSpecifierNonArrayISampler1DArray => "ISampler1DArray",
            Variant::TypeSpecifierNonArrayIImage1DArray => "IImage1DArray",
            Variant::TypeSpecifierNonArrayISampler2DArray => "ISampler2DArray",
            Variant::TypeSpecifierNonArrayIImage2DArray => "IImage2DArray",
            Variant::TypeSpecifierNonArrayISamplerBuffer => "ISamplerBuffer",
            Variant::TypeSpecifierNonArrayIImageBuffer => "IImageBuffer",
            Variant::TypeSpecifierNonArrayISampler2DMS => "ISampler2DMS",
            Variant::TypeSpecifierNonArrayIImage2DMS => "IImage2DMS",
            Variant::TypeSpecifierNonArrayISampler2DMSArray => "ISampler2DMSArray",
            Variant::TypeSpecifierNonArrayIImage2DMSArray => "IImage2DMSArray",
            Variant::TypeSpecifierNonArrayISamplerCubeArray => "ISamplerCubeArray",
            Variant::TypeSpecifierNonArrayIImageCubeArray => "IImageCubeArray",
            Variant::TypeSpecifierNonArrayAtomicUInt => "AtomicUInt",
            Variant::TypeSpecifierNonArrayUSampler1D => "USampler1D",
            Variant::TypeSpecifierNonArrayUImage1D => "UImage1D",
            Variant::TypeSpecifierNonArrayUSampler2D => "USampler2D",
            Variant::TypeSpecifierNonArrayUImage2D => "UImage2D",
            Variant::TypeSpecifierNonArrayUSampler3D => "USampler3D",
            Variant::TypeSpecifierNonArrayUImage3D => "UImage3D",
            Variant::TypeSpecifierNonArrayUSamplerCube => "USamplerCube",
            Variant::TypeSpecifierNonArrayUImageCube => "UImageCube",
            Variant::TypeSpecifierNonArrayUSampler2DRect => "USampler2DRect",
            Variant::TypeSpecifierNonArrayUImage2DRect => "UImage2DRect",
            Variant::TypeSpecifierNonArrayUSampler1DArray => "USampler1DArray",
            Variant::TypeSpecifierNonArrayUImage1DArray => "UImage1DArray",
            Variant::TypeSpecifierNonArrayUSampler2DArray => "USampler2DArray",
            Variant::TypeSpecifierNonArrayUImage2DArray => "UImage2DArray",
            Variant::TypeSpecifierNonArrayUSamplerBuffer => "USamplerBuffer",
            Variant::TypeSpecifierNonArrayUImageBuffer => "UImageBuffer",
            Variant::TypeSpecifierNonArrayUSampler2DMS => "USampler2DMS",
            Variant::TypeSpecifierNonArrayUImage2DMS => "UImage2DMS",
            Variant::TypeSpecifierNonArrayUSampler2DMSArray => "USampler2DMSArray",
            Variant::TypeSpecifierNonArrayUImage2DMSArray => "UImage2DMSArray",
            Variant::TypeSpecifierNonArrayUSamplerCubeArray => "USamplerCubeArray",
            Variant::TypeSpecifierNonArrayUImageCubeArray => "UImageCubeArray",
            Variant::TypeSpecifierNonArrayStruct => "Struct",
            Variant::InitializerSimple => "Simple",
            Variant::InitializerList => "List",
            Variant::FunctionParameterDeclarationNamed => "Named",
            Variant::FunctionParameterDeclarationUnnamed => "Unnamed",
            Variant::DeclarationFunctionPrototype => "FunctionPrototype",
            Variant::DeclarationInitDeclaratorList => "InitDeclaratorList",
            Variant::DeclarationPrecision => "Precision",
            Variant::DeclarationBlock => "Block",
            Variant::DeclarationGlobal => "Global",
            Variant::ConditionExpr => "Expr",
            Variant::ConditionAssignment => "Assignment",
            Variant::CaseLabelCase => "Case",
            Variant::CaseLabelDef => "Def",
            Variant::JumpStatementContinue => "Continue",
            Variant::JumpStatementBreak => "Break",
            Variant::JumpStatementReturn => "Return",
            Variant::JumpStatementDiscard => "Discard",
            Variant::ForInitStatementExpression => "Expression",
            Variant::ForInitStatementDeclaration => "Declaration",
            Variant::StatementCompound => "Compound",
            Variant::StatementSimple => "Simple",
            Variant::SimpleStatementDeclaration => "Declaration",
            Variant::SimpleStatementExpression => "Expression",
            Variant::SimpleStatementSelection => "Selection",
            Variant::SimpleStatementSwitch => "Switch",
            Variant::SimpleStatementCaseLabel => "CaseLabel",
            Variant::SimpleStatementIteration => "Iteration",
            Variant::SimpleStatementJump => "Jump",
            Variant::SelectionRestStatementStatement => "Statement",
            Variant::SelectionRestStatementElse => "Else",
            Variant::IterationStatementWhile => "While",
            Variant::IterationStatementDoWhile => "DoWhile",
            Variant::IterationStatementFor => "For",
            Variant::PreprocessorVersionProfileCore => "Core",
            Variant::PreprocessorVersionProfileCompatibility => "Compatibility",
            Variant::PreprocessorVersionProfileES => "ES",
            Variant::PreprocessorExtensionBehaviorRequire => "Require",
            Variant::PreprocessorExtensionBehaviorEnable => "Enable",
            Variant::PreprocessorExtensionBehaviorWarn => "Warn",
            Variant::PreprocessorExtensionBehaviorDisable => "Disable",
            Variant::PreprocessorExtensionNameAll => "All",
            Variant::PreprocessorExtensionNameSpecific => "Specific",
            Variant::PreprocessorVersion => "Version",
            Variant::PreprocessorExtension => "Extension",
            Variant::ExternalDeclarationPreprocessor => "Preprocessor",
            Variant::ExternalDeclarationFunctionDefinition => "FunctionDefinition",
            Variant::ExternalDeclarationDeclaration => "Declaration",
        }
    }
}

impl Record {
    /// The name of the struct.
    pub open spec fn name(self) -> Seq<char> {
        match self {
            Record::LayoutQualifier => "LayoutQualifier"@,
            Record::TypeQualifier => "TypeQualifier"@,
            Record::TypeSpecifier => "TypeSpecifier"@,
            Record::StructSpecifier => "StructSpecifier"@,
            Record::StructFieldSpecifier => "StructFieldSpecifier"@,
            Record::FullySpecifiedType => "FullySpecifiedType"@,
            Record::SingleDeclaration => "SingleDeclaration"@,
            Record::SingleDeclarationNoType => "SingleDeclarationNoType"@,
            Record::InitDeclaratorList => "InitDeclaratorList"@,
            Record::FunctionParameterDeclarator => "FunctionParameterDeclarator"@,
            Record::FunctionPrototype => "FunctionPrototype"@,
            Record::Block => "Block"@,
            Record::ForRestStatement => "ForRestStatement"@,
            Record::CompoundStatement => "CompoundStatement"@,
            Record::SelectionStatement => "SelectionStatement"@,
            Record::SwitchStatement => "SwitchStatement"@,
            Record::FunctionDefinition => "FunctionDefinition"@,
            Record::PreprocessorVersion => "PreprocessorVersion"@,
            Record::PreprocessorExtension => "PreprocessorExtension"@,
        }
    }

    /// The name of the struct, as text.
    pub fn name_str(self) -> (s: &'static str)
        ensures
            s@ == self.name(),
            is_ident(s@),
    {
        proof {
            reveal_strlit("LayoutQualifier");
            reveal_strlit("TypeQualifier");
            reveal_strlit("TypeSpecifier");
            reveal_strlit("StructSpecifier");
            reveal_strlit("StructFieldSpecifier");
            reveal_strlit("FullySpecifiedType");
            reveal_strlit("SingleDeclaration");
            reveal_strlit("SingleDeclarationNoType");
            reveal_strlit("InitDeclaratorList");
            reveal_strlit("FunctionParameterDeclarator");
            reveal_strlit("FunctionPrototype");
            reveal_strlit("Block");
            reveal_strlit("ForRestStatement");
            reveal_strlit("CompoundStatement");
            reveal_strlit("SelectionStatement");
            reveal_strlit("SwitchStatement");
            reveal_strlit("FunctionDefinition");
            reveal_strlit("PreprocessorVersion");
            reveal_strlit("PreprocessorExtension");
        }
        match self {
            Record::LayoutQualifier => "LayoutQualifier",
            Record::TypeQualifier => "TypeQualifier",
            Record::TypeSpecifier => "TypeSpecifier",
            Record::StructSpecifier => "StructSpecifier",
            Record::StructFieldSpecifier => "StructFieldSpecifier",
            Record::FullySpecifiedType => "FullySpecifiedType",
            Record::SingleDeclaration => "SingleDeclaration",
            Record::SingleDeclarationNoType => "SingleDeclarationNoType",
            Record::InitDeclaratorList => "InitDeclaratorList",
            Record::FunctionParameterDeclarator => "FunctionParameterDeclarator",
            Record::FunctionPrototype => "FunctionPrototype",
            Record::Block => "Block",
            Record::ForRestStatement => "ForRestStatement",
            Record::CompoundStatement => "CompoundStatement",
            Record::SelectionStatement => "SelectionStatement",
            Record::SwitchStatement => "SwitchStatement",
            Record::FunctionDefinition => "FunctionDefinition",
            Record::PreprocessorVersion => "PreprocessorVersion",
            Record::PreprocessorExtension => "PreprocessorExtension",
        }
    }
}

impl Field {
    /// The name of the field.
    pub open spec fn name(self) -> Seq<char> {
        match self {
            Field::Ids => "ids"@,
            Field::Qualifiers => "qualifiers"@,
            Field::Ty => "ty"@,
            Field::ArraySpecifier => "array_specifier"@,
            Field::Name => "name"@,
            Field::Fields => "fields"@,
            Field::Qualifier => "qualifier"@,
            Field::Identifiers => "identifiers"@,
            Field::Initializer => "initializer"@,
            Field::Head => "head"@,
            Field::Tail => "tail"@,
            Field::ArraySpec => "array_spec"@,
            Field::Parameters => "parameters"@,
            Field::Identifier => "identifier"@,
            Field::Condition => "condition"@,
            Field::PostExpr => "post_expr"@,
            Field::StatementList => "statement_list"@,
            Field::Cond => "cond"@,
            Field::Rest => "rest"@,
            Field::Body => "body"@,
            Field::Prototype => "prototype"@,
            Field::Statement => "statement"@,
            Field::Version => "version"@,
            Field::Profile => "profile"@,
            Field::Behavior => "behavior"@,
        }
    }

    /// The name of the field, as text.
    pub fn name_str(self) -> (s: &'static str)
        ensures
            s@ == self.name(),
            is_ident(s@),
    {
        proof {
            reveal_strlit("ids");
            reveal_strlit("qualifiers");
            reveal_strlit("ty");
            reveal_strlit("array_specifier");
            reveal_strlit("name");
            reveal_strlit("fields");
            reveal_strlit("qualifier");
            reveal_strlit("identifiers");
            reveal_strlit("initializer");
            reveal_strlit("head");
            reveal_strlit("tail");
            reveal_strlit("array_spec");
            reveal_strlit("parameters");
            reveal_strlit("identifier");
            reveal_strlit("condition");
            reveal_strlit("post_expr");
            reveal_strlit("statement_list");
            reveal_strlit("cond");
            reveal_strlit("rest");
            reveal_strlit("body");
            reveal_strlit("prototype");
            reveal_strlit("statement");
            reveal_strlit("version");
            reveal_strlit("profile");
            reveal_strlit("behavior");
        }
        match self {
            Field::Ids => "ids",
            Field::Qualifiers => "qualifiers",
            Field::Ty => "ty",
            Field::ArraySpecifier => "array_specifier",
            Field::Name => "name",
            Field::Fields => "fields",
            Field::Qualifier => "qualifier",
            Field::Identifiers => "identifiers",
            Field::Initializer => "initializer",
            Field::Head => "head",
            Field::Tail => "tail",
            Field::ArraySpec => "array_spec",
            Field::Parameters => "parameters",
            Field::Identifier => "identifier",
            Field::Condition => "condition",
            Field::PostExpr => "post_expr",
            Field::StatementList => "statement_list",
            Field::Cond => "cond",
            Field::Rest => "rest",
            Field::Body => "body",
            Field::Prototype => "prototype",
            Field::Statement => "statement",
            Field::Version => "version",
            Field::Profile => "profile",
            Field::Behavior => "behavior",
        }
    }
}

/// The character of a text at a position, or a blank past its end.
pub open spec fn char_at(s: Seq<char>, i: int) -> char {
    if 0 <= i < s.len() {
        s[i]
    } else {
        ' '
    }
}

/// The length of a text and its first nine characters. Equal texts have equal marks; the names
/// of the syntax tree are few enough to be told apart by their marks.
pub open spec fn mark(s: Seq<char>) -> (nat, char, char, char, char, char, char, char, char, char) {
    (
        s.len(),
        char_at(s, 0),
        char_at(s, 1),
        char_at(s, 2),
        char_at(s, 3),
        char_at(s, 4),
        char_at(s, 5),
        char_at(s, 6),
        char_at(s, 7),
        char_at(s, 8),
    )
}

/// No two variants are spelled alike: the names of the enumeration and of the variant tell
/// which variant is meant.
#[verifier::rlimit(60)]
pub proof fn lemma_variant_spelling(a: Variant, b: Variant)
    requires
        a.owner() == b.owner(),
        a.name() == b.name(),
    ensures
        a == b,
{
    reveal_strlit("UnaryOp");
    reveal_strlit("BinaryOp");
    reveal_strlit("AssignmentOp");
    reveal_strlit("Expr");
    reveal_strlit("ArraySpecifier");
    reveal_strlit("FunIdentifier");
    reveal_strlit("PrecisionQualifier");
    reveal_strlit("InterpolationQualifier");
    reveal_strlit("StorageQualifier");
    reveal_strlit("LayoutQualifierSpec");
    reveal_strlit("TypeQualifierSpec");
    reveal_strlit("TypeSpecifierNonArray");
    reveal_strlit("Initializer");
    reveal_strlit("FunctionParameterDeclaration");
    reveal_strlit("Declaration");
    reveal_strlit("Condition");
    reveal_strlit("CaseLabel");
    reveal_strlit("JumpStatement");
    reveal_strlit("ForInitStatement");
    reveal_strlit("Statement");
    reveal_strlit("SimpleStatement");
    reveal_strlit("SelectionRestStatement");
    reveal_strlit("IterationStatement");
    reveal_strlit("PreprocessorVersionProfile");
    reveal_strlit("PreprocessorExtensionBehavior");
    reveal_strlit("PreprocessorExtensionName");
    reveal_strlit("Preprocessor");
    reveal_strlit("ExternalDeclaration");
    reveal_strlit("Inc");
    reveal_strlit("Dec");
    reveal_strlit("Add");
    reveal_strlit("Minus");
    reveal_strlit("Not");
    reveal_strlit("Complement");
    reveal_strlit("Or");
    reveal_strlit("Xor");
    reveal_strlit("And");
    reveal_strlit("BitOr");
    reveal_strlit("BitXor");
    reveal_strlit("BitAnd");
    reveal_strlit("Equal");
    reveal_strlit("NonEqual");
    reveal_strlit("LT");
    reveal_strlit("GT");
    reveal_strlit("LTE");
    reveal_strlit("GTE");
    reveal_strlit("LShift");
    reveal_strlit("RShift");
    reveal_strlit("Sub");
    reveal_strlit("Mult");
    reveal_strlit("Div");
    reveal_strlit("Mod");
    reveal_strlit("Variable");
    reveal_strlit("IntConst");
    reveal_strlit("UIntConst");
    reveal_strlit("BoolConst");
    reveal_strlit("FloatConst");
    reveal_strlit("DoubleConst");
    reveal_strlit("Unary");
    reveal_strlit("Binary");
    reveal_strlit("Ternary");
    reveal_strlit("Assignment");
    reveal_strlit("Bracket");
    reveal_strlit("FunCall");
    reveal_strlit("Dot");
    reveal_strlit("PostInc");
    reveal_strlit("PostDec");
    reveal_strlit("Comma");
    reveal_strlit("Unsized");
    reveal_strlit("ExplicitlySized");
    reveal_strlit("Identifier");
    reveal_strlit("High");
    reveal_strlit("Medium");
    reveal_strlit("Low");
    reveal_strlit("Smooth");
    reveal_strlit("Flat");
    reveal_strlit("NoPerspective");
    reveal_strlit("Const");
    reveal_strlit("InOut");
    reveal_strlit("In");
    reveal_strlit("Out");
    reveal_strlit("Centroid");
    reveal_strlit("Patch");
    reveal_strlit("Sample");
    reveal_strlit("Uniform");
    reveal_strlit("Buffer");
    reveal_strlit("Shared");
    reveal_strlit("Coherent");
    reveal_strlit("Volatile");
    reveal_strlit("Restrict");
    reveal_strlit("ReadOnly");
    reveal_strlit("WriteOnly");
    reveal_strlit("Subroutine");
    reveal_strlit("Storage");
    reveal_strlit("Layout");
    reveal_strlit("Precision");
    reveal_strlit("Interpolation");
    reveal_strlit("Invariant");
    reveal_strlit("Precise");
    reveal_strlit("Void");
    reveal_strlit("Bool");
    reveal_strlit("Int");
    reveal_strlit("UInt");
    reveal_strlit("Float");
    reveal_strlit("Double");
    reveal_strlit("Vec2");
    reveal_strlit("Vec3");
    reveal_strlit("Vec4");
    reveal_strlit("DVec2");
    reveal_strlit("DVec3");
    reveal_strlit("DVec4");
    reveal_strlit("BVec2");
    reveal_strlit("BVec3");
    reveal_strlit("BVec4");
    reveal_strlit("IVec2");
    reveal_strlit("IVec3");
    reveal_strlit("IVec4");
    reveal_strlit("UVec2");
    reveal_strlit("UVec3");
    reveal_strlit("UVec4");
    reveal_strlit("Mat2");
    reveal_strlit("Mat3");
    reveal_strlit("Mat4");
    reveal_strlit("Mat23");
    reveal_strlit("Mat24");
    reveal_strlit("Mat32");
    reveal_strlit("Mat34");
    reveal_strlit("Mat42");
    reveal_strlit("Mat43");
    reveal_strlit("DMat2");
    reveal_strlit("DMat3");
    reveal_strlit("DMat4");
    reveal_strlit("DMat23");
    reveal_strlit("DMat24");
    reveal_strlit("DMat32");
    reveal_strlit("DMat34");
    reveal_strlit("DMat42");
    reveal_strlit("DMat43");
    reveal_strlit("Sampler1D");
    reveal_strlit("Image1D");
    reveal_strlit("Sampler2D");
    reveal_strlit("Image2D");
    reveal_strlit("Sampler3D");
    reveal_strlit("Image3D");
    reveal_strlit("SamplerCube");
    reveal_strlit("ImageCube");
    reveal_strlit("Sampler2DRect");
    reveal_strlit("Image2DRect");
    reveal_strlit("Sampler1DArray");
    reveal_strlit("Image1DArray");
    reveal_strlit("Sampler2DArray");
    reveal_strlit("Image2DArray");
    reveal_strlit("SamplerBuffer");
    reveal_strlit("ImageBuffer");
    reveal_strlit("Sampler2DMS");
    reveal_strlit("Image2DMS");
    reveal_strlit("Sampler2DMSArray");
    reveal_strlit("Image2DMSArray");
    reveal_strlit("SamplerCubeArray");
    reveal_strlit("ImageCubeArray");
    reveal_strlit("Sampler1DShadow");
    reveal_strlit("Sampler2DShadow");
    reveal_strlit("Sampler2DRectShadow");
    reveal_strlit("Sampler1DArrayShadow");
    reveal_strlit("Sampler2DArrayShadow");
    reveal_strlit("SamplerCubeShadow");
    reveal_strlit("SamplerCubeArrayShadow");
    reveal_strlit("ISampler1D");
    reveal_strlit("IImage1D");
    reveal_strlit("ISampler2D");
    reveal_strlit("IImage2D");
    reveal_strlit("ISampler3D");
    reveal_strlit("IImage3D");
    reveal_strlit("ISamplerCube");
    reveal_strlit("IImageCube");
    reveal_strlit("ISampler2DRect");
    reveal_strlit("IImage2DRect");
    reveal_strlit("ISampler1DArray");
    reveal_strlit("IImage1DArray");
    reveal_strlit("ISampler2DArray");
    reveal_strlit("IImage2DArray");
    reveal_strlit("ISamplerBuffer");
    reveal_strlit("IImageBuffer");
    reveal_strlit("ISampler2DMS");
    reveal_strlit("IImage2DMS");
    reveal_strlit("ISampler2DMSArray");
    reveal_strlit("IImage2DMSArray");
    reveal_strlit("ISamplerCubeArray");
    reveal_strlit("IImageCubeArray");
    reveal_strlit("AtomicUInt");
    reveal_strlit("USampler1D");
    reveal_strlit("UImage1D");
    reveal_strlit("USampler2D");
    reveal_strlit("UImage2D");
    reveal_strlit("USampler3D");
    reveal_strlit("UImage3D");
    reveal_strlit("USamplerCube");
    reveal_strlit("UImageCube");
    reveal_strlit("USampler2DRect");
    reveal_strlit("UImage2DRect");
    reveal_strlit("USampler1DArray");
    reveal_strlit("UImage1DArray");
    reveal_strlit("USampler2DArray");
    reveal_strlit("UImage2DArray");
    reveal_strlit("USamplerBuffer");
    reveal_strlit("UImageBuffer");
    reveal_strlit("USampler2DMS");
    reveal_strlit("UImage2DMS");
    reveal_strlit("USampler2DMSArray");
    reveal_strlit("UImage2DMSArray");
    reveal_strlit("USamplerCubeArray");
    reveal_strlit("UImageCubeArray");
    reveal_strlit("Struct");
    reveal_strlit("Simple");
    reveal_strlit("List");
    reveal_strlit("Named");
    reveal_strlit("Unnamed");
    reveal_strlit("FunctionPrototype");
    reveal_strlit("InitDeclaratorList");
    reveal_strlit("Block");
    reveal_strlit("Global");
    reveal_strlit("Case");
    reveal_strlit("Def");
    reveal_strlit("Continue");
    reveal_strlit("Break");
    reveal_strlit("Return");
    reveal_strlit("Discard");
    reveal_strlit("Expression");
    reveal_strlit("Compound");
    reveal_strlit("Selection");
    reveal_strlit("Switch");
    reveal_strlit("Iteration");
    reveal_strlit("Jump");
    reveal_strlit("Else");
    reveal_strlit("While");
    reveal_strlit("DoWhile");
    reveal_strlit("For");
    reveal_strlit("Core");
    reveal_strlit("Compatibility");
    reveal_strlit("ES");
    reveal_strlit("Require");
    reveal_strlit("Enable");
    reveal_strlit("Warn");
    reveal_strlit("Disable");
    reveal_strlit("All");
    reveal_strlit("Specific");
    reveal_strlit("Version");
    reveal_strlit("Extension");
    reveal_strlit("FunctionDefinition");
    assert(mark(a.owner()) == mark(b.owner()));
    assert(mark(a.name()) == mark(b.name()));
}

/// No two structs are spelled alike.
pub proof fn lemma_record_spelling(a: Record, b: Record)
    requires
        a.name() == b.name(),
    ensures
        a == b,
{
    reveal_strlit("LayoutQualifier");
    reveal_strlit("TypeQualifier");
    reveal_strlit("TypeSpecifier");
    reveal_strlit("StructSpecifier");
    reveal_strlit("StructFieldSpecifier");
    reveal_strlit("FullySpecifiedType");
    reveal_strlit("SingleDeclaration");
    reveal_strlit("SingleDeclarationNoType");
    reveal_strlit("InitDeclaratorList");
    reveal_strlit("FunctionParameterDeclarator");
    reveal_strlit("FunctionPrototype");
    reveal_strlit("Block");
    reveal_strlit("ForRestStatement");
    reveal_strlit("CompoundStatement");
    reveal_strlit("SelectionStatement");
    reveal_strlit("SwitchStatement");
    reveal_strlit("FunctionDefinition");
    reveal_strlit("PreprocessorVersion");
    reveal_strlit("PreprocessorExtension");
    assert(mark(a.name()) == mark(b.name()));
}

/// No two fields are spelled alike.
pub proof fn lemma_field_spelling(a: Field, b: Field)
    requires
        a.name() == b.name(),
    ensures
        a == b,
{
    reveal_strlit("ids");
    reveal_strlit("qualifiers");
    reveal_strlit("ty");
    reveal_strlit("array_specifier");
    reveal_strlit("name");
    reveal_strlit("fields");
    reveal_strlit("qualifier");
    reveal_strlit("identifiers");
    reveal_strlit("initializer");
    reveal_strlit("head");
    reveal_strlit("tail");
    reveal_strlit("array_spec");
    reveal_strlit("parameters");
    reveal_strlit("identifier");
    reveal_strlit("condition");
    reveal_strlit("post_expr");
    reveal_strlit("statement_list");
    reveal_strlit("cond");
    reveal_strlit("rest");
    reveal_strlit("body");
    reveal_strlit("prototype");
    reveal_strlit("statement");
    reveal_strlit("version");
    reveal_strlit("profile");
    reveal_strlit("behavior");
    assert(mark(a.name()) == mark(b.name()));
}

} // verus!
