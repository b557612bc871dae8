//! Expressions: the operators, the expressions, array specifiers and function identifiers.

use crate::code::{Code, SpecCode, codes_view};
use crate::model::{SpecArraySpecifier, SpecExpr, SpecFunIdentifier, exprs_view};
use crate::names::Variant;
use crate::quoted::Quoted;
use crate::syntax::{ArraySpecifier, AssignmentOp, BinaryOp, Expr, FunIdentifier, UnaryOp};
use vstd::prelude::*;

verus! {

/// The constructor expression of a unary operator.
pub open spec fn unary_op_code(op: UnaryOp) -> SpecCode {
    match op {
        UnaryOp::Inc => SpecCode::Unit(Variant::UnaryOpInc),
        UnaryOp::Dec => SpecCode::Unit(Variant::UnaryOpDec),
        UnaryOp::Add => SpecCode::Unit(Variant::UnaryOpAdd),
        UnaryOp::Minus => SpecCode::Unit(Variant::UnaryOpMinus),
        UnaryOp::Not => SpecCode::Unit(Variant::UnaryOpNot),
        UnaryOp::Complement => SpecCode::Unit(Variant::UnaryOpComplement),
    }
}

/// Tokenizes a unary operator.
pub fn tokenize_unary_op(op: &UnaryOp) -> (code: Code)
    ensures
        code@ == unary_op_code(op@),
{
    match op {
        UnaryOp::Inc => Code::Unit(Variant::UnaryOpInc),
        UnaryOp::Dec => Code::Unit(Variant::UnaryOpDec),
        UnaryOp::Add => Code::Unit(Variant::UnaryOpAdd),
        UnaryOp::Minus => Code::Unit(Variant::UnaryOpMinus),
        UnaryOp::Not => Code::Unit(Variant::UnaryOpNot),
        UnaryOp::Complement => Code::Unit(Variant::UnaryOpComplement),
    }
}

/// The constructor expression of a binary operator.
pub open spec fn binary_op_code(op: BinaryOp) -> SpecCode {
    match op {
        BinaryOp::Or => SpecCode::Unit(Variant::BinaryOpOr),
        BinaryOp::Xor => SpecCode::Unit(Variant::BinaryOpXor),
        BinaryOp::And => SpecCode::Unit(Variant::BinaryOpAnd),
        BinaryOp::BitOr => SpecCode::Unit(Variant::BinaryOpBitOr),
        BinaryOp::BitXor => SpecCode::Unit(Variant::BinaryOpBitXor),
        BinaryOp::BitAnd => SpecCode::Unit(Variant::BinaryOpBitAnd),
        BinaryOp::Equal => SpecCode::Unit(Variant::BinaryOpEqual),
        BinaryOp::NonEqual => SpecCode::Unit(Variant::BinaryOpNonEqual),
        BinaryOp::LT => SpecCode::Unit(Variant::BinaryOpLT),
        BinaryOp::GT => SpecCode::Unit(Variant::BinaryOpGT),
        BinaryOp::LTE => SpecCode::Unit(Variant::BinaryOpLTE),
        BinaryOp::GTE => SpecCode::Unit(Variant::BinaryOpGTE),
        BinaryOp::LShift => SpecCode::Unit(Variant::BinaryOpLShift),
        BinaryOp::RShift => SpecCode::Unit(Variant::BinaryOpRShift),
        BinaryOp::Add => SpecCode::Unit(Variant::BinaryOpAdd),
        BinaryOp::Sub => SpecCode::Unit(Variant::BinaryOpSub),
        BinaryOp::Mult => SpecCode::Unit(Variant::BinaryOpMult),
        BinaryOp::Div => SpecCode::Unit(Variant::BinaryOpDiv),
        BinaryOp::Mod => SpecCode::Unit(Variant::BinaryOpMod),
    }
}

/// Tokenizes a binary operator.
pub fn tokenize_binary_op(op: &BinaryOp) -> (code: Code)
    ensures
        code@ == binary_op_code(op@),
{
    match op {
        BinaryOp::Or => Code::Unit(Variant::BinaryOpOr),
        BinaryOp::Xor => Code::Unit(Variant::BinaryOpXor),
        BinaryOp::And => Code::Unit(Variant::BinaryOpAnd),
        BinaryOp::BitOr => Code::Unit(Variant::BinaryOpBitOr),
        BinaryOp::BitXor => Code::Unit(Variant::BinaryOpBitXor),
        BinaryOp::BitAnd => Code::Unit(Variant::BinaryOpBitAnd),
        BinaryOp::Equal => Code::Unit(Variant::BinaryOpEqual),
        BinaryOp::NonEqual => Code::Unit(Variant::BinaryOpNonEqual),
        BinaryOp::LT => Code::Unit(Variant::BinaryOpLT),
        BinaryOp::GT => Code::Unit(Variant::BinaryOpGT),
        BinaryOp::LTE => Code::Unit(Variant::BinaryOpLTE),
        BinaryOp::GTE => Code::Unit(Variant::BinaryOpGTE),
        BinaryOp::LShift => Code::Unit(Variant::BinaryOpLShift),
        BinaryOp::RShift => Code::Unit(Variant::BinaryOpRShift),
        BinaryOp::Add => Code::Unit(Variant::BinaryOpAdd),
        BinaryOp::Sub => Code::Unit(Variant::BinaryOpSub),
        BinaryOp::Mult => Code::Unit(Variant::BinaryOpMult),
        BinaryOp::Div => Code::Unit(Variant::BinaryOpDiv),
        BinaryOp::Mod => Code::Unit(Variant::BinaryOpMod),
    }
}

/// The constructor expression of an assignment operator.
pub open spec fn assignment_op_code(op: AssignmentOp) -> SpecCode {
    match op {
        AssignmentOp::Equal => SpecCode::Unit(Variant::AssignmentOpEqual),
        AssignmentOp::Mult => SpecCode::Unit(Variant::AssignmentOpMult),
        AssignmentOp::Div => SpecCode::Unit(Variant::AssignmentOpDiv),
        AssignmentOp::Mod => SpecCode::Unit(Variant::AssignmentOpMod),
        AssignmentOp::Add => SpecCode::Unit(Variant::AssignmentOpAdd),
        AssignmentOp::Sub => SpecCode::Unit(Variant::AssignmentOpSub),
        AssignmentOp::LShift => SpecCode::Unit(Variant::AssignmentOpLShift),
        AssignmentOp::RShift => SpecCode::Unit(Variant::AssignmentOpRShift),
        AssignmentOp::And => SpecCode::Unit(Variant::AssignmentOpAnd),
        AssignmentOp::Xor => SpecCode::Unit(Variant::AssignmentOpXor),
        AssignmentOp::Or => SpecCode::Unit(Variant::AssignmentOpOr),
    }
}

/// Tokenizes an assignment operator.
pub fn tokenize_assignment_op(op: &AssignmentOp) -> (code: Code)
    ensures
        code@ == assignment_op_code(op@),
{
    match op {
        AssignmentOp::Equal => Code::Unit(Variant::AssignmentOpEqual),
        AssignmentOp::Mult => Code::Unit(Variant::AssignmentOpMult),
        AssignmentOp::Div => Code::Unit(Variant::AssignmentOpDiv),
        AssignmentOp::Mod => Code::Unit(Variant::AssignmentOpMod),
        AssignmentOp::Add => Code::Unit(Variant::AssignmentOpAdd),
        AssignmentOp::Sub => Code::Unit(Variant::AssignmentOpSub),
        AssignmentOp::LShift => Code::Unit(Variant::AssignmentOpLShift),
        AssignmentOp::RShift => Code::Unit(Variant::AssignmentOpRShift),
        AssignmentOp::And => Code::Unit(Variant::AssignmentOpAnd),
        AssignmentOp::Xor => Code::Unit(Variant::AssignmentOpXor),
        AssignmentOp::Or => Code::Unit(Variant::AssignmentOpOr),
    }
}

/// The constructor expression of an expression.
pub open spec fn expr_code(expr: SpecExpr) -> SpecCode
    decreases expr,
{
    match expr {
        SpecExpr::Variable(i) => SpecCode::Call(Variant::ExprVariable, seq![SpecCode::Name(i)]),
        SpecExpr::IntConst(x) => SpecCode::Call(Variant::ExprIntConst, seq![SpecCode::Int(x)]),
        SpecExpr::UIntConst(x) => SpecCode::Call(Variant::ExprUIntConst, seq![SpecCode::UInt(x)]),
        SpecExpr::BoolConst(x) => SpecCode::Call(Variant::ExprBoolConst, seq![SpecCode::Bool(x)]),
        SpecExpr::FloatConst(x) => SpecCode::Call(
            Variant::ExprFloatConst,
            seq![SpecCode::Float(x)],
        ),
        SpecExpr::DoubleConst(x) => SpecCode::Call(
            Variant::ExprDoubleConst,
            seq![SpecCode::Double(x)],
        ),
        SpecExpr::Unary(op, e) => SpecCode::Call(
            Variant::ExprUnary,
            seq![unary_op_code(op), SpecCode::boxed(expr_code(*e))],
        ),
        SpecExpr::Binary(op, l, r) => SpecCode::Call(
            Variant::ExprBinary,
            seq![
                binary_op_code(op),
                SpecCode::boxed(expr_code(*l)),
                SpecCode::boxed(expr_code(*r)),
            ],
        ),
        SpecExpr::Ternary(c, s, e) => SpecCode::Call(
            Variant::ExprTernary,
            seq![
                SpecCode::boxed(expr_code(*c)),
                SpecCode::boxed(expr_code(*s)),
                SpecCode::boxed(expr_code(*e)),
            ],
        ),
        SpecExpr::Assignment(v, op, e) => SpecCode::Call(
            Variant::ExprAssignment,
            seq![
                SpecCode::boxed(expr_code(*v)),
                assignment_op_code(op),
                SpecCode::boxed(expr_code(*e)),
            ],
        ),
        SpecExpr::Bracket(e, a) => SpecCode::Call(
            Variant::ExprBracket,
            seq![SpecCode::boxed(expr_code(*e)), array_specifier_code(a)],
        ),
        SpecExpr::FunCall(fun, args) => SpecCode::Call(
            Variant::ExprFunCall,
            seq![fun_identifier_code(fun), exprs_code(args)],
        ),
        SpecExpr::Dot(e, i) => SpecCode::Call(
            Variant::ExprDot,
            seq![SpecCode::boxed(expr_code(*e)), SpecCode::Owned(i)],
        ),
        SpecExpr::PostInc(e) => SpecCode::Call(
            Variant::ExprPostInc,
            seq![SpecCode::boxed(expr_code(*e))],
        ),
        SpecExpr::PostDec(e) => SpecCode::Call(
            Variant::ExprPostDec,
            seq![SpecCode::boxed(expr_code(*e))],
        ),
        SpecExpr::Comma(a, b) => SpecCode::Call(
            Variant::ExprComma,
            seq![SpecCode::boxed(expr_code(*a)), SpecCode::boxed(expr_code(*b))],
        ),
    }
}

/// Tokenizes an expression.
pub fn tokenize_expr(expr: &Expr) -> (code: Code)
    ensures
        code@ == expr_code(expr@),
    decreases expr,
{
    match expr {
        Expr::Variable(i) => Code::call1(Variant::ExprVariable, Code::Name(i.clone())),
        Expr::IntConst(x) => Code::call1(Variant::ExprIntConst, Code::Int(*x)),
        Expr::UIntConst(x) => Code::call1(Variant::ExprUIntConst, Code::UInt(*x)),
        Expr::BoolConst(x) => Code::call1(Variant::ExprBoolConst, Code::Bool(*x)),
        Expr::FloatConst(x) => Code::call1(Variant::ExprFloatConst, Code::Float(*x)),
        Expr::DoubleConst(x) => Code::call1(Variant::ExprDoubleConst, Code::Double(*x)),
        Expr::Unary(op, e) => {
            let op = tokenize_unary_op(op);
            let e = Box::new(tokenize_expr(e)).quote();
            Code::call2(Variant::ExprUnary, op, e)
        },
        Expr::Binary(op, l, r) => {
            let op = tokenize_binary_op(op);
            let l = Box::new(tokenize_expr(l)).quote();
            let r = Box::new(tokenize_expr(r)).quote();
            Code::call3(Variant::ExprBinary, op, l, r)
        },
        Expr::Ternary(c, s, e) => {
            let c = Box::new(tokenize_expr(c)).quote();
            let s = Box::new(tokenize_expr(s)).quote();
            let e = Box::new(tokenize_expr(e)).quote();
            Code::call3(Variant::ExprTernary, c, s, e)
        },
        Expr::Assignment(v, op, e) => {
            let v = Box::new(tokenize_expr(v)).quote();
            let op = tokenize_assignment_op(op);
            let e = Box::new(tokenize_expr(e)).quote();
            Code::call3(Variant::ExprAssignment, v, op, e)
        },
        Expr::Bracket(e, a) => {
            let e = Box::new(tokenize_expr(e)).quote();
            let a = tokenize_array_spec(a);
            Code::call2(Variant::ExprBracket, e, a)
        },
        Expr::FunCall(fun, args) => {
            let fun = tokenize_function_identifier(fun);
            let args = tokenize_exprs(args);
            Code::call2(Variant::ExprFunCall, fun, args)
        },
        Expr::Dot(e, i) => {
            let e = Box::new(tokenize_expr(e)).quote();
            let i = i.as_str().quote();
            Code::call2(Variant::ExprDot, e, i)
        },
        Expr::PostInc(e) => Code::call1(Variant::ExprPostInc, Box::new(tokenize_expr(e)).quote()),
        Expr::PostDec(e) => Code::call1(Variant::ExprPostDec, Box::new(tokenize_expr(e)).quote()),
        Expr::Comma(a, b) => {
            let a = Box::new(tokenize_expr(a)).quote();
            let b = Box::new(tokenize_expr(b)).quote();
            Code::call2(Variant::ExprComma, a, b)
        },
    }
}

/// The constructor expression of a sequence of expressions: a vector of their constructor
/// expressions, as many and in the same order.
pub open spec fn exprs_code(s: Seq<SpecExpr>) -> SpecCode
    decreases s,
{
    SpecCode::List(
        Seq::new(
            s.len(),
            |i: int|
                if 0 <= i < s.len() {
                    expr_code(s[i])
                } else {
                    arbitrary()
                },
        ),
    )
}

/// Tokenizes a sequence of expressions, one after the other.
pub fn tokenize_exprs(exprs: &Vec<Expr>) -> (code: Code)
    ensures
        code@ == exprs_code(exprs_view(*exprs)),
    decreases exprs,
{
    let mut items: Vec<Code> = Vec::new();
    let mut i: usize = 0;
    while i < exprs.len()
        invariant
            i <= exprs.len(),
            items@.len() == i,
            forall|j: int|
                0 <= j < i ==> (#[trigger] items@[j])@ == expr_code(exprs@[j]@),
        decreases exprs.len() - i,
    {
        let item = tokenize_expr(&exprs[i]);
        items.push(item);
        i += 1;
    }
    assert(codes_view(items) =~= exprs_code(exprs_view(*exprs))->List_0);
    Code::List(items)
}

/// The constructor expression of a boxed expression that may be absent.
pub open spec fn optional_boxed_expr_code(o: Option<Box<SpecExpr>>) -> SpecCode {
    SpecCode::optional(
        match o {
            Some(x) => Some(SpecCode::boxed(expr_code(*x))),
            None => None,
        },
    )
}

/// The constructor expression of an expression that may be absent.
pub open spec fn optional_expr_code(o: Option<SpecExpr>) -> SpecCode {
    SpecCode::optional(
        match o {
            Some(x) => Some(expr_code(x)),
            None => None,
        },
    )
}

/// The constructor expression of an array specifier.
pub open spec fn array_specifier_code(a: SpecArraySpecifier) -> SpecCode
    decreases a,
{
    match a {
        SpecArraySpecifier::Unsized => SpecCode::Unit(Variant::ArraySpecifierUnsized),
        SpecArraySpecifier::ExplicitlySized(e) => SpecCode::Call(
            Variant::ArraySpecifierExplicitlySized,
            seq![SpecCode::boxed(expr_code(*e))],
        ),
    }
}

/// Tokenizes an array specifier.
pub fn tokenize_array_spec(a: &ArraySpecifier) -> (code: Code)
    ensures
        code@ == array_specifier_code(a@),
    decreases a,
{
    match a {
        ArraySpecifier::Unsized => Code::Unit(Variant::ArraySpecifierUnsized),
        ArraySpecifier::ExplicitlySized(e) => {
            let e = Box::new(tokenize_expr(e)).quote();
            Code::call1(Variant::ArraySpecifierExplicitlySized, e)
        },
    }
}

/// The constructor expression of an array specifier that may be absent.
pub open spec fn optional_array_specifier_code(o: Option<SpecArraySpecifier>) -> SpecCode {
    SpecCode::optional(
        match o {
            Some(x) => Some(array_specifier_code(x)),
            None => None,
        },
    )
}

/// The constructor expression of a function identifier.
pub open spec fn fun_identifier_code(i: SpecFunIdentifier) -> SpecCode
    decreases i,
{
    match i {
        SpecFunIdentifier::Identifier(n) => SpecCode::Call(
            Variant::FunIdentifierIdentifier,
            seq![SpecCode::Owned(n)],
        ),
        SpecFunIdentifier::Expr(e) => SpecCode::Call(
            Variant::FunIdentifierExpr,
            seq![SpecCode::boxed(expr_code(*e))],
        ),
    }
}

/// Tokenizes a function identifier.
pub fn tokenize_function_identifier(i: &FunIdentifier) -> (code: Code)
    ensures
        code@ == fun_identifier_code(i@),
    decreases i,
{
    match i {
        FunIdentifier::Identifier(n) => {
            let n = n.as_str().quote();
            Code::call1(Variant::FunIdentifierIdentifier, n)
        },
        FunIdentifier::Expr(e) => {
            let e = Box::new(tokenize_expr(e)).quote();
            Code::call1(Variant::FunIdentifierExpr, e)
        },
    }
}

} // verus!
