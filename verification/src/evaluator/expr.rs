//! Evaluation of the operators, the expressions, array specifiers and function identifiers.

use crate::code::SpecCode;
use crate::evaluator::{
    eval_bool, eval_double, eval_float, eval_int, eval_name, eval_owned, eval_uint,
};
use crate::model::{SpecArraySpecifier, SpecExpr, SpecFunIdentifier};
use crate::names::Variant;
use crate::syntax::{AssignmentOp, BinaryOp, UnaryOp};
use crate::tokenizer::expr::{
    array_specifier_code, assignment_op_code, binary_op_code, expr_code, exprs_code,
    fun_identifier_code, optional_array_specifier_code, optional_boxed_expr_code,
    optional_expr_code, unary_op_code,
};
use vstd::prelude::*;

verus! {

/// The unary operator that a constructor expression builds, if it builds one.
#[verifier::opaque]
pub open spec fn eval_unary_op(c: SpecCode) -> Option<UnaryOp> {
    match c {
        SpecCode::Unit(Variant::UnaryOpInc) => Some(UnaryOp::Inc),
        SpecCode::Unit(Variant::UnaryOpDec) => Some(UnaryOp::Dec),
        SpecCode::Unit(Variant::UnaryOpAdd) => Some(UnaryOp::Add),
        SpecCode::Unit(Variant::UnaryOpMinus) => Some(UnaryOp::Minus),
        SpecCode::Unit(Variant::UnaryOpNot) => Some(UnaryOp::Not),
        SpecCode::Unit(Variant::UnaryOpComplement) => Some(UnaryOp::Complement),
        _ => None,
    }
}

/// Evaluating the constructor expression of a unary operator gives it back.
pub proof fn lemma_unary_op_round_trip(op: UnaryOp)
    ensures
        eval_unary_op(unary_op_code(op)) == Some(op),
{
    reveal(eval_unary_op);
}

/// The binary operator that a constructor expression builds, if it builds one.
#[verifier::opaque]
pub open spec fn eval_binary_op(c: SpecCode) -> Option<BinaryOp> {
    match c {
        SpecCode::Unit(Variant::BinaryOpOr) => Some(BinaryOp::Or),
        SpecCode::Unit(Variant::BinaryOpXor) => Some(BinaryOp::Xor),
        SpecCode::Unit(Variant::BinaryOpAnd) => Some(BinaryOp::And),
        SpecCode::Unit(Variant::BinaryOpBitOr) => Some(BinaryOp::BitOr),
        SpecCode::Unit(Variant::BinaryOpBitXor) => Some(BinaryOp::BitXor),
        SpecCode::Unit(Variant::BinaryOpBitAnd) => Some(BinaryOp::BitAnd),
        SpecCode::Unit(Variant::BinaryOpEqual) => Some(BinaryOp::Equal),
        SpecCode::Unit(Variant::BinaryOpNonEqual) => Some(BinaryOp::NonEqual),
        SpecCode::Unit(Variant::BinaryOpLT) => Some(BinaryOp::LT),
        SpecCode::Unit(Variant::BinaryOpGT) => Some(BinaryOp::GT),
        SpecCode::Unit(Variant::BinaryOpLTE) => Some(BinaryOp::LTE),
        SpecCode::Unit(Variant::BinaryOpGTE) => Some(BinaryOp::GTE),
        SpecCode::Unit(Variant::BinaryOpLShift) => Some(BinaryOp::LShift),
        SpecCode::Unit(Variant::BinaryOpRShift) => Some(BinaryOp::RShift),
        SpecCode::Unit(Variant::BinaryOpAdd) => Some(BinaryOp::Add),
        SpecCode::Unit(Variant::BinaryOpSub) => Some(BinaryOp::Sub),
        SpecCode::Unit(Variant::BinaryOpMult) => Some(BinaryOp::Mult),
        SpecCode::Unit(Variant::BinaryOpDiv) => Some(BinaryOp::Div),
        SpecCode::Unit(Variant::BinaryOpMod) => Some(BinaryOp::Mod),
        _ => None,
    }
}

/// Evaluating the constructor expression of a binary operator gives it back.
pub proof fn lemma_binary_op_round_trip(op: BinaryOp)
    ensures
        eval_binary_op(binary_op_code(op)) == Some(op),
{
    reveal(eval_binary_op);
}

/// The assignment operator that a constructor expression builds, if it builds one.
#[verifier::opaque]
pub open spec fn eval_assignment_op(c: SpecCode) -> Option<AssignmentOp> {
    match c {
        SpecCode::Unit(Variant::AssignmentOpEqual) => Some(AssignmentOp::Equal),
        SpecCode::Unit(Variant::AssignmentOpMult) => Some(AssignmentOp::Mult),
        SpecCode::Unit(Variant::AssignmentOpDiv) => Some(AssignmentOp::Div),
        SpecCode::Unit(Variant::AssignmentOpMod) => Some(AssignmentOp::Mod),
        SpecCode::Unit(Variant::AssignmentOpAdd) => Some(AssignmentOp::Add),
        SpecCode::Unit(Variant::AssignmentOpSub) => Some(AssignmentOp::Sub),
        SpecCode::Unit(Variant::AssignmentOpLShift) => Some(AssignmentOp::LShift),
        SpecCode::Unit(Variant::AssignmentOpRShift) => Some(AssignmentOp::RShift),
        SpecCode::Unit(Variant::AssignmentOpAnd) => Some(AssignmentOp::And),
        SpecCode::Unit(Variant::AssignmentOpXor) => Some(AssignmentOp::Xor),
        SpecCode::Unit(Variant::AssignmentOpOr) => Some(AssignmentOp::Or),
        _ => None,
    }
}

/// Evaluating the constructor expression of an assignment operator gives it back.
pub proof fn lemma_assignment_op_round_trip(op: AssignmentOp)
    ensures
        eval_assignment_op(assignment_op_code(op)) == Some(op),
{
    reveal(eval_assignment_op);
}

/// The expression that a constructor expression builds, if it builds one.
pub open spec fn eval_expr(c: SpecCode) -> Option<SpecExpr>
    decreases c,
{
    match c {
        SpecCode::Call(Variant::ExprVariable, args) => {
            if args.len() == 1 {
                match eval_name(args[0]) {
                    Some(i) => Some(SpecExpr::Variable(i)),
                    None => None,
                }
            } else {
                None
            }
        },
        SpecCode::Call(Variant::ExprIntConst, args) => {
            if args.len() == 1 {
                match eval_int(args[0]) {
                    Some(x) => Some(SpecExpr::IntConst(x)),
                    None => None,
                }
            } else {
                None
            }
        },
        SpecCode::Call(Variant::ExprUIntConst, args) => {
            if args.len() == 1 {
                match eval_uint(args[0]) {
                    Some(x) => Some(SpecExpr::UIntConst(x)),
                    None => None,
                }
            } else {
                None
            }
        },
        SpecCode::Call(Variant::ExprBoolConst, args) => {
            if args.len() == 1 {
                match eval_bool(args[0]) {
                    Some(x) => Some(SpecExpr::BoolConst(x)),
                    None => None,
                }
            } else {
                None
            }
        },
        SpecCode::Call(Variant::ExprFloatConst, args) => {
            if args.len() == 1 {
                match eval_float(args[0]) {
                    Some(x) => Some(SpecExpr::FloatConst(x)),
                    None => None,
                }
            } else {
                None
            }
        },
        SpecCode::Call(Variant::ExprDoubleConst, args) => {
            if args.len() == 1 {
                match eval_double(args[0]) {
                    Some(x) => Some(SpecExpr::DoubleConst(x)),
                    None => None,
                }
            } else {
                None
            }
        },
        SpecCode::Call(Variant::ExprUnary, args) => {
            if args.len() == 2 {
                match (eval_unary_op(args[0]), eval_boxed_expr(args[1])) {
                    (Some(op), Some(e)) => Some(SpecExpr::Unary(op, Box::new(e))),
                    _ => None,
                }
            } else {
                None
            }
        },
        SpecCode::Call(Variant::ExprBinary, args) => {
            if args.len() == 3 {
                match (
                    eval_binary_op(args[0]),
                    eval_boxed_expr(args[1]),
                    eval_boxed_expr(args[2]),
                ) {
                    (Some(op), Some(l), Some(r)) => Some(
                        SpecExpr::Binary(op, Box::new(l), Box::new(r)),
                    ),
                    _ => None,
                }
            } else {
                None
            }
        },
        SpecCode::Call(Variant::ExprTernary, args) => {
            if args.len() == 3 {
                match (
                    eval_boxed_expr(args[0]),
                    eval_boxed_expr(args[1]),
                    eval_boxed_expr(args[2]),
                ) {
                    (Some(c), Some(s), Some(e)) => Some(
                        SpecExpr::Ternary(Box::new(c), Box::new(s), Box::new(e)),
                    ),
                    _ => None,
                }
            } else {
                None
            }
        },
        SpecCode::Call(Variant::ExprAssignment, args) => {
            if args.len() == 3 {
                match (
                    eval_boxed_expr(args[0]),
                    eval_assignment_op(args[1]),
                    eval_boxed_expr(args[2]),
                ) {
                    (Some(v), Some(op), Some(e)) => Some(
                        SpecExpr::Assignment(Box::new(v), op, Box::new(e)),
                    ),
                    _ => None,
                }
            } else {
                None
            }
        },
        SpecCode::Call(Variant::ExprBracket, args) => {
            if args.len() == 2 {
                match (eval_boxed_expr(args[0]), eval_array_specifier(args[1])) {
                    (Some(e), Some(a)) => Some(SpecExpr::Bracket(Box::new(e), a)),
                    _ => None,
                }
            } else {
                None
            }
        },
        SpecCode::Call(Variant::ExprFunCall, args) => {
            if args.len() == 2 {
                match (eval_fun_identifier(args[0]), eval_exprs(args[1])) {
                    (Some(fun), Some(args)) => Some(SpecExpr::FunCall(fun, args)),
                    _ => None,
                }
            } else {
                None
            }
        },
        SpecCode::Call(Variant::ExprDot, args) => {
            if args.len() == 2 {
                match (eval_boxed_expr(args[0]), eval_owned(args[1])) {
                    (Some(e), Some(i)) => Some(SpecExpr::Dot(Box::new(e), i)),
                    _ => None,
                }
            } else {
                None
            }
        },
        SpecCode::Call(Variant::ExprPostInc, args) => {
            if args.len() == 1 {
                match eval_boxed_expr(args[0]) {
                    Some(e) => Some(SpecExpr::PostInc(Box::new(e))),
                    None => None,
                }
            } else {
                None
            }
        },
        SpecCode::Call(Variant::ExprPostDec, args) => {
            if args.len() == 1 {
                match eval_boxed_expr(args[0]) {
                    Some(e) => Some(SpecExpr::PostDec(Box::new(e))),
                    None => None,
                }
            } else {
                None
            }
        },
        SpecCode::Call(Variant::ExprComma, args) => {
            if args.len() == 2 {
                match (eval_boxed_expr(args[0]), eval_boxed_expr(args[1])) {
                    (Some(a), Some(b)) => Some(SpecExpr::Comma(Box::new(a), Box::new(b))),
                    _ => None,
                }
            } else {
                None
            }
        },
        _ => None,
    }
}

/// Evaluating the constructor expression of an expression gives it back.
#[verifier::rlimit(40)]
pub proof fn lemma_expr_round_trip(expr: SpecExpr)
    ensures
        eval_expr(expr_code(expr)) == Some(expr),
    decreases expr, 0nat,
{
    match expr {
        SpecExpr::Unary(op, e) => {
            lemma_unary_op_round_trip(op);
            lemma_boxed_expr_round_trip(*e);
        },
        SpecExpr::Binary(op, l, r) => {
            lemma_binary_op_round_trip(op);
            lemma_boxed_expr_round_trip(*l);
            lemma_boxed_expr_round_trip(*r);
        },
        SpecExpr::Ternary(c, s, e) => {
            lemma_boxed_expr_round_trip(*c);
            lemma_boxed_expr_round_trip(*s);
            lemma_boxed_expr_round_trip(*e);
        },
        SpecExpr::Assignment(v, op, e) => {
            lemma_boxed_expr_round_trip(*v);
            lemma_assignment_op_round_trip(op);
            lemma_boxed_expr_round_trip(*e);
        },
        SpecExpr::Bracket(e, a) => {
            lemma_boxed_expr_round_trip(*e);
            lemma_array_specifier_round_trip(a);
        },
        SpecExpr::FunCall(fun, args) => {
            lemma_fun_identifier_round_trip(fun);
            lemma_exprs_round_trip(args);
        },
        SpecExpr::Dot(e, _) => {
            lemma_boxed_expr_round_trip(*e);
        },
        SpecExpr::PostInc(e) => {
            lemma_boxed_expr_round_trip(*e);
        },
        SpecExpr::PostDec(e) => {
            lemma_boxed_expr_round_trip(*e);
        },
        SpecExpr::Comma(a, b) => {
            lemma_boxed_expr_round_trip(*a);
            lemma_boxed_expr_round_trip(*b);
        },
        _ => {},
    }
}

/// The expression that a constructor expression builds behind a fresh indirection, if it
/// builds one.
pub open spec fn eval_boxed_expr(c: SpecCode) -> Option<SpecExpr>
    decreases c,
{
    match c {
        SpecCode::Boxed(inner) => eval_expr(*inner),
        _ => None,
    }
}

/// Evaluating the constructor expression of a boxed expression gives it back.
pub proof fn lemma_boxed_expr_round_trip(x: SpecExpr)
    ensures
        eval_boxed_expr(SpecCode::boxed(expr_code(x))) == Some(x),
    decreases x, 1nat,
{
    lemma_expr_round_trip(x);
}

/// What a constructor expression builds where a boxed expression may be absent: nothing, or the
/// boxed expression, if it builds either.
#[verifier::opaque]
pub open spec fn eval_optional_boxed_expr(c: SpecCode) -> Option<Option<Box<SpecExpr>>> {
    match c {
        SpecCode::Absent => Some(None),
        SpecCode::Present(inner) => match eval_boxed_expr(*inner) {
            Some(x) => Some(Some(Box::new(x))),
            None => None,
        },
        _ => None,
    }
}

/// Evaluating the constructor expression of a boxed expression that may be absent gives it back.
pub proof fn lemma_optional_boxed_expr_round_trip(o: Option<Box<SpecExpr>>)
    ensures
        eval_optional_boxed_expr(optional_boxed_expr_code(o)) == Some(o),
{
    reveal(eval_optional_boxed_expr);
    match o {
        Some(x) => {
            lemma_boxed_expr_round_trip(*x);
        },
        None => {},
    }
}

/// What a constructor expression builds where an expression may be absent: nothing, or the
/// expression, if it builds either.
#[verifier::opaque]
pub open spec fn eval_optional_expr(c: SpecCode) -> Option<Option<SpecExpr>> {
    match c {
        SpecCode::Absent => Some(None),
        SpecCode::Present(inner) => match eval_expr(*inner) {
            Some(x) => Some(Some(x)),
            None => None,
        },
        _ => None,
    }
}

/// Evaluating the constructor expression of an expression that may be absent gives it back.
pub proof fn lemma_optional_expr_round_trip(o: Option<SpecExpr>)
    ensures
        eval_optional_expr(optional_expr_code(o)) == Some(o),
{
    reveal(eval_optional_expr);
    match o {
        Some(x) => {
            lemma_expr_round_trip(x);
        },
        None => {},
    }
}

/// The sequence of expressions that a constructor expression builds, if it builds one: element by
/// element, in the order of the vector.
pub open spec fn eval_exprs(c: SpecCode) -> Option<Seq<SpecExpr>>
    decreases c,
{
    match c {
        SpecCode::List(items) => {
            if forall|i: int|
                0 <= i < items.len() ==> eval_expr(#[trigger] items[i]) is Some {
                Some(
                    Seq::new(
                        items.len(),
                        |i: int|
                            if 0 <= i < items.len() {
                                eval_expr(items[i])->Some_0
                            } else {
                                arbitrary()
                            },
                    ),
                )
            } else {
                None
            }
        },
        _ => None,
    }
}

/// Evaluating the constructor expression of a sequence of expressions gives the sequence back.
pub proof fn lemma_exprs_round_trip(s: Seq<SpecExpr>)
    ensures
        eval_exprs(exprs_code(s)) == Some(s),
    decreases s, 0nat,
{
    let items = exprs_code(s)->List_0;
    assert forall|i: int| 0 <= i < items.len() implies
        eval_expr(#[trigger] items[i]) == Some(s[i]) by {
        lemma_expr_round_trip(s[i]);
    }
    assert(eval_exprs(exprs_code(s))->Some_0 =~= s);
}

/// The array specifier that a constructor expression builds, if it builds one.
pub open spec fn eval_array_specifier(c: SpecCode) -> Option<SpecArraySpecifier>
    decreases c,
{
    match c {
        SpecCode::Unit(Variant::ArraySpecifierUnsized) => Some(SpecArraySpecifier::Unsized),
        SpecCode::Call(Variant::ArraySpecifierExplicitlySized, args) => {
            if args.len() == 1 {
                match eval_boxed_expr(args[0]) {
                    Some(e) => Some(SpecArraySpecifier::ExplicitlySized(Box::new(e))),
                    None => None,
                }
            } else {
                None
            }
        },
        _ => None,
    }
}

/// Evaluating the constructor expression of an array specifier gives it back.
pub proof fn lemma_array_specifier_round_trip(a: SpecArraySpecifier)
    ensures
        eval_array_specifier(array_specifier_code(a)) == Some(a),
    decreases a, 0nat,
{
    match a {
        SpecArraySpecifier::ExplicitlySized(e) => {
            lemma_boxed_expr_round_trip(*e);
        },
        _ => {},
    }
}

/// What a constructor expression builds where an array specifier may be absent: nothing, or the
/// array specifier, if it builds either.
#[verifier::opaque]
pub open spec fn eval_optional_array_specifier(c: SpecCode) -> Option<Option<SpecArraySpecifier>> {
    match c {
        SpecCode::Absent => Some(None),
        SpecCode::Present(inner) => match eval_array_specifier(*inner) {
            Some(x) => Some(Some(x)),
            None => None,
        },
        _ => None,
    }
}

/// Evaluating the constructor expression of an array specifier that may be absent gives it back.
pub proof fn lemma_optional_array_specifier_round_trip(o: Option<SpecArraySpecifier>)
    ensures
        eval_optional_array_specifier(optional_array_specifier_code(o)) == Some(o),
{
    reveal(eval_optional_array_specifier);
    match o {
        Some(x) => {
            lemma_array_specifier_round_trip(x);
        },
        None => {},
    }
}

/// The function identifier that a constructor expression builds, if it builds one.
pub open spec fn eval_fun_identifier(c: SpecCode) -> Option<SpecFunIdentifier>
    decreases c,
{
    match c {
        SpecCode::Call(Variant::FunIdentifierIdentifier, args) => {
            if args.len() == 1 {
                match eval_owned(args[0]) {
                    Some(n) => Some(SpecFunIdentifier::Identifier(n)),
                    None => None,
                }
            } else {
                None
            }
        },
        SpecCode::Call(Variant::FunIdentifierExpr, args) => {
            if args.len() == 1 {
                match eval_boxed_expr(args[0]) {
                    Some(e) => Some(SpecFunIdentifier::Expr(Box::new(e))),
                    None => None,
                }
            } else {
                None
            }
        },
        _ => None,
    }
}

/// Evaluating the constructor expression of a function identifier gives it back.
pub proof fn lemma_fun_identifier_round_trip(i: SpecFunIdentifier)
    ensures
        eval_fun_identifier(fun_identifier_code(i)) == Some(i),
    decreases i, 0nat,
{
    match i {
        SpecFunIdentifier::Expr(e) => {
            lemma_boxed_expr_round_trip(*e);
        },
        _ => {},
    }
}

} // verus!
