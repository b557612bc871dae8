//! Evaluation of compound and simple statements, selections, switches, loops, jumps and function
//! definitions.

use crate::code::SpecCode;
use crate::evaluator::eval_owned;
use crate::evaluator::declarations::{
    eval_boxed_declaration, eval_declaration, eval_function_prototype, eval_initializer,
    lemma_boxed_declaration_round_trip, lemma_declaration_round_trip,
    lemma_function_prototype_round_trip, lemma_initializer_round_trip,
};
use crate::evaluator::expr::{
    eval_boxed_expr, eval_optional_boxed_expr, eval_optional_expr, lemma_boxed_expr_round_trip,
    lemma_optional_boxed_expr_round_trip, lemma_optional_expr_round_trip,
};
use crate::evaluator::types::{eval_fully_specified_type, lemma_fully_specified_type_round_trip};
use crate::model::{
    SpecCaseLabel, SpecCompoundStatement, SpecCondition, SpecExprStatement, SpecForInitStatement,
    SpecForRestStatement, SpecFunctionDefinition, SpecIterationStatement, SpecJumpStatement,
    SpecSelectionRestStatement, SpecSelectionStatement, SpecSimpleStatement, SpecStatement,
    SpecSwitchStatement,
};
use crate::names::{Field, Record, Variant};
use crate::tokenizer::statements::{
    case_label_code, compound_statement_code, condition_code, expr_statement_code,
    for_init_statement_code, for_rest_statement_code, function_definition_code,
    iteration_statement_code, jump_statement_code, optional_condition_code,
    selection_rest_statement_code, selection_statement_code, simple_statement_code,
    statement_code, statements_code, switch_statement_code,
};
use vstd::prelude::*;

verus! {

/// The condition that a constructor expression builds, if it builds one.
#[verifier::opaque]
pub open spec fn eval_condition(c: SpecCode) -> Option<SpecCondition> {
    match c {
        SpecCode::Call(Variant::ConditionExpr, args) => {
            if args.len() == 1 {
                match eval_boxed_expr(args[0]) {
                    Some(e) => Some(SpecCondition::Expr(Box::new(e))),
                    None => None,
                }
            } else {
                None
            }
        },
        SpecCode::Call(Variant::ConditionAssignment, args) => {
            if args.len() == 3 {
                match (
                    eval_fully_specified_type(args[0]),
                    eval_owned(args[1]),
                    eval_initializer(args[2]),
                ) {
                    (Some(ty), Some(name), Some(initializer)) => Some(
                        SpecCondition::Assignment(ty, name, initializer),
                    ),
                    _ => None,
                }
            } else {
                None
            }
        },
        _ => None,
    }
}

/// Evaluating the constructor expression of a condition gives it back.
pub proof fn lemma_condition_round_trip(c: SpecCondition)
    ensures
        eval_condition(condition_code(c)) == Some(c),
{
    reveal(eval_condition);
    match c {
        SpecCondition::Expr(e) => {
            lemma_boxed_expr_round_trip(*e);
        },
        SpecCondition::Assignment(ty, _, initializer) => {
            lemma_fully_specified_type_round_trip(ty);
            lemma_initializer_round_trip(initializer);
        },
    }
}

/// What a constructor expression builds where a condition may be absent: nothing, or the
/// condition, if it builds either.
#[verifier::opaque]
pub open spec fn eval_optional_condition(c: SpecCode) -> Option<Option<SpecCondition>> {
    match c {
        SpecCode::Absent => Some(None),
        SpecCode::Present(inner) => match eval_condition(*inner) {
            Some(x) => Some(Some(x)),
            None => None,
        },
        _ => None,
    }
}

/// Evaluating the constructor expression of a condition that may be absent gives it back.
pub proof fn lemma_optional_condition_round_trip(o: Option<SpecCondition>)
    ensures
        eval_optional_condition(optional_condition_code(o)) == Some(o),
{
    reveal(eval_optional_condition);
    match o {
        Some(x) => {
            lemma_condition_round_trip(x);
        },
        None => {},
    }
}

/// The case label that a constructor expression builds, if it builds one.
#[verifier::opaque]
pub open spec fn eval_case_label(c: SpecCode) -> Option<SpecCaseLabel> {
    match c {
        SpecCode::Call(Variant::CaseLabelCase, args) => {
            if args.len() == 1 {
                match eval_boxed_expr(args[0]) {
                    Some(e) => Some(SpecCaseLabel::Case(Box::new(e))),
                    None => None,
                }
            } else {
                None
            }
        },
        SpecCode::Unit(Variant::CaseLabelDef) => Some(SpecCaseLabel::Def),
        _ => None,
    }
}

/// Evaluating the constructor expression of a case label gives it back.
pub proof fn lemma_case_label_round_trip(cl: SpecCaseLabel)
    ensures
        eval_case_label(case_label_code(cl)) == Some(cl),
{
    reveal(eval_case_label);
    match cl {
        SpecCaseLabel::Case(e) => {
            lemma_boxed_expr_round_trip(*e);
        },
        _ => {},
    }
}

/// The jump statement that a constructor expression builds, if it builds one.
#[verifier::opaque]
pub open spec fn eval_jump_statement(c: SpecCode) -> Option<SpecJumpStatement> {
    match c {
        SpecCode::Unit(Variant::JumpStatementContinue) => Some(SpecJumpStatement::Continue),
        SpecCode::Unit(Variant::JumpStatementBreak) => Some(SpecJumpStatement::Break),
        SpecCode::Call(Variant::JumpStatementReturn, args) => {
            if args.len() == 1 {
                match eval_boxed_expr(args[0]) {
                    Some(e) => Some(SpecJumpStatement::Return(Box::new(e))),
                    None => None,
                }
            } else {
                None
            }
        },
        SpecCode::Unit(Variant::JumpStatementDiscard) => Some(SpecJumpStatement::Discard),
        _ => None,
    }
}

/// Evaluating the constructor expression of a jump statement gives it back.
pub proof fn lemma_jump_statement_round_trip(j: SpecJumpStatement)
    ensures
        eval_jump_statement(jump_statement_code(j)) == Some(j),
{
    reveal(eval_jump_statement);
    match j {
        SpecJumpStatement::Return(e) => {
            lemma_boxed_expr_round_trip(*e);
        },
        _ => {},
    }
}

/// The `for` initialiser that a constructor expression builds, if it builds one.
#[verifier::opaque]
pub open spec fn eval_for_init_statement(c: SpecCode) -> Option<SpecForInitStatement> {
    match c {
        SpecCode::Call(Variant::ForInitStatementExpression, args) => {
            if args.len() == 1 {
                match eval_optional_expr(args[0]) {
                    Some(expr) => Some(SpecForInitStatement::Expression(expr)),
                    None => None,
                }
            } else {
                None
            }
        },
        SpecCode::Call(Variant::ForInitStatementDeclaration, args) => {
            if args.len() == 1 {
                match eval_boxed_declaration(args[0]) {
                    Some(d) => Some(SpecForInitStatement::Declaration(Box::new(d))),
                    None => None,
                }
            } else {
                None
            }
        },
        _ => None,
    }
}

/// Evaluating the constructor expression of a `for` initialiser gives it back.
pub proof fn lemma_for_init_statement_round_trip(i: SpecForInitStatement)
    ensures
        eval_for_init_statement(for_init_statement_code(i)) == Some(i),
{
    reveal(eval_for_init_statement);
    match i {
        SpecForInitStatement::Expression(expr) => {
            lemma_optional_expr_round_trip(expr);
        },
        SpecForInitStatement::Declaration(d) => {
            lemma_boxed_declaration_round_trip(*d);
        },
    }
}

/// The `for` remainder that a constructor expression builds, if it builds one.
#[verifier::opaque]
pub open spec fn eval_for_rest_statement(c: SpecCode) -> Option<SpecForRestStatement> {
    match c {
        SpecCode::Record(Record::ForRestStatement, fields) => {
            if fields.len() == 2
                && fields[0].0 == Field::Condition
                && fields[1].0 == Field::PostExpr {
                match (
                    eval_optional_condition(fields[0].1),
                    eval_optional_boxed_expr(fields[1].1),
                ) {
                    (Some(condition), Some(post_expr)) => Some(
                        SpecForRestStatement { condition, post_expr },
                    ),
                    _ => None,
                }
            } else {
                None
            }
        },
        _ => None,
    }
}

/// Evaluating the constructor expression of a `for` remainder gives it back.
pub proof fn lemma_for_rest_statement_round_trip(r: SpecForRestStatement)
    ensures
        eval_for_rest_statement(for_rest_statement_code(r)) == Some(r),
{
    reveal(eval_for_rest_statement);
    let fields = for_rest_statement_code(r)->Record_1;
    assert(fields.len() == 2);
    lemma_optional_condition_round_trip(r.condition);
    lemma_optional_boxed_expr_round_trip(r.post_expr);
}

/// The compound statement that a constructor expression builds, if it builds one.
pub open spec fn eval_compound_statement(c: SpecCode) -> Option<SpecCompoundStatement>
    decreases c,
{
    match c {
        SpecCode::Record(Record::CompoundStatement, fields) => {
            if fields.len() == 1 && fields[0].0 == Field::StatementList {
                match eval_statements(fields[0].1) {
                    Some(statement_list) => Some(SpecCompoundStatement { statement_list }),
                    None => None,
                }
            } else {
                None
            }
        },
        _ => None,
    }
}

/// Evaluating the constructor expression of a compound statement gives it back.
pub proof fn lemma_compound_statement_round_trip(cst: SpecCompoundStatement)
    ensures
        eval_compound_statement(compound_statement_code(cst)) == Some(cst),
    decreases cst, 0nat,
{
    let fields = compound_statement_code(cst)->Record_1;
    assert(fields.len() == 1);
    lemma_statements_round_trip(cst.statement_list);
}

/// The compound statement that a constructor expression builds behind a fresh indirection, if it
/// builds one.
pub open spec fn eval_boxed_compound_statement(c: SpecCode) -> Option<SpecCompoundStatement>
    decreases c,
{
    match c {
        SpecCode::Boxed(inner) => eval_compound_statement(*inner),
        _ => None,
    }
}

/// Evaluating the constructor expression of a boxed compound statement gives it back.
pub proof fn lemma_boxed_compound_statement_round_trip(x: SpecCompoundStatement)
    ensures
        eval_boxed_compound_statement(SpecCode::boxed(compound_statement_code(x))) == Some(x),
    decreases x, 1nat,
{
    lemma_compound_statement_round_trip(x);
}

/// The statement that a constructor expression builds, if it builds one.
pub open spec fn eval_statement(c: SpecCode) -> Option<SpecStatement>
    decreases c,
{
    match c {
        SpecCode::Call(Variant::StatementCompound, args) => {
            if args.len() == 1 {
                match eval_boxed_compound_statement(args[0]) {
                    Some(cst) => Some(SpecStatement::Compound(Box::new(cst))),
                    None => None,
                }
            } else {
                None
            }
        },
        SpecCode::Call(Variant::StatementSimple, args) => {
            if args.len() == 1 {
                match eval_boxed_simple_statement(args[0]) {
                    Some(sst) => Some(SpecStatement::Simple(Box::new(sst))),
                    None => None,
                }
            } else {
                None
            }
        },
        _ => None,
    }
}

/// Evaluating the constructor expression of a statement gives it back.
pub proof fn lemma_statement_round_trip(st: SpecStatement)
    ensures
        eval_statement(statement_code(st)) == Some(st),
    decreases st, 0nat,
{
    match st {
        SpecStatement::Compound(cst) => {
            lemma_boxed_compound_statement_round_trip(*cst);
        },
        SpecStatement::Simple(sst) => {
            lemma_boxed_simple_statement_round_trip(*sst);
        },
    }
}

/// The statement that a constructor expression builds behind a fresh indirection, if it
/// builds one.
pub open spec fn eval_boxed_statement(c: SpecCode) -> Option<SpecStatement>
    decreases c,
{
    match c {
        SpecCode::Boxed(inner) => eval_statement(*inner),
        _ => None,
    }
}

/// Evaluating the constructor expression of a boxed statement gives it back.
pub proof fn lemma_boxed_statement_round_trip(x: SpecStatement)
    ensures
        eval_boxed_statement(SpecCode::boxed(statement_code(x))) == Some(x),
    decreases x, 1nat,
{
    lemma_statement_round_trip(x);
}

/// The sequence of statements that a constructor expression builds, if it builds one: element by
/// element, in the order of the vector.
pub open spec fn eval_statements(c: SpecCode) -> Option<Seq<SpecStatement>>
    decreases c,
{
    match c {
        SpecCode::List(items) => {
            if forall|i: int|
                0 <= i < items.len() ==> eval_statement(#[trigger] items[i]) is Some {
                Some(
                    Seq::new(
                        items.len(),
                        |i: int|
                            if 0 <= i < items.len() {
                                eval_statement(items[i])->Some_0
                            } else {
                                arbitrary()
                            },
                    ),
                )
            } else {
                None
            }
        },
        _ => None,
    }
}

/// Evaluating the constructor expression of a sequence of statements gives the sequence back.
pub proof fn lemma_statements_round_trip(s: Seq<SpecStatement>)
    ensures
        eval_statements(statements_code(s)) == Some(s),
    decreases s, 0nat,
{
    let items = statements_code(s)->List_0;
    assert forall|i: int| 0 <= i < items.len() implies
        eval_statement(#[trigger] items[i]) == Some(s[i]) by {
        lemma_statement_round_trip(s[i]);
    }
    assert(eval_statements(statements_code(s))->Some_0 =~= s);
}

/// The simple statement that a constructor expression builds, if it builds one.
pub open spec fn eval_simple_statement(c: SpecCode) -> Option<SpecSimpleStatement>
    decreases c,
{
    match c {
        SpecCode::Call(Variant::SimpleStatementDeclaration, args) => {
            if args.len() == 1 {
                match eval_declaration(args[0]) {
                    Some(d) => Some(SpecSimpleStatement::Declaration(d)),
                    None => None,
                }
            } else {
                None
            }
        },
        SpecCode::Call(Variant::SimpleStatementExpression, args) => {
            if args.len() == 1 {
                match eval_expr_statement(args[0]) {
                    Some(e) => Some(SpecSimpleStatement::Expression(e)),
                    None => None,
                }
            } else {
                None
            }
        },
        SpecCode::Call(Variant::SimpleStatementSelection, args) => {
            if args.len() == 1 {
                match eval_selection_statement(args[0]) {
                    Some(s) => Some(SpecSimpleStatement::Selection(s)),
                    None => None,
                }
            } else {
                None
            }
        },
        SpecCode::Call(Variant::SimpleStatementSwitch, args) => {
            if args.len() == 1 {
                match eval_switch_statement(args[0]) {
                    Some(s) => Some(SpecSimpleStatement::Switch(s)),
                    None => None,
                }
            } else {
                None
            }
        },
        SpecCode::Call(Variant::SimpleStatementCaseLabel, args) => {
            if args.len() == 1 {
                match eval_case_label(args[0]) {
                    Some(cl) => Some(SpecSimpleStatement::CaseLabel(cl)),
                    None => None,
                }
            } else {
                None
            }
        },
        SpecCode::Call(Variant::SimpleStatementIteration, args) => {
            if args.len() == 1 {
                match eval_iteration_statement(args[0]) {
                    Some(i) => Some(SpecSimpleStatement::Iteration(i)),
                    None => None,
                }
            } else {
                None
            }
        },
        SpecCode::Call(Variant::SimpleStatementJump, args) => {
            if args.len() == 1 {
                match eval_jump_statement(args[0]) {
                    Some(j) => Some(SpecSimpleStatement::Jump(j)),
                    None => None,
                }
            } else {
                None
            }
        },
        _ => None,
    }
}

/// Evaluating the constructor expression of a simple statement gives it back.
#[verifier::rlimit(40)]
pub proof fn lemma_simple_statement_round_trip(sst: SpecSimpleStatement)
    ensures
        eval_simple_statement(simple_statement_code(sst)) == Some(sst),
    decreases sst, 0nat,
{
    match sst {
        SpecSimpleStatement::Declaration(d) => {
            lemma_declaration_round_trip(d);
        },
        SpecSimpleStatement::Expression(e) => {
            lemma_expr_statement_round_trip(e);
        },
        SpecSimpleStatement::Selection(s) => {
            lemma_selection_statement_round_trip(s);
        },
        SpecSimpleStatement::Switch(s) => {
            lemma_switch_statement_round_trip(s);
        },
        SpecSimpleStatement::CaseLabel(cl) => {
            lemma_case_label_round_trip(cl);
        },
        SpecSimpleStatement::Iteration(i) => {
            lemma_iteration_statement_round_trip(i);
        },
        SpecSimpleStatement::Jump(j) => {
            lemma_jump_statement_round_trip(j);
        },
    }
}

/// The simple statement that a constructor expression builds behind a fresh indirection, if it
/// builds one.
pub open spec fn eval_boxed_simple_statement(c: SpecCode) -> Option<SpecSimpleStatement>
    decreases c,
{
    match c {
        SpecCode::Boxed(inner) => eval_simple_statement(*inner),
        _ => None,
    }
}

/// Evaluating the constructor expression of a boxed simple statement gives it back.
pub proof fn lemma_boxed_simple_statement_round_trip(x: SpecSimpleStatement)
    ensures
        eval_boxed_simple_statement(SpecCode::boxed(simple_statement_code(x))) == Some(x),
    decreases x, 1nat,
{
    lemma_simple_statement_round_trip(x);
}

/// The selection statement that a constructor expression builds, if it builds one.
pub open spec fn eval_selection_statement(c: SpecCode) -> Option<SpecSelectionStatement>
    decreases c,
{
    match c {
        SpecCode::Record(Record::SelectionStatement, fields) => {
            if fields.len() == 2 && fields[0].0 == Field::Cond && fields[1].0 == Field::Rest {
                match (eval_boxed_expr(fields[0].1), eval_selection_rest_statement(fields[1].1)) {
                    (Some(cond), Some(rest)) => Some(
                        SpecSelectionStatement { cond: Box::new(cond), rest },
                    ),
                    _ => None,
                }
            } else {
                None
            }
        },
        _ => None,
    }
}

/// Evaluating the constructor expression of a selection statement gives it back.
pub proof fn lemma_selection_statement_round_trip(sst: SpecSelectionStatement)
    ensures
        eval_selection_statement(selection_statement_code(sst)) == Some(sst),
    decreases sst, 0nat,
{
    let fields = selection_statement_code(sst)->Record_1;
    assert(fields.len() == 2);
    lemma_boxed_expr_round_trip(*sst.cond);
    lemma_selection_rest_statement_round_trip(sst.rest);
}

/// The selection remainder that a constructor expression builds, if it builds one.
pub open spec fn eval_selection_rest_statement(c: SpecCode) -> Option<SpecSelectionRestStatement>
    decreases c,
{
    match c {
        SpecCode::Call(Variant::SelectionRestStatementStatement, args) => {
            if args.len() == 1 {
                match eval_boxed_statement(args[0]) {
                    Some(if_st) => Some(SpecSelectionRestStatement::Statement(Box::new(if_st))),
                    None => None,
                }
            } else {
                None
            }
        },
        SpecCode::Call(Variant::SelectionRestStatementElse, args) => {
            if args.len() == 2 {
                match (eval_boxed_statement(args[0]), eval_boxed_statement(args[1])) {
                    (Some(if_st), Some(else_st)) => Some(
                        SpecSelectionRestStatement::Else(Box::new(if_st), Box::new(else_st)),
                    ),
                    _ => None,
                }
            } else {
                None
            }
        },
        _ => None,
    }
}

/// Evaluating the constructor expression of a selection remainder gives it back.
#[verifier::rlimit(40)]
pub proof fn lemma_selection_rest_statement_round_trip(sst: SpecSelectionRestStatement)
    ensures
        eval_selection_rest_statement(selection_rest_statement_code(sst)) == Some(sst),
    decreases sst, 0nat,
{
    match sst {
        SpecSelectionRestStatement::Statement(if_st) => {
            lemma_boxed_statement_round_trip(*if_st);
        },
        SpecSelectionRestStatement::Else(if_st, else_st) => {
            lemma_boxed_statement_round_trip(*if_st);
            lemma_boxed_statement_round_trip(*else_st);
        },
    }
}

/// The switch statement that a constructor expression builds, if it builds one.
pub open spec fn eval_switch_statement(c: SpecCode) -> Option<SpecSwitchStatement>
    decreases c,
{
    match c {
        SpecCode::Record(Record::SwitchStatement, fields) => {
            if fields.len() == 2 && fields[0].0 == Field::Head && fields[1].0 == Field::Body {
                match (eval_boxed_expr(fields[0].1), eval_statements(fields[1].1)) {
                    (Some(head), Some(body)) => Some(
                        SpecSwitchStatement { head: Box::new(head), body },
                    ),
                    _ => None,
                }
            } else {
                None
            }
        },
        _ => None,
    }
}

/// Evaluating the constructor expression of a switch statement gives it back.
pub proof fn lemma_switch_statement_round_trip(sst: SpecSwitchStatement)
    ensures
        eval_switch_statement(switch_statement_code(sst)) == Some(sst),
    decreases sst, 0nat,
{
    let fields = switch_statement_code(sst)->Record_1;
    assert(fields.len() == 2);
    lemma_boxed_expr_round_trip(*sst.head);
    lemma_statements_round_trip(sst.body);
}

/// The iteration statement that a constructor expression builds, if it builds one.
pub open spec fn eval_iteration_statement(c: SpecCode) -> Option<SpecIterationStatement>
    decreases c,
{
    match c {
        SpecCode::Call(Variant::IterationStatementWhile, args) => {
            if args.len() == 2 {
                match (eval_condition(args[0]), eval_boxed_statement(args[1])) {
                    (Some(cond), Some(body)) => Some(
                        SpecIterationStatement::While(cond, Box::new(body)),
                    ),
                    _ => None,
                }
            } else {
                None
            }
        },
        SpecCode::Call(Variant::IterationStatementDoWhile, args) => {
            if args.len() == 2 {
                match (eval_boxed_statement(args[0]), eval_boxed_expr(args[1])) {
                    (Some(body), Some(cond)) => Some(
                        SpecIterationStatement::DoWhile(Box::new(body), Box::new(cond)),
                    ),
                    _ => None,
                }
            } else {
                None
            }
        },
        SpecCode::Call(Variant::IterationStatementFor, args) => {
            if args.len() == 3 {
                match (
                    eval_for_init_statement(args[0]),
                    eval_for_rest_statement(args[1]),
                    eval_boxed_statement(args[2]),
                ) {
                    (Some(init), Some(rest), Some(body)) => Some(
                        SpecIterationStatement::For(init, rest, Box::new(body)),
                    ),
                    _ => None,
                }
            } else {
                None
            }
        },
        _ => None,
    }
}

/// Evaluating the constructor expression of an iteration statement gives it back.
#[verifier::rlimit(40)]
pub proof fn lemma_iteration_statement_round_trip(ist: SpecIterationStatement)
    ensures
        eval_iteration_statement(iteration_statement_code(ist)) == Some(ist),
    decreases ist, 0nat,
{
    match ist {
        SpecIterationStatement::While(cond, body) => {
            lemma_condition_round_trip(cond);
            lemma_boxed_statement_round_trip(*body);
        },
        SpecIterationStatement::DoWhile(body, cond) => {
            lemma_boxed_statement_round_trip(*body);
            lemma_boxed_expr_round_trip(*cond);
        },
        SpecIterationStatement::For(init, rest, body) => {
            lemma_for_init_statement_round_trip(init);
            lemma_for_rest_statement_round_trip(rest);
            lemma_boxed_statement_round_trip(*body);
        },
    }
}

/// The function definition that a constructor expression builds, if it builds one.
#[verifier::opaque]
pub open spec fn eval_function_definition(c: SpecCode) -> Option<SpecFunctionDefinition> {
    match c {
        SpecCode::Record(Record::FunctionDefinition, fields) => {
            if fields.len() == 2
                && fields[0].0 == Field::Prototype
                && fields[1].0 == Field::Statement {
                match (eval_function_prototype(fields[0].1), eval_compound_statement(fields[1].1)) {
                    (Some(prototype), Some(statement)) => Some(
                        SpecFunctionDefinition { prototype, statement },
                    ),
                    _ => None,
                }
            } else {
                None
            }
        },
        _ => None,
    }
}

/// Evaluating the constructor expression of a function definition gives it back.
pub proof fn lemma_function_definition_round_trip(fd: SpecFunctionDefinition)
    ensures
        eval_function_definition(function_definition_code(fd)) == Some(fd),
{
    reveal(eval_function_definition);
    let fields = function_definition_code(fd)->Record_1;
    assert(fields.len() == 2);
    lemma_function_prototype_round_trip(fd.prototype);
    lemma_compound_statement_round_trip(fd.statement);
}

/// The expression statement that a constructor expression builds, if it builds one.
pub open spec fn eval_expr_statement(c: SpecCode) -> Option<SpecExprStatement> {
    eval_optional_expr(c)
}

/// Evaluating the constructor expression of an expression statement gives it back.
pub proof fn lemma_expr_statement_round_trip(est: SpecExprStatement)
    ensures
        eval_expr_statement(expr_statement_code(est)) == Some(est),
{
    lemma_optional_expr_round_trip(est);
}

} // verus!
