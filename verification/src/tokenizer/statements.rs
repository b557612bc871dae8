//! Statements: compound and simple statements, selections, switches, loops, jumps and function
//! definitions.

use crate::code::{Code, SpecCode, codes_view, fields1, fields2};
use crate::model::{
    SpecCaseLabel, SpecCompoundStatement, SpecCondition, SpecExprStatement, SpecForInitStatement,
    SpecForRestStatement, SpecFunctionDefinition, SpecIterationStatement, SpecJumpStatement,
    SpecSelectionRestStatement, SpecSelectionStatement, SpecSimpleStatement, SpecStatement,
    SpecSwitchStatement, expr_statement_view, statements_view,
};
use crate::names::{Field, Record, Variant};
use crate::quoted::Quoted;
use crate::syntax::{
    CaseLabel, CompoundStatement, Condition, ExprStatement, ForInitStatement, ForRestStatement,
    FunctionDefinition, IterationStatement, JumpStatement, SelectionRestStatement,
    SelectionStatement, SimpleStatement, Statement, SwitchStatement,
};
use crate::tokenizer::declarations::{
    declaration_code, function_prototype_code, initializer_code, tokenize_declaration,
    tokenize_function_prototype, tokenize_initializer,
};
use crate::tokenizer::expr::{
    expr_code, optional_boxed_expr_code, optional_expr_code, tokenize_expr,
};
use crate::tokenizer::types::{fully_specified_type_code, tokenize_fully_specified_type};
use vstd::prelude::*;

verus! {

/// The constructor expression of a condition.
pub open spec fn condition_code(c: SpecCondition) -> SpecCode {
    match c {
        SpecCondition::Expr(e) => SpecCode::Call(
            Variant::ConditionExpr,
            seq![SpecCode::boxed(expr_code(*e))],
        ),
        SpecCondition::Assignment(ty, name, initializer) => SpecCode::Call(
            Variant::ConditionAssignment,
            seq![
                fully_specified_type_code(ty),
                SpecCode::Owned(name),
                initializer_code(initializer),
            ],
        ),
    }
}

/// Tokenizes a condition.
pub fn tokenize_condition(c: &Condition) -> (code: Code)
    ensures
        code@ == condition_code(c@),
{
    match c {
        Condition::Expr(e) => {
            let e = Box::new(tokenize_expr(e)).quote();
            Code::call1(Variant::ConditionExpr, e)
        },
        Condition::Assignment(ty, name, initializer) => {
            let ty = tokenize_fully_specified_type(ty);
            let name = name.as_str().quote();
            let initializer = tokenize_initializer(initializer);
            Code::call3(Variant::ConditionAssignment, ty, name, initializer)
        },
    }
}

/// The constructor expression of a condition that may be absent.
pub open spec fn optional_condition_code(o: Option<SpecCondition>) -> SpecCode {
    SpecCode::optional(
        match o {
            Some(x) => Some(condition_code(x)),
            None => None,
        },
    )
}

/// The constructor expression of a case label.
pub open spec fn case_label_code(cl: SpecCaseLabel) -> SpecCode {
    match cl {
        SpecCaseLabel::Case(e) => SpecCode::Call(
            Variant::CaseLabelCase,
            seq![SpecCode::boxed(expr_code(*e))],
        ),
        SpecCaseLabel::Def => SpecCode::Unit(Variant::CaseLabelDef),
    }
}

/// Tokenizes a case label.
pub fn tokenize_case_label(cl: &CaseLabel) -> (code: Code)
    ensures
        code@ == case_label_code(cl@),
{
    match cl {
        CaseLabel::Case(e) => {
            let e = Box::new(tokenize_expr(e)).quote();
            Code::call1(Variant::CaseLabelCase, e)
        },
        CaseLabel::Def => Code::Unit(Variant::CaseLabelDef),
    }
}

/// The constructor expression of a jump statement.
pub open spec fn jump_statement_code(j: SpecJumpStatement) -> SpecCode {
    match j {
        SpecJumpStatement::Continue => SpecCode::Unit(Variant::JumpStatementContinue),
        SpecJumpStatement::Break => SpecCode::Unit(Variant::JumpStatementBreak),
        SpecJumpStatement::Return(e) => SpecCode::Call(
            Variant::JumpStatementReturn,
            seq![SpecCode::boxed(expr_code(*e))],
        ),
        SpecJumpStatement::Discard => SpecCode::Unit(Variant::JumpStatementDiscard),
    }
}

/// Tokenizes a jump statement.
pub fn tokenize_jump_statement(j: &JumpStatement) -> (code: Code)
    ensures
        code@ == jump_statement_code(j@),
{
    match j {
        JumpStatement::Continue => Code::Unit(Variant::JumpStatementContinue),
        JumpStatement::Break => Code::Unit(Variant::JumpStatementBreak),
        JumpStatement::Return(e) => {
            let e = Box::new(tokenize_expr(e)).quote();
            Code::call1(Variant::JumpStatementReturn, e)
        },
        JumpStatement::Discard => Code::Unit(Variant::JumpStatementDiscard),
    }
}

/// The constructor expression of a `for` initialiser.
pub open spec fn for_init_statement_code(i: SpecForInitStatement) -> SpecCode {
    match i {
        SpecForInitStatement::Expression(expr) => SpecCode::Call(
            Variant::ForInitStatementExpression,
            seq![optional_expr_code(expr)],
        ),
        SpecForInitStatement::Declaration(d) => SpecCode::Call(
            Variant::ForInitStatementDeclaration,
            seq![SpecCode::boxed(declaration_code(*d))],
        ),
    }
}

/// Tokenizes a `for` initialiser.
pub fn tokenize_for_init_statement(i: &ForInitStatement) -> (code: Code)
    ensures
        code@ == for_init_statement_code(i@),
{
    match i {
        ForInitStatement::Expression(expr) => {
            let expr = match expr {
                Some(x) => Some(tokenize_expr(x)),
                None => None,
            }.quote();
            assert(expr@ == optional_expr_code(i@->Expression_0));
            Code::call1(Variant::ForInitStatementExpression, expr)
        },
        ForInitStatement::Declaration(d) => {
            let d = Box::new(tokenize_declaration(d)).quote();
            Code::call1(Variant::ForInitStatementDeclaration, d)
        },
    }
}

/// The constructor expression of a `for` remainder.
pub open spec fn for_rest_statement_code(r: SpecForRestStatement) -> SpecCode {
    SpecCode::Record(
        Record::ForRestStatement,
        seq![
            (Field::Condition, optional_condition_code(r.condition)),
            (Field::PostExpr, optional_boxed_expr_code(r.post_expr)),
        ],
    )
}

/// Tokenizes a `for` remainder.
pub fn tokenize_for_rest_statement(r: &ForRestStatement) -> (code: Code)
    ensures
        code@ == for_rest_statement_code(r@),
{
    let condition = match &r.condition {
        Some(x) => Some(tokenize_condition(x)),
        None => None,
    }.quote();
    assert(condition@ == optional_condition_code(r@.condition));
    let post_expr = match &r.post_expr {
        Some(x) => Some(Box::new(tokenize_expr(x)).quote()),
        None => None,
    }.quote();
    assert(post_expr@ == optional_boxed_expr_code(r@.post_expr));
    Code::record(
        Record::ForRestStatement,
        fields2(
            Field::Condition,
            condition,
            Field::PostExpr,
            post_expr,
        ),
    )
}

/// The constructor expression of a compound statement.
pub open spec fn compound_statement_code(cst: SpecCompoundStatement) -> SpecCode
    decreases cst,
{
    SpecCode::Record(
        Record::CompoundStatement,
        seq![(Field::StatementList, statements_code(cst.statement_list))],
    )
}

/// Tokenizes a compound statement.
pub fn tokenize_compound_statement(cst: &CompoundStatement) -> (code: Code)
    ensures
        code@ == compound_statement_code(cst@),
    decreases cst,
{
    let statement_list = tokenize_statements(&cst.statement_list);
    Code::record(Record::CompoundStatement, fields1(Field::StatementList, statement_list))
}

/// The constructor expression of a statement.
pub open spec fn statement_code(st: SpecStatement) -> SpecCode
    decreases st,
{
    match st {
        SpecStatement::Compound(cst) => SpecCode::Call(
            Variant::StatementCompound,
            seq![SpecCode::boxed(compound_statement_code(*cst))],
        ),
        SpecStatement::Simple(sst) => SpecCode::Call(
            Variant::StatementSimple,
            seq![SpecCode::boxed(simple_statement_code(*sst))],
        ),
    }
}

/// Tokenizes a statement.
pub fn tokenize_statement(st: &Statement) -> (code: Code)
    ensures
        code@ == statement_code(st@),
    decreases st,
{
    match st {
        Statement::Compound(cst) => {
            let cst = Box::new(tokenize_compound_statement(cst)).quote();
            Code::call1(Variant::StatementCompound, cst)
        },
        Statement::Simple(sst) => {
            let sst = Box::new(tokenize_simple_statement(sst)).quote();
            Code::call1(Variant::StatementSimple, sst)
        },
    }
}

/// The constructor expression of a sequence of statements: a vector of their constructor
/// expressions, as many and in the same order.
pub open spec fn statements_code(s: Seq<SpecStatement>) -> SpecCode
    decreases s,
{
    SpecCode::List(
        Seq::new(
            s.len(),
            |i: int|
                if 0 <= i < s.len() {
                    statement_code(s[i])
                } else {
                    arbitrary()
                },
        ),
    )
}

/// Tokenizes a sequence of statements, one after the other.
pub fn tokenize_statements(statements: &Vec<Statement>) -> (code: Code)
    ensures
        code@ == statements_code(statements_view(*statements)),
    decreases statements,
{
    let mut items: Vec<Code> = Vec::new();
    let mut i: usize = 0;
    while i < statements.len()
        invariant
            i <= statements.len(),
            items@.len() == i,
            forall|j: int|
                0 <= j < i ==> (#[trigger] items@[j])@ == statement_code(statements@[j]@),
        decreases statements.len() - i,
    {
        let item = tokenize_statement(&statements[i]);
        items.push(item);
        i += 1;
    }
    assert(codes_view(items) =~= statements_code(statements_view(*statements))->List_0);
    Code::List(items)
}

/// The constructor expression of a simple statement.
pub open spec fn simple_statement_code(sst: SpecSimpleStatement) -> SpecCode
    decreases sst,
{
    match sst {
        SpecSimpleStatement::Declaration(d) => SpecCode::Call(
            Variant::SimpleStatementDeclaration,
            seq![declaration_code(d)],
        ),
        SpecSimpleStatement::Expression(e) => SpecCode::Call(
            Variant::SimpleStatementExpression,
            seq![expr_statement_code(e)],
        ),
        SpecSimpleStatement::Selection(s) => SpecCode::Call(
            Variant::SimpleStatementSelection,
            seq![selection_statement_code(s)],
        ),
        SpecSimpleStatement::Switch(s) => SpecCode::Call(
            Variant::SimpleStatementSwitch,
            seq![switch_statement_code(s)],
        ),
        SpecSimpleStatement::CaseLabel(cl) => SpecCode::Call(
            Variant::SimpleStatementCaseLabel,
            seq![case_label_code(cl)],
        ),
        SpecSimpleStatement::Iteration(i) => SpecCode::Call(
            Variant::SimpleStatementIteration,
            seq![iteration_statement_code(i)],
        ),
        SpecSimpleStatement::Jump(j) => SpecCode::Call(
            Variant::SimpleStatementJump,
            seq![jump_statement_code(j)],
        ),
    }
}

/// Tokenizes a simple statement.
pub fn tokenize_simple_statement(sst: &SimpleStatement) -> (code: Code)
    ensures
        code@ == simple_statement_code(sst@),
    decreases sst,
{
    match sst {
        SimpleStatement::Declaration(d) => {
            let d = tokenize_declaration(d);
            Code::call1(Variant::SimpleStatementDeclaration, d)
        },
        SimpleStatement::Expression(e) => {
            let e = tokenize_expression_statement(e);
            Code::call1(Variant::SimpleStatementExpression, e)
        },
        SimpleStatement::Selection(s) => {
            let s = tokenize_selection_statement(s);
            Code::call1(Variant::SimpleStatementSelection, s)
        },
        SimpleStatement::Switch(s) => {
            let s = tokenize_switch_statement(s);
            Code::call1(Variant::SimpleStatementSwitch, s)
        },
        SimpleStatement::CaseLabel(cl) => {
            let cl = tokenize_case_label(cl);
            Code::call1(Variant::SimpleStatementCaseLabel, cl)
        },
        SimpleStatement::Iteration(i) => {
            let i = tokenize_iteration_statement(i);
            Code::call1(Variant::SimpleStatementIteration, i)
        },
        SimpleStatement::Jump(j) => {
            let j = tokenize_jump_statement(j);
            Code::call1(Variant::SimpleStatementJump, j)
        },
    }
}

/// The constructor expression of a selection statement.
pub open spec fn selection_statement_code(sst: SpecSelectionStatement) -> SpecCode
    decreases sst,
{
    SpecCode::Record(
        Record::SelectionStatement,
        seq![
            (Field::Cond, SpecCode::boxed(expr_code(*sst.cond))),
            (Field::Rest, selection_rest_statement_code(sst.rest)),
        ],
    )
}

/// Tokenizes a selection statement.
pub fn tokenize_selection_statement(sst: &SelectionStatement) -> (code: Code)
    ensures
        code@ == selection_statement_code(sst@),
    decreases sst,
{
    let cond = Box::new(tokenize_expr(&sst.cond)).quote();
    let rest = tokenize_selection_rest_statement(&sst.rest);
    Code::record(Record::SelectionStatement, fields2(Field::Cond, cond, Field::Rest, rest))
}

/// The constructor expression of a selection remainder.
pub open spec fn selection_rest_statement_code(sst: SpecSelectionRestStatement) -> SpecCode
    decreases sst,
{
    match sst {
        SpecSelectionRestStatement::Statement(if_st) => SpecCode::Call(
            Variant::SelectionRestStatementStatement,
            seq![SpecCode::boxed(statement_code(*if_st))],
        ),
        SpecSelectionRestStatement::Else(if_st, else_st) => SpecCode::Call(
            Variant::SelectionRestStatementElse,
            seq![
                SpecCode::boxed(statement_code(*if_st)),
                SpecCode::boxed(statement_code(*else_st)),
            ],
        ),
    }
}

/// Tokenizes a selection remainder.
pub fn tokenize_selection_rest_statement(sst: &SelectionRestStatement) -> (code: Code)
    ensures
        code@ == selection_rest_statement_code(sst@),
    decreases sst,
{
    match sst {
        SelectionRestStatement::Statement(if_st) => {
            let if_st = Box::new(tokenize_statement(if_st)).quote();
            Code::call1(Variant::SelectionRestStatementStatement, if_st)
        },
        SelectionRestStatement::Else(if_st, else_st) => {
            let if_st = Box::new(tokenize_statement(if_st)).quote();
            let else_st = Box::new(tokenize_statement(else_st)).quote();
            Code::call2(Variant::SelectionRestStatementElse, if_st, else_st)
        },
    }
}

/// The constructor expression of a switch statement.
pub open spec fn switch_statement_code(sst: SpecSwitchStatement) -> SpecCode
    decreases sst,
{
    SpecCode::Record(
        Record::SwitchStatement,
        seq![
            (Field::Head, SpecCode::boxed(expr_code(*sst.head))),
            (Field::Body, statements_code(sst.body)),
        ],
    )
}

/// Tokenizes a switch statement.
pub fn tokenize_switch_statement(sst: &SwitchStatement) -> (code: Code)
    ensures
        code@ == switch_statement_code(sst@),
    decreases sst,
{
    let head = Box::new(tokenize_expr(&sst.head)).quote();
    let body = tokenize_statements(&sst.body);
    Code::record(Record::SwitchStatement, fields2(Field::Head, head, Field::Body, body))
}

/// The constructor expression of an iteration statement.
pub open spec fn iteration_statement_code(ist: SpecIterationStatement) -> SpecCode
    decreases ist,
{
    match ist {
        SpecIterationStatement::While(cond, body) => SpecCode::Call(
            Variant::IterationStatementWhile,
            seq![condition_code(cond), SpecCode::boxed(statement_code(*body))],
        ),
        SpecIterationStatement::DoWhile(body, cond) => SpecCode::Call(
            Variant::IterationStatementDoWhile,
            seq![SpecCode::boxed(statement_code(*body)), SpecCode::boxed(expr_code(*cond))],
        ),
        SpecIterationStatement::For(init, rest, body) => SpecCode::Call(
            Variant::IterationStatementFor,
            seq![
                for_init_statement_code(init),
                for_rest_statement_code(rest),
                SpecCode::boxed(statement_code(*body)),
            ],
        ),
    }
}

/// Tokenizes an iteration statement.
pub fn tokenize_iteration_statement(ist: &IterationStatement) -> (code: Code)
    ensures
        code@ == iteration_statement_code(ist@),
    decreases ist,
{
    match ist {
        IterationStatement::While(cond, body) => {
            let cond = tokenize_condition(cond);
            let body = Box::new(tokenize_statement(body)).quote();
            Code::call2(Variant::IterationStatementWhile, cond, body)
        },
        IterationStatement::DoWhile(body, cond) => {
            let body = Box::new(tokenize_statement(body)).quote();
            let cond = Box::new(tokenize_expr(cond)).quote();
            Code::call2(Variant::IterationStatementDoWhile, body, cond)
        },
        IterationStatement::For(init, rest, body) => {
            let init = tokenize_for_init_statement(init);
            let rest = tokenize_for_rest_statement(rest);
            let body = Box::new(tokenize_statement(body)).quote();
            Code::call3(Variant::IterationStatementFor, init, rest, body)
        },
    }
}

/// The constructor expression of a function definition.
pub open spec fn function_definition_code(fd: SpecFunctionDefinition) -> SpecCode {
    SpecCode::Record(
        Record::FunctionDefinition,
        seq![
            (Field::Prototype, function_prototype_code(fd.prototype)),
            (Field::Statement, compound_statement_code(fd.statement)),
        ],
    )
}

/// Tokenizes a function definition.
pub fn tokenize_function_definition(fd: &FunctionDefinition) -> (code: Code)
    ensures
        code@ == function_definition_code(fd@),
{
    let prototype = tokenize_function_prototype(&fd.prototype);
    let statement = tokenize_compound_statement(&fd.statement);
    Code::record(
        Record::FunctionDefinition,
        fields2(
            Field::Prototype,
            prototype,
            Field::Statement,
            statement,
        ),
    )
}

/// The constructor expression of an expression statement: that of its expression, which may
/// be absent.
pub open spec fn expr_statement_code(est: SpecExprStatement) -> SpecCode {
    optional_expr_code(est)
}

/// Tokenizes an expression statement.
pub fn tokenize_expression_statement(est: &ExprStatement) -> (code: Code)
    ensures
        code@ == expr_statement_code(expr_statement_view(*est)),
{
    match est {
        Some(x) => Some(tokenize_expr(x)),
        None => None,
    }.quote()
}

} // verus!
