// Statements, case by case.

use glsl_quasiquote::code::Code;
use glsl_quasiquote::syntax::{
    CaseLabel, CompoundStatement, Condition, Declaration, Expr, ForInitStatement,
    ForRestStatement, FullySpecifiedType, FunctionDefinition, FunctionPrototype, Initializer,
    IterationStatement, JumpStatement, PrecisionQualifier, SelectionRestStatement,
    SelectionStatement, SimpleStatement, Statement, SwitchStatement, TypeSpecifier,
    TypeSpecifierNonArray,
};
use glsl_quasiquote::tokenizer::statements::{
    tokenize_case_label, tokenize_compound_statement, tokenize_condition,
    tokenize_expression_statement, tokenize_for_init_statement, tokenize_for_rest_statement,
    tokenize_function_definition, tokenize_iteration_statement, tokenize_jump_statement,
    tokenize_selection_rest_statement, tokenize_selection_statement, tokenize_simple_statement,
    tokenize_statement, tokenize_statements, tokenize_switch_statement,
};

/// The text of a token stream, for comparison.
fn spelled(source: &str) -> String {
    let stream: proc_macro2::TokenStream = source.parse().unwrap();
    stream.to_string()
}

/// The text of the tokens of a constructor expression.
fn spelled_code(code: &Code) -> String {
    code.to_token_stream().to_string()
}

#[test]
fn condition_cases() {
    assert_eq!(
        spelled_code(&tokenize_condition(
            &Condition::Expr(Box::new(Expr::IntConst(1))),
        )),
        spelled(
            "glsl::syntax::Condition::Expr(Box::new(glsl::syntax::Expr::IntConst(1i32)))",
        )
    );
    assert_eq!(
        spelled_code(&tokenize_condition(
            &Condition::Assignment(
                FullySpecifiedType {
                    qualifier: None,
                    ty: TypeSpecifier { ty: TypeSpecifierNonArray::Float, array_specifier: None },
                },
                "n1".to_string(),
                Initializer::Simple(Box::new(Expr::IntConst(2))),
            ),
        )),
        spelled(
            "glsl::syntax::Condition::Assignment(glsl::syntax::FullySpecifiedType { qualifier: \
             None, ty: glsl::syntax::TypeSpecifier { ty: \
             glsl::syntax::TypeSpecifierNonArray::Float, array_specifier: None } }, \
             String::from(\"n1\"), glsl::syntax::Initializer::Simple(Box::new(\
             glsl::syntax::Expr::IntConst(2i32))))",
        )
    );
}

#[test]
fn case_label_cases() {
    assert_eq!(
        spelled_code(&tokenize_case_label(
            &CaseLabel::Case(Box::new(Expr::IntConst(1))),
        )),
        spelled(
            "glsl::syntax::CaseLabel::Case(Box::new(glsl::syntax::Expr::IntConst(1i32)))",
        )
    );
    assert_eq!(
        spelled_code(&tokenize_case_label(
            &CaseLabel::Def,
        )),
        spelled(
            "glsl::syntax::CaseLabel::Def",
        )
    );
}

#[test]
fn jump_statement_cases() {
    assert_eq!(
        spelled_code(&tokenize_jump_statement(
            &JumpStatement::Continue,
        )),
        spelled(
            "glsl::syntax::JumpStatement::Continue",
        )
    );
    assert_eq!(
        spelled_code(&tokenize_jump_statement(
            &JumpStatement::Break,
        )),
        spelled(
            "glsl::syntax::JumpStatement::Break",
        )
    );
    assert_eq!(
        spelled_code(&tokenize_jump_statement(
            &JumpStatement::Return(Box::new(Expr::IntConst(1))),
        )),
        spelled(
            "glsl::syntax::JumpStatement::Return(Box::new(glsl::syntax::Expr::IntConst(1i32)))",
        )
    );
    assert_eq!(
        spelled_code(&tokenize_jump_statement(
            &JumpStatement::Discard,
        )),
        spelled(
            "glsl::syntax::JumpStatement::Discard",
        )
    );
}

#[test]
fn for_init_statement_cases() {
    assert_eq!(
        spelled_code(&tokenize_for_init_statement(
            &ForInitStatement::Expression(None),
        )),
        spelled(
            "glsl::syntax::ForInitStatement::Expression(None)",
        )
    );
    assert_eq!(
        spelled_code(&tokenize_for_init_statement(
            &ForInitStatement::Expression(Some(Expr::IntConst(1))),
        )),
        spelled(
            "glsl::syntax::ForInitStatement::Expression(Some(glsl::syntax::Expr::IntConst(\
             1i32)))",
        )
    );
    assert_eq!(
        spelled_code(&tokenize_for_init_statement(
            &ForInitStatement::Declaration(
                Box::new(
                    Declaration::Precision(
                        PrecisionQualifier::High,
                        TypeSpecifier { ty: TypeSpecifierNonArray::Float, array_specifier: None },
                    ),
                ),
            ),
        )),
        spelled(
            "glsl::syntax::ForInitStatement::Declaration(Box::new(\
             glsl::syntax::Declaration::Precision(glsl::syntax::PrecisionQualifier::High, \
             glsl::syntax::TypeSpecifier { ty: glsl::syntax::TypeSpecifierNonArray::Float, \
             array_specifier: None })))",
        )
    );
}

#[test]
fn for_rest_statement_cases() {
    assert_eq!(
        spelled_code(&tokenize_for_rest_statement(
            &ForRestStatement { condition: None, post_expr: None },
        )),
        spelled(
            "glsl::syntax::ForRestStatement { condition: None, post_expr: None }",
        )
    );
    assert_eq!(
        spelled_code(&tokenize_for_rest_statement(
            &ForRestStatement {
                condition: Some(Condition::Expr(Box::new(Expr::IntConst(1)))),
                post_expr: Some(Box::new(Expr::IntConst(2))),
            },
        )),
        spelled(
            "glsl::syntax::ForRestStatement { condition: Some(glsl::syntax::Condition::Expr(\
             Box::new(glsl::syntax::Expr::IntConst(1i32)))), post_expr: Some(Box::new(\
             glsl::syntax::Expr::IntConst(2i32))) }",
        )
    );
}

#[test]
fn compound_statement_cases() {
    assert_eq!(
        spelled_code(&tokenize_compound_statement(
            &CompoundStatement { statement_list: vec![] },
        )),
        spelled(
            "glsl::syntax::CompoundStatement { statement_list: vec![] }",
        )
    );
    assert_eq!(
        spelled_code(&tokenize_compound_statement(
            &CompoundStatement {
                statement_list: vec![
                    Statement::Simple(Box::new(SimpleStatement::Jump(JumpStatement::Break))),
                    Statement::Simple(Box::new(SimpleStatement::Jump(JumpStatement::Break))),
                ],
            },
        )),
        spelled(
            "glsl::syntax::CompoundStatement { statement_list: \
             vec![glsl::syntax::Statement::Simple(Box::new(glsl::syntax::SimpleStatement::Jump(\
             glsl::syntax::JumpStatement::Break))), glsl::syntax::Statement::Simple(Box::new(\
             glsl::syntax::SimpleStatement::Jump(glsl::syntax::JumpStatement::Break)))] }",
        )
    );
}

#[test]
fn statement_cases() {
    assert_eq!(
        spelled_code(&tokenize_statement(
            &Statement::Compound(Box::new(CompoundStatement { statement_list: vec![] })),
        )),
        spelled(
            "glsl::syntax::Statement::Compound(Box::new(glsl::syntax::CompoundStatement { \
             statement_list: vec![] }))",
        )
    );
    assert_eq!(
        spelled_code(&tokenize_statement(
            &Statement::Simple(Box::new(SimpleStatement::Jump(JumpStatement::Break))),
        )),
        spelled(
            "glsl::syntax::Statement::Simple(Box::new(glsl::syntax::SimpleStatement::Jump(\
             glsl::syntax::JumpStatement::Break)))",
        )
    );
}

#[test]
fn simple_statement_cases() {
    assert_eq!(
        spelled_code(&tokenize_simple_statement(
            &SimpleStatement::Declaration(
                Declaration::Precision(
                    PrecisionQualifier::High,
                    TypeSpecifier { ty: TypeSpecifierNonArray::Float, array_specifier: None },
                ),
            ),
        )),
        spelled(
            "glsl::syntax::SimpleStatement::Declaration(glsl::syntax::Declaration::Precision(\
             glsl::syntax::PrecisionQualifier::High, glsl::syntax::TypeSpecifier { ty: \
             glsl::syntax::TypeSpecifierNonArray::Float, array_specifier: None }))",
        )
    );
    assert_eq!(
        spelled_code(&tokenize_simple_statement(
            &SimpleStatement::Expression(None),
        )),
        spelled(
            "glsl::syntax::SimpleStatement::Expression(None)",
        )
    );
    assert_eq!(
        spelled_code(&tokenize_simple_statement(
            &SimpleStatement::Selection(
                SelectionStatement {
                    cond: Box::new(Expr::IntConst(1)),
                    rest: SelectionRestStatement::Statement(
                        Box::new(
                            Statement::Simple(
                                Box::new(SimpleStatement::Jump(JumpStatement::Break)),
                            ),
                        ),
                    ),
                },
            ),
        )),
        spelled(
            "glsl::syntax::SimpleStatement::Selection(glsl::syntax::SelectionStatement { cond: \
             Box::new(glsl::syntax::Expr::IntConst(1i32)), rest: \
             glsl::syntax::SelectionRestStatement::Statement(Box::new(\
             glsl::syntax::Statement::Simple(Box::new(glsl::syntax::SimpleStatement::Jump(\
             glsl::syntax::JumpStatement::Break))))) })",
        )
    );
    assert_eq!(
        spelled_code(&tokenize_simple_statement(
            &SimpleStatement::Switch(
                SwitchStatement { head: Box::new(Expr::IntConst(1)), body: vec![] },
            ),
        )),
        spelled(
            "glsl::syntax::SimpleStatement::Switch(glsl::syntax::SwitchStatement { head: \
             Box::new(glsl::syntax::Expr::IntConst(1i32)), body: vec![] })",
        )
    );
    assert_eq!(
        spelled_code(&tokenize_simple_statement(
            &SimpleStatement::CaseLabel(CaseLabel::Def),
        )),
        spelled(
            "glsl::syntax::SimpleStatement::CaseLabel(glsl::syntax::CaseLabel::Def)",
        )
    );
    assert_eq!(
        spelled_code(&tokenize_simple_statement(
            &SimpleStatement::Iteration(
                IterationStatement::DoWhile(
                    Box::new(
                        Statement::Simple(Box::new(SimpleStatement::Jump(JumpStatement::Break))),
                    ),
                    Box::new(Expr::IntConst(1)),
                ),
            ),
        )),
        spelled(
            "glsl::syntax::SimpleStatement::Iteration(\
             glsl::syntax::IterationStatement::DoWhile(Box::new(\
             glsl::syntax::Statement::Simple(Box::new(glsl::syntax::SimpleStatement::Jump(\
             glsl::syntax::JumpStatement::Break)))), Box::new(glsl::syntax::Expr::IntConst(\
             1i32))))",
        )
    );
    assert_eq!(
        spelled_code(&tokenize_simple_statement(
            &SimpleStatement::Jump(JumpStatement::Break),
        )),
        spelled(
            "glsl::syntax::SimpleStatement::Jump(glsl::syntax::JumpStatement::Break)",
        )
    );
}

#[test]
fn selection_statement_cases() {
    assert_eq!(
        spelled_code(&tokenize_selection_statement(
            &SelectionStatement {
                cond: Box::new(Expr::IntConst(1)),
                rest: SelectionRestStatement::Statement(
                    Box::new(
                        Statement::Simple(Box::new(SimpleStatement::Jump(JumpStatement::Break))),
                    ),
                ),
            },
        )),
        spelled(
            "glsl::syntax::SelectionStatement { cond: Box::new(glsl::syntax::Expr::IntConst(\
             1i32)), rest: glsl::syntax::SelectionRestStatement::Statement(Box::new(\
             glsl::syntax::Statement::Simple(Box::new(glsl::syntax::SimpleStatement::Jump(\
             glsl::syntax::JumpStatement::Break))))) }",
        )
    );
}

#[test]
fn selection_rest_statement_cases() {
    assert_eq!(
        spelled_code(&tokenize_selection_rest_statement(
            &SelectionRestStatement::Statement(
                Box::new(Statement::Simple(Box::new(SimpleStatement::Jump(JumpStatement::Break)))),
            ),
        )),
        spelled(
            "glsl::syntax::SelectionRestStatement::Statement(Box::new(\
             glsl::syntax::Statement::Simple(Box::new(glsl::syntax::SimpleStatement::Jump(\
             glsl::syntax::JumpStatement::Break)))))",
        )
    );
    assert_eq!(
        spelled_code(&tokenize_selection_rest_statement(
            &SelectionRestStatement::Else(
                Box::new(Statement::Simple(Box::new(SimpleStatement::Jump(JumpStatement::Break)))),
                Box::new(Statement::Simple(Box::new(SimpleStatement::Jump(JumpStatement::Break)))),
            ),
        )),
        spelled(
            "glsl::syntax::SelectionRestStatement::Else(Box::new(\
             glsl::syntax::Statement::Simple(Box::new(glsl::syntax::SimpleStatement::Jump(\
             glsl::syntax::JumpStatement::Break)))), Box::new(glsl::syntax::Statement::Simple(\
             Box::new(glsl::syntax::SimpleStatement::Jump(\
             glsl::syntax::JumpStatement::Break)))))",
        )
    );
}

#[test]
fn switch_statement_cases() {
    assert_eq!(
        spelled_code(&tokenize_switch_statement(
            &SwitchStatement { head: Box::new(Expr::IntConst(1)), body: vec![] },
        )),
        spelled(
            "glsl::syntax::SwitchStatement { head: Box::new(glsl::syntax::Expr::IntConst(\
             1i32)), body: vec![] }",
        )
    );
    assert_eq!(
        spelled_code(&tokenize_switch_statement(
            &SwitchStatement {
                head: Box::new(Expr::IntConst(1)),
                body: vec![
                    Statement::Simple(Box::new(SimpleStatement::Jump(JumpStatement::Break))),
                    Statement::Simple(Box::new(SimpleStatement::Jump(JumpStatement::Break))),
                ],
            },
        )),
        spelled(
            "glsl::syntax::SwitchStatement { head: Box::new(glsl::syntax::Expr::IntConst(\
             1i32)), body: vec![glsl::syntax::Statement::Simple(Box::new(\
             glsl::syntax::SimpleStatement::Jump(glsl::syntax::JumpStatement::Break))), \
             glsl::syntax::Statement::Simple(Box::new(glsl::syntax::SimpleStatement::Jump(\
             glsl::syntax::JumpStatement::Break)))] }",
        )
    );
}

#[test]
fn iteration_statement_cases() {
    assert_eq!(
        spelled_code(&tokenize_iteration_statement(
            &IterationStatement::While(
                Condition::Expr(Box::new(Expr::IntConst(1))),
                Box::new(Statement::Simple(Box::new(SimpleStatement::Jump(JumpStatement::Break)))),
            ),
        )),
        spelled(
            "glsl::syntax::IterationStatement::While(glsl::syntax::Condition::Expr(Box::new(\
             glsl::syntax::Expr::IntConst(1i32))), Box::new(glsl::syntax::Statement::Simple(\
             Box::new(glsl::syntax::SimpleStatement::Jump(\
             glsl::syntax::JumpStatement::Break)))))",
        )
    );
    assert_eq!(
        spelled_code(&tokenize_iteration_statement(
            &IterationStatement::DoWhile(
                Box::new(Statement::Simple(Box::new(SimpleStatement::Jump(JumpStatement::Break)))),
                Box::new(Expr::IntConst(1)),
            ),
        )),
        spelled(
            "glsl::syntax::IterationStatement::DoWhile(Box::new(\
             glsl::syntax::Statement::Simple(Box::new(glsl::syntax::SimpleStatement::Jump(\
             glsl::syntax::JumpStatement::Break)))), Box::new(glsl::syntax::Expr::IntConst(\
             1i32)))",
        )
    );
    assert_eq!(
        spelled_code(&tokenize_iteration_statement(
            &IterationStatement::For(
                ForInitStatement::Expression(None),
                ForRestStatement { condition: None, post_expr: None },
                Box::new(Statement::Simple(Box::new(SimpleStatement::Jump(JumpStatement::Break)))),
            ),
        )),
        spelled(
            "glsl::syntax::IterationStatement::For(glsl::syntax::ForInitStatement::Expression(\
             None), glsl::syntax::ForRestStatement { condition: None, post_expr: None }, \
             Box::new(glsl::syntax::Statement::Simple(Box::new(\
             glsl::syntax::SimpleStatement::Jump(glsl::syntax::JumpStatement::Break)))))",
        )
    );
}

#[test]
fn function_definition_cases() {
    assert_eq!(
        spelled_code(&tokenize_function_definition(
            &FunctionDefinition {
                prototype: FunctionPrototype {
                    ty: FullySpecifiedType {
                        qualifier: None,
                        ty: TypeSpecifier {
                            ty: TypeSpecifierNonArray::Float,
                            array_specifier: None,
                        },
                    },
                    name: "n1".to_string(),
                    parameters: vec![],
                },
                statement: CompoundStatement { statement_list: vec![] },
            },
        )),
        spelled(
            "glsl::syntax::FunctionDefinition { prototype: glsl::syntax::FunctionPrototype { \
             ty: glsl::syntax::FullySpecifiedType { qualifier: None, ty: \
             glsl::syntax::TypeSpecifier { ty: glsl::syntax::TypeSpecifierNonArray::Float, \
             array_specifier: None } }, name: String::from(\"n1\"), parameters: vec![] }, \
             statement: glsl::syntax::CompoundStatement { statement_list: vec![] } }",
        )
    );
}

#[test]
fn statements_keep_their_order() {
    assert_eq!(spelled_code(&tokenize_statements(&Vec::new())), spelled("vec![]"));
    assert_eq!(
        spelled_code(&tokenize_statements(
            &vec![Statement::Simple(Box::new(SimpleStatement::Jump(JumpStatement::Break)))],
        )),
        spelled(
            "vec![glsl::syntax::Statement::Simple(Box::new(glsl::syntax::SimpleStatement::Jump(\
             glsl::syntax::JumpStatement::Break)))]",
        )
    );
    assert_eq!(
        spelled_code(&tokenize_statements(
            &vec![
                Statement::Simple(Box::new(SimpleStatement::Jump(JumpStatement::Break))),
                Statement::Simple(Box::new(SimpleStatement::Jump(JumpStatement::Break))),
                Statement::Simple(Box::new(SimpleStatement::Jump(JumpStatement::Break))),
            ],
        )),
        spelled(
            "vec![glsl::syntax::Statement::Simple(Box::new(glsl::syntax::SimpleStatement::Jump(\
             glsl::syntax::JumpStatement::Break))), glsl::syntax::Statement::Simple(Box::new(\
             glsl::syntax::SimpleStatement::Jump(glsl::syntax::JumpStatement::Break))), \
             glsl::syntax::Statement::Simple(Box::new(glsl::syntax::SimpleStatement::Jump(\
             glsl::syntax::JumpStatement::Break)))]",
        )
    );
}

#[test]
fn expression_statement_cases() {
    assert_eq!(spelled_code(&tokenize_expression_statement(&None)), spelled("None"));
    assert_eq!(
        spelled_code(&tokenize_expression_statement(&Some(Expr::BoolConst(false)))),
        spelled("Some(glsl::syntax::Expr::BoolConst(false))")
    );
}
