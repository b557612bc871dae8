// Declarations, case by case.

use glsl_quasiquote::code::Code;
use glsl_quasiquote::syntax::{
    ArraySpecifier, Block, Declaration, Expr, FullySpecifiedType, FunctionParameterDeclaration,
    FunctionParameterDeclarator, FunctionPrototype, InitDeclaratorList, Initializer,
    PrecisionQualifier, SingleDeclaration, SingleDeclarationNoType, StructFieldSpecifier,
    TypeQualifier, TypeSpecifier, TypeSpecifierNonArray,
};
use glsl_quasiquote::tokenizer::declarations::{
    tokenize_block, tokenize_declaration, tokenize_declarators,
    tokenize_function_parameter_declaration, tokenize_function_parameter_declarator,
    tokenize_function_prototype, tokenize_identifiers, tokenize_init_declarator_list,
    tokenize_initializer, tokenize_initializers, tokenize_parameters, tokenize_single_declaration,
    tokenize_single_declaration_no_type,
};

/// The text of a token stream, for comparison.
fn spelled(source: &str) -> String {
    let stream: proc_macro2::TokenStream = source.parse().unwrap();
    stream.to_string()
}

/// The text of the tokens of a constructor expression.
fn spelled_code(code: &Code) -> String {
    code.to_token_stream().to_string()
}

#[test]
fn initializer_cases() {
    assert_eq!(
        spelled_code(&tokenize_initializer(
            &Initializer::Simple(Box::new(Expr::IntConst(1))),
        )),
        spelled(
            "glsl::syntax::Initializer::Simple(Box::new(glsl::syntax::Expr::IntConst(1i32)))",
        )
    );
    assert_eq!(
        spelled_code(&tokenize_initializer(
            &Initializer::List(vec![]),
        )),
        spelled(
            "glsl::syntax::Initializer::List(vec![])",
        )
    );
    assert_eq!(
        spelled_code(&tokenize_initializer(
            &Initializer::List(
                vec![
                    Initializer::Simple(Box::new(Expr::IntConst(1))),
                    Initializer::Simple(Box::new(Expr::IntConst(2))),
                ],
            ),
        )),
        spelled(
            "glsl::syntax::Initializer::List(vec![glsl::syntax::Initializer::Simple(Box::new(\
             glsl::syntax::Expr::IntConst(1i32))), glsl::syntax::Initializer::Simple(Box::new(\
             glsl::syntax::Expr::IntConst(2i32)))])",
        )
    );
}

#[test]
fn single_declaration_cases() {
    assert_eq!(
        spelled_code(&tokenize_single_declaration(
            &SingleDeclaration {
                ty: FullySpecifiedType {
                    qualifier: None,
                    ty: TypeSpecifier { ty: TypeSpecifierNonArray::Float, array_specifier: None },
                },
                name: None,
                array_specifier: None,
                initializer: None,
            },
        )),
        spelled(
            "glsl::syntax::SingleDeclaration { ty: glsl::syntax::FullySpecifiedType { \
             qualifier: None, ty: glsl::syntax::TypeSpecifier { ty: \
             glsl::syntax::TypeSpecifierNonArray::Float, array_specifier: None } }, name: None,\
              array_specifier: None, initializer: None }",
        )
    );
    assert_eq!(
        spelled_code(&tokenize_single_declaration(
            &SingleDeclaration {
                ty: FullySpecifiedType {
                    qualifier: None,
                    ty: TypeSpecifier { ty: TypeSpecifierNonArray::Float, array_specifier: None },
                },
                name: Some("n1".to_string()),
                array_specifier: Some(ArraySpecifier::Unsized),
                initializer: Some(Initializer::Simple(Box::new(Expr::IntConst(2)))),
            },
        )),
        spelled(
            "glsl::syntax::SingleDeclaration { ty: glsl::syntax::FullySpecifiedType { \
             qualifier: None, ty: glsl::syntax::TypeSpecifier { ty: \
             glsl::syntax::TypeSpecifierNonArray::Float, array_specifier: None } }, name: Some(\
             String::from(\"n1\")), array_specifier: Some(\
             glsl::syntax::ArraySpecifier::Unsized), initializer: Some(\
             glsl::syntax::Initializer::Simple(Box::new(glsl::syntax::Expr::IntConst(2i32)))) }",
        )
    );
}

#[test]
fn single_declaration_no_type_cases() {
    assert_eq!(
        spelled_code(&tokenize_single_declaration_no_type(
            &SingleDeclarationNoType {
                name: "n1".to_string(),
                array_specifier: None,
                initializer: None,
            },
        )),
        spelled(
            "glsl::syntax::SingleDeclarationNoType { name: String::from(\"n1\"), \
             array_specifier: None, initializer: None }",
        )
    );
    assert_eq!(
        spelled_code(&tokenize_single_declaration_no_type(
            &SingleDeclarationNoType {
                name: "n1".to_string(),
                array_specifier: Some(ArraySpecifier::Unsized),
                initializer: Some(Initializer::Simple(Box::new(Expr::IntConst(2)))),
            },
        )),
        spelled(
            "glsl::syntax::SingleDeclarationNoType { name: String::from(\"n1\"), \
             array_specifier: Some(glsl::syntax::ArraySpecifier::Unsized), initializer: Some(\
             glsl::syntax::Initializer::Simple(Box::new(glsl::syntax::Expr::IntConst(2i32)))) }",
        )
    );
}

#[test]
fn init_declarator_list_cases() {
    assert_eq!(
        spelled_code(&tokenize_init_declarator_list(
            &InitDeclaratorList {
                head: SingleDeclaration {
                    ty: FullySpecifiedType {
                        qualifier: None,
                        ty: TypeSpecifier {
                            ty: TypeSpecifierNonArray::Float,
                            array_specifier: None,
                        },
                    },
                    name: None,
                    array_specifier: None,
                    initializer: None,
                },
                tail: vec![],
            },
        )),
        spelled(
            "glsl::syntax::InitDeclaratorList { head: glsl::syntax::SingleDeclaration { ty: \
             glsl::syntax::FullySpecifiedType { qualifier: None, ty: \
             glsl::syntax::TypeSpecifier { ty: glsl::syntax::TypeSpecifierNonArray::Float, \
             array_specifier: None } }, name: None, array_specifier: None, initializer: None },\
              tail: vec![] }",
        )
    );
    assert_eq!(
        spelled_code(&tokenize_init_declarator_list(
            &InitDeclaratorList {
                head: SingleDeclaration {
                    ty: FullySpecifiedType {
                        qualifier: None,
                        ty: TypeSpecifier {
                            ty: TypeSpecifierNonArray::Float,
                            array_specifier: None,
                        },
                    },
                    name: None,
                    array_specifier: None,
                    initializer: None,
                },
                tail: vec![
                    SingleDeclarationNoType {
                        name: "n1".to_string(),
                        array_specifier: None,
                        initializer: None,
                    },
                    SingleDeclarationNoType {
                        name: "n2".to_string(),
                        array_specifier: None,
                        initializer: None,
                    },
                ],
            },
        )),
        spelled(
            "glsl::syntax::InitDeclaratorList { head: glsl::syntax::SingleDeclaration { ty: \
             glsl::syntax::FullySpecifiedType { qualifier: None, ty: \
             glsl::syntax::TypeSpecifier { ty: glsl::syntax::TypeSpecifierNonArray::Float, \
             array_specifier: None } }, name: None, array_specifier: None, initializer: None },\
              tail: vec![glsl::syntax::SingleDeclarationNoType { name: String::from(\"n1\"), \
             array_specifier: None, initializer: None }, glsl::syntax::SingleDeclarationNoType \
             { name: String::from(\"n2\"), array_specifier: None, initializer: None }] }",
        )
    );
}

#[test]
fn function_parameter_declarator_cases() {
    assert_eq!(
        spelled_code(&tokenize_function_parameter_declarator(
            &FunctionParameterDeclarator {
                ty: TypeSpecifier { ty: TypeSpecifierNonArray::Float, array_specifier: None },
                name: "n1".to_string(),
                array_spec: None,
            },
        )),
        spelled(
            "glsl::syntax::FunctionParameterDeclarator { ty: glsl::syntax::TypeSpecifier { ty: \
             glsl::syntax::TypeSpecifierNonArray::Float, array_specifier: None }, name: \
             String::from(\"n1\"), array_spec: None }",
        )
    );
    assert_eq!(
        spelled_code(&tokenize_function_parameter_declarator(
            &FunctionParameterDeclarator {
                ty: TypeSpecifier { ty: TypeSpecifierNonArray::Float, array_specifier: None },
                name: "n1".to_string(),
                array_spec: Some(ArraySpecifier::Unsized),
            },
        )),
        spelled(
            "glsl::syntax::FunctionParameterDeclarator { ty: glsl::syntax::TypeSpecifier { ty: \
             glsl::syntax::TypeSpecifierNonArray::Float, array_specifier: None }, name: \
             String::from(\"n1\"), array_spec: Some(glsl::syntax::ArraySpecifier::Unsized) }",
        )
    );
}

#[test]
fn function_parameter_declaration_cases() {
    assert_eq!(
        spelled_code(&tokenize_function_parameter_declaration(
            &FunctionParameterDeclaration::Named(
                None,
                FunctionParameterDeclarator {
                    ty: TypeSpecifier { ty: TypeSpecifierNonArray::Float, array_specifier: None },
                    name: "n1".to_string(),
                    array_spec: None,
                },
            ),
        )),
        spelled(
            "glsl::syntax::FunctionParameterDeclaration::Named(None, \
             glsl::syntax::FunctionParameterDeclarator { ty: glsl::syntax::TypeSpecifier { ty: \
             glsl::syntax::TypeSpecifierNonArray::Float, array_specifier: None }, name: \
             String::from(\"n1\"), array_spec: None })",
        )
    );
    assert_eq!(
        spelled_code(&tokenize_function_parameter_declaration(
            &FunctionParameterDeclaration::Named(
                Some(TypeQualifier { qualifiers: vec![] }),
                FunctionParameterDeclarator {
                    ty: TypeSpecifier { ty: TypeSpecifierNonArray::Float, array_specifier: None },
                    name: "n1".to_string(),
                    array_spec: None,
                },
            ),
        )),
        spelled(
            "glsl::syntax::FunctionParameterDeclaration::Named(Some(\
             glsl::syntax::TypeQualifier { qualifiers: vec![] }), \
             glsl::syntax::FunctionParameterDeclarator { ty: glsl::syntax::TypeSpecifier { ty: \
             glsl::syntax::TypeSpecifierNonArray::Float, array_specifier: None }, name: \
             String::from(\"n1\"), array_spec: None })",
        )
    );
    assert_eq!(
        spelled_code(&tokenize_function_parameter_declaration(
            &FunctionParameterDeclaration::Unnamed(
                None,
                TypeSpecifier { ty: TypeSpecifierNonArray::Float, array_specifier: None },
            ),
        )),
        spelled(
            "glsl::syntax::FunctionParameterDeclaration::Unnamed(None, \
             glsl::syntax::TypeSpecifier { ty: glsl::syntax::TypeSpecifierNonArray::Float, \
             array_specifier: None })",
        )
    );
    assert_eq!(
        spelled_code(&tokenize_function_parameter_declaration(
            &FunctionParameterDeclaration::Unnamed(
                Some(TypeQualifier { qualifiers: vec![] }),
                TypeSpecifier { ty: TypeSpecifierNonArray::Float, array_specifier: None },
            ),
        )),
        spelled(
            "glsl::syntax::FunctionParameterDeclaration::Unnamed(Some(\
             glsl::syntax::TypeQualifier { qualifiers: vec![] }), glsl::syntax::TypeSpecifier \
             { ty: glsl::syntax::TypeSpecifierNonArray::Float, array_specifier: None })",
        )
    );
}

#[test]
fn function_prototype_cases() {
    assert_eq!(
        spelled_code(&tokenize_function_prototype(
            &FunctionPrototype {
                ty: FullySpecifiedType {
                    qualifier: None,
                    ty: TypeSpecifier { ty: TypeSpecifierNonArray::Float, array_specifier: None },
                },
                name: "n1".to_string(),
                parameters: vec![],
            },
        )),
        spelled(
            "glsl::syntax::FunctionPrototype { ty: glsl::syntax::FullySpecifiedType { \
             qualifier: None, ty: glsl::syntax::TypeSpecifier { ty: \
             glsl::syntax::TypeSpecifierNonArray::Float, array_specifier: None } }, name: \
             String::from(\"n1\"), parameters: vec![] }",
        )
    );
    assert_eq!(
        spelled_code(&tokenize_function_prototype(
            &FunctionPrototype {
                ty: FullySpecifiedType {
                    qualifier: None,
                    ty: TypeSpecifier { ty: TypeSpecifierNonArray::Float, array_specifier: None },
                },
                name: "n1".to_string(),
                parameters: vec![
                    FunctionParameterDeclaration::Unnamed(
                        None,
                        TypeSpecifier { ty: TypeSpecifierNonArray::Float, array_specifier: None },
                    ),
                    FunctionParameterDeclaration::Unnamed(
                        None,
                        TypeSpecifier { ty: TypeSpecifierNonArray::Float, array_specifier: None },
                    ),
                ],
            },
        )),
        spelled(
            "glsl::syntax::FunctionPrototype { ty: glsl::syntax::FullySpecifiedType { \
             qualifier: None, ty: glsl::syntax::TypeSpecifier { ty: \
             glsl::syntax::TypeSpecifierNonArray::Float, array_specifier: None } }, name: \
             String::from(\"n1\"), parameters: \
             vec![glsl::syntax::FunctionParameterDeclaration::Unnamed(None, \
             glsl::syntax::TypeSpecifier { ty: glsl::syntax::TypeSpecifierNonArray::Float, \
             array_specifier: None }), glsl::syntax::FunctionParameterDeclaration::Unnamed(\
             None, glsl::syntax::TypeSpecifier { ty: \
             glsl::syntax::TypeSpecifierNonArray::Float, array_specifier: None })] }",
        )
    );
}

#[test]
fn block_cases() {
    assert_eq!(
        spelled_code(&tokenize_block(
            &Block {
                qualifier: TypeQualifier { qualifiers: vec![] },
                name: "n1".to_string(),
                fields: vec![],
                identifier: None,
            },
        )),
        spelled(
            "glsl::syntax::Block { qualifier: glsl::syntax::TypeQualifier { qualifiers: vec![] \
             }, name: String::from(\"n1\"), fields: vec![], identifier: None }",
        )
    );
    assert_eq!(
        spelled_code(&tokenize_block(
            &Block {
                qualifier: TypeQualifier { qualifiers: vec![] },
                name: "n1".to_string(),
                fields: vec![
                    StructFieldSpecifier {
                        qualifier: None,
                        ty: TypeSpecifier {
                            ty: TypeSpecifierNonArray::Float,
                            array_specifier: None,
                        },
                        identifiers: vec![],
                    },
                    StructFieldSpecifier {
                        qualifier: None,
                        ty: TypeSpecifier {
                            ty: TypeSpecifierNonArray::Float,
                            array_specifier: None,
                        },
                        identifiers: vec![],
                    },
                ],
                identifier: Some(("n2".to_string(), None)),
            },
        )),
        spelled(
            "glsl::syntax::Block { qualifier: glsl::syntax::TypeQualifier { qualifiers: vec![] \
             }, name: String::from(\"n1\"), fields: vec![glsl::syntax::StructFieldSpecifier { \
             qualifier: None, ty: glsl::syntax::TypeSpecifier { ty: \
             glsl::syntax::TypeSpecifierNonArray::Float, array_specifier: None }, identifiers: \
             vec![] }, glsl::syntax::StructFieldSpecifier { qualifier: None, ty: \
             glsl::syntax::TypeSpecifier { ty: glsl::syntax::TypeSpecifierNonArray::Float, \
             array_specifier: None }, identifiers: vec![] }], identifier: Some((String::from(\
             \"n2\"), None)) }",
        )
    );
}

#[test]
fn declaration_cases() {
    assert_eq!(
        spelled_code(&tokenize_declaration(
            &Declaration::FunctionPrototype(
                FunctionPrototype {
                    ty: FullySpecifiedType {
                        qualifier: None,
                        ty: TypeSpecifier {
                            ty: TypeSpecifierNonArray::Float,
                            array_specifier: None,
                        },
                    },
                    name: "n1".to_string(),
                    parameters: vec![],
                },
            ),
        )),
        spelled(
            "glsl::syntax::Declaration::FunctionPrototype(glsl::syntax::FunctionPrototype { \
             ty: glsl::syntax::FullySpecifiedType { qualifier: None, ty: \
             glsl::syntax::TypeSpecifier { ty: glsl::syntax::TypeSpecifierNonArray::Float, \
             array_specifier: None } }, name: String::from(\"n1\"), parameters: vec![] })",
        )
    );
    assert_eq!(
        spelled_code(&tokenize_declaration(
            &Declaration::InitDeclaratorList(
                InitDeclaratorList {
                    head: SingleDeclaration {
                        ty: FullySpecifiedType {
                            qualifier: None,
                            ty: TypeSpecifier {
                                ty: TypeSpecifierNonArray::Float,
                                array_specifier: None,
                            },
                        },
                        name: None,
                        array_specifier: None,
                        initializer: None,
                    },
                    tail: vec![],
                },
            ),
        )),
        spelled(
            "glsl::syntax::Declaration::InitDeclaratorList(glsl::syntax::InitDeclaratorList { \
             head: glsl::syntax::SingleDeclaration { ty: glsl::syntax::FullySpecifiedType { \
             qualifier: None, ty: glsl::syntax::TypeSpecifier { ty: \
             glsl::syntax::TypeSpecifierNonArray::Float, array_specifier: None } }, name: None,\
              array_specifier: None, initializer: None }, tail: vec![] })",
        )
    );
    assert_eq!(
        spelled_code(&tokenize_declaration(
            &Declaration::Precision(
                PrecisionQualifier::High,
                TypeSpecifier { ty: TypeSpecifierNonArray::Float, array_specifier: None },
            ),
        )),
        spelled(
            "glsl::syntax::Declaration::Precision(glsl::syntax::PrecisionQualifier::High, \
             glsl::syntax::TypeSpecifier { ty: glsl::syntax::TypeSpecifierNonArray::Float, \
             array_specifier: None })",
        )
    );
    assert_eq!(
        spelled_code(&tokenize_declaration(
            &Declaration::Block(
                Block {
                    qualifier: TypeQualifier { qualifiers: vec![] },
                    name: "n1".to_string(),
                    fields: vec![],
                    identifier: None,
                },
            ),
        )),
        spelled(
            "glsl::syntax::Declaration::Block(glsl::syntax::Block { qualifier: \
             glsl::syntax::TypeQualifier { qualifiers: vec![] }, name: String::from(\"n1\"), \
             fields: vec![], identifier: None })",
        )
    );
    assert_eq!(
        spelled_code(&tokenize_declaration(
            &Declaration::Global(TypeQualifier { qualifiers: vec![] }, vec![]),
        )),
        spelled(
            "glsl::syntax::Declaration::Global(glsl::syntax::TypeQualifier { qualifiers: \
             vec![] }, vec![])",
        )
    );
    assert_eq!(
        spelled_code(&tokenize_declaration(
            &Declaration::Global(
                TypeQualifier { qualifiers: vec![] },
                vec!["n1".to_string(), "n2".to_string()],
            ),
        )),
        spelled(
            "glsl::syntax::Declaration::Global(glsl::syntax::TypeQualifier { qualifiers: \
             vec![] }, vec![n1, n2])",
        )
    );
}

#[test]
fn initializers_keep_their_order() {
    assert_eq!(spelled_code(&tokenize_initializers(&Vec::new())), spelled("vec![]"));
    assert_eq!(
        spelled_code(&tokenize_initializers(
            &vec![Initializer::Simple(Box::new(Expr::IntConst(1)))],
        )),
        spelled(
            "vec![glsl::syntax::Initializer::Simple(Box::new(glsl::syntax::Expr::IntConst(\
             1i32)))]",
        )
    );
    assert_eq!(
        spelled_code(&tokenize_initializers(
            &vec![
                Initializer::Simple(Box::new(Expr::IntConst(1))),
                Initializer::Simple(Box::new(Expr::IntConst(2))),
                Initializer::Simple(Box::new(Expr::IntConst(3))),
            ],
        )),
        spelled(
            "vec![glsl::syntax::Initializer::Simple(Box::new(glsl::syntax::Expr::IntConst(\
             1i32))), glsl::syntax::Initializer::Simple(Box::new(glsl::syntax::Expr::IntConst(\
             2i32))), glsl::syntax::Initializer::Simple(Box::new(glsl::syntax::Expr::IntConst(\
             3i32)))]",
        )
    );
    assert_eq!(
        spelled_code(&tokenize_initializers(
            &vec![
                Initializer::Simple(Box::new(Expr::IntConst(2))),
                Initializer::Simple(Box::new(Expr::IntConst(1))),
            ],
        )),
        spelled(
            "vec![glsl::syntax::Initializer::Simple(Box::new(glsl::syntax::Expr::IntConst(\
             2i32))), glsl::syntax::Initializer::Simple(Box::new(glsl::syntax::Expr::IntConst(\
             1i32)))]",
        )
    );
}

#[test]
fn declarators_keep_their_order() {
    assert_eq!(spelled_code(&tokenize_declarators(&Vec::new())), spelled("vec![]"));
    assert_eq!(
        spelled_code(&tokenize_declarators(
            &vec![
                SingleDeclarationNoType {
                    name: "n1".to_string(),
                    array_specifier: None,
                    initializer: None,
                },
            ],
        )),
        spelled(
            "vec![glsl::syntax::SingleDeclarationNoType { name: String::from(\"n1\"), \
             array_specifier: None, initializer: None }]",
        )
    );
    assert_eq!(
        spelled_code(&tokenize_declarators(
            &vec![
                SingleDeclarationNoType {
                    name: "n1".to_string(),
                    array_specifier: None,
                    initializer: None,
                },
                SingleDeclarationNoType {
                    name: "n2".to_string(),
                    array_specifier: None,
                    initializer: None,
                },
                SingleDeclarationNoType {
                    name: "n3".to_string(),
                    array_specifier: None,
                    initializer: None,
                },
            ],
        )),
        spelled(
            "vec![glsl::syntax::SingleDeclarationNoType { name: String::from(\"n1\"), \
             array_specifier: None, initializer: None }, glsl::syntax::SingleDeclarationNoType \
             { name: String::from(\"n2\"), array_specifier: None, initializer: None }, \
             glsl::syntax::SingleDeclarationNoType { name: String::from(\"n3\"), \
             array_specifier: None, initializer: None }]",
        )
    );
    assert_eq!(
        spelled_code(&tokenize_declarators(
            &vec![
                SingleDeclarationNoType {
                    name: "n2".to_string(),
                    array_specifier: None,
                    initializer: None,
                },
                SingleDeclarationNoType {
                    name: "n1".to_string(),
                    array_specifier: None,
                    initializer: None,
                },
            ],
        )),
        spelled(
            "vec![glsl::syntax::SingleDeclarationNoType { name: String::from(\"n2\"), \
             array_specifier: None, initializer: None }, glsl::syntax::SingleDeclarationNoType \
             { name: String::from(\"n1\"), array_specifier: None, initializer: None }]",
        )
    );
}

#[test]
fn parameters_keep_their_order() {
    assert_eq!(spelled_code(&tokenize_parameters(&Vec::new())), spelled("vec![]"));
    assert_eq!(
        spelled_code(&tokenize_parameters(
            &vec![
                FunctionParameterDeclaration::Unnamed(
                    None,
                    TypeSpecifier { ty: TypeSpecifierNonArray::Float, array_specifier: None },
                ),
            ],
        )),
        spelled(
            "vec![glsl::syntax::FunctionParameterDeclaration::Unnamed(None, \
             glsl::syntax::TypeSpecifier { ty: glsl::syntax::TypeSpecifierNonArray::Float, \
             array_specifier: None })]",
        )
    );
    assert_eq!(
        spelled_code(&tokenize_parameters(
            &vec![
                FunctionParameterDeclaration::Unnamed(
                    None,
                    TypeSpecifier { ty: TypeSpecifierNonArray::Float, array_specifier: None },
                ),
                FunctionParameterDeclaration::Unnamed(
                    None,
                    TypeSpecifier { ty: TypeSpecifierNonArray::Float, array_specifier: None },
                ),
                FunctionParameterDeclaration::Unnamed(
                    None,
                    TypeSpecifier { ty: TypeSpecifierNonArray::Float, array_specifier: None },
                ),
            ],
        )),
        spelled(
            "vec![glsl::syntax::FunctionParameterDeclaration::Unnamed(None, \
             glsl::syntax::TypeSpecifier { ty: glsl::syntax::TypeSpecifierNonArray::Float, \
             array_specifier: None }), glsl::syntax::FunctionParameterDeclaration::Unnamed(\
             None, glsl::syntax::TypeSpecifier { ty: \
             glsl::syntax::TypeSpecifierNonArray::Float, array_specifier: None }), \
             glsl::syntax::FunctionParameterDeclaration::Unnamed(None, \
             glsl::syntax::TypeSpecifier { ty: glsl::syntax::TypeSpecifierNonArray::Float, \
             array_specifier: None })]",
        )
    );
}

#[test]
fn identifiers_keep_their_order() {
    assert_eq!(spelled_code(&tokenize_identifiers(&Vec::new())), spelled("vec![]"));
    assert_eq!(spelled_code(&tokenize_identifiers(&vec!["n1".to_string()])), spelled("vec![n1]"));
    assert_eq!(
        spelled_code(&tokenize_identifiers(
            &vec!["n1".to_string(), "n2".to_string(), "n3".to_string()],
        )),
        spelled(
            "vec![n1, n2, n3]",
        )
    );
    assert_eq!(
        spelled_code(&tokenize_identifiers(
            &vec!["n2".to_string(), "n1".to_string()],
        )),
        spelled(
            "vec![n2, n1]",
        )
    );
}
