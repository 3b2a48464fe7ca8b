use rune_parser::errors::ParserError;
use rune_parser::expr::Expr;
use rune_parser::nodes::Nodes;
use rune_parser::ops::{BinaryOp, UnaryOp};
use rune_parser::parser::Parser;
use rune_parser::types::Types;

#[test]
fn mod_test_let_declaration() {
    let mut parser = Parser::new(String::from("let x = 10")).expect("Expected Parser");
    let statements = parser.parse().expect("Expected statements");
    assert_eq!(statements.len(), 1);
    assert_eq!(
        statements[0],
        Expr::LetDeclaration {
            identifier: "x".into(),
            var_type: None,
            value: Box::new(Expr::Literal(Nodes::new_integer(10))),
        }
    );
}

#[test]
fn test_let_declaration_with_type() {
    let mut parser = Parser::new(String::from("let x: i32 = 10")).expect("Expected Parser");
    let statements = parser.parse().expect("Expected statements");
    assert_eq!(statements.len(), 1);
    assert_eq!(
        statements[0],
        Expr::LetDeclaration {
            identifier: "x".into(),
            var_type: Some(Types::I32),
            value: Box::new(Expr::Literal(Nodes::Integer(10))),
        }
    );
}

#[test]
fn mod_test_assignment() {
    let mut parser = Parser::new(String::from("x = 10")).expect("Expected Parser");
    let statements = parser.parse().expect("Expected statements");
    assert_eq!(statements.len(), 1);
    assert_eq!(
        statements[0],
        Expr::Assignment {
            identifier: "x".into(),
            value: Box::new(Expr::Literal(Nodes::new_integer(10))),
        }
    );
}

#[test]
fn mod_test_multiple_statements_with_semicolons() {
    let mut parser =
        Parser::new(String::from("let x = 10; let y = 20; x + y")).expect("Expected Parser");
    let statements = parser.parse().expect("Expected statements");
    assert_eq!(statements.len(), 3);

    assert_eq!(
        statements[0],
        Expr::LetDeclaration {
            identifier: "x".into(),
            var_type: None,
            value: Box::new(Expr::Literal(Nodes::Integer(10))),
        }
    );

    assert_eq!(
        statements[1],
        Expr::LetDeclaration {
            identifier: "y".into(),
            var_type: None,
            value: Box::new(Expr::Literal(Nodes::new_integer(20))),
        }
    );

    assert_eq!(
        statements[2],
        Expr::Binary {
            left: Box::new(Expr::Literal(Nodes::new_identifier("x".into()))),
            operator: BinaryOp::Add,
            right: Box::new(Expr::Literal(Nodes::new_identifier("y".into()))),
        }
    );
}

#[test]
fn mod_test_block_with_braces() {
    let mut parser = Parser::new(String::from("{ let x = 10; x + 5 }")).expect("Expected Parser");
    let statements = parser.parse().expect("Expected statements");
    assert_eq!(statements.len(), 1);

    if let Expr::Block(block_statements) = &statements[0] {
        assert_eq!(block_statements.len(), 2);
    } else {
        panic!("Expected block expression");
    }
}

#[test]
fn if_block() {
    let mut parser = Parser::new(String::from("if cond1 == cond2 {}")).expect("Expected Parser");
    let statements = parser.parse().expect("Expected statements");
    assert_eq!(statements.len(), 1);

    if let Expr::IfElse { condition, then_branch, else_branch } = &statements[0] {
        assert_eq!(
            **condition,
            Expr::Binary {
                left: Box::new(Expr::Literal(Nodes::new_identifier("cond1".into()))),
                operator: BinaryOp::Equal,
                right: Box::new(Expr::Literal(Nodes::new_identifier("cond2".into()))),
            }
        );
        if let Expr::Block(block_statements) = then_branch.as_ref() {
            assert_eq!(block_statements.len(), 0);
        } else {
            panic!("Expected block expression");
        }
        assert!(else_branch.is_none());
    } else {
        panic!("Expected if expression");
    }
}

#[test]
fn else_block() {
    let mut parser =
        Parser::new(String::from("if cond1 == cond2 {} else {}")).expect("Expected Parser");
    let statements = parser.parse().expect("Expected statements");
    assert_eq!(statements.len(), 1);

    if let Expr::IfElse { condition, then_branch, else_branch } = &statements[0] {
        assert_eq!(
            **condition,
            Expr::Binary {
                left: Box::new(Expr::Literal(Nodes::new_identifier("cond1".into()))),
                operator: BinaryOp::Equal,
                right: Box::new(Expr::Literal(Nodes::new_identifier("cond2".into()))),
            }
        );
        if let Expr::Block(block_statements) = then_branch.as_ref() {
            assert_eq!(block_statements.len(), 0);
        } else {
            panic!("Expected block expression for then branch");
        }
        assert!(else_branch.is_some());
        if let Some(else_expr) = else_branch {
            if let Expr::Block(block_statements) = else_expr.as_ref() {
                assert_eq!(block_statements.len(), 0);
            } else {
                panic!("Expected block expression for else branch");
            }
        }
    } else {
        panic!("Expected if expression");
    }
}

#[test]
fn if_bang_cond() {
    let mut parser = Parser::new(String::from("if !cond1 {} else {}")).expect("Expected Parser");
    let statements = parser.parse().expect("Expected statements");
    assert_eq!(statements.len(), 1);

    if let Expr::IfElse { condition, then_branch, else_branch } = &statements[0] {
        assert_eq!(
            **condition,
            Expr::Unary {
                operator: UnaryOp::Not,
                operand: Box::new(Expr::Literal(Nodes::new_identifier("cond1".into()))),
            }
        );
        if let Expr::Block(block_statements) = then_branch.as_ref() {
            assert_eq!(block_statements.len(), 0);
        } else {
            panic!("Expected block expression for then branch");
        }
        assert!(else_branch.is_some());
        if let Some(else_expr) = else_branch {
            if let Expr::Block(block_statements) = else_expr.as_ref() {
                assert_eq!(block_statements.len(), 0);
            } else {
                panic!("Expected block expression for else branch");
            }
        }
    } else {
        panic!("Expected if expression");
    }
}

#[test]
fn invalid_char_should_panic() {
    let result = Parser::new(String::from("@"));
    assert!(result.is_err());
    assert_eq!(result.unwrap_err(), ParserError::UnexpectedCharacter('@'));
}

#[test]
fn type_annotation() {
    let mut parser = Parser::new(String::from("let x: i32 = 42;")).expect("Expected Parser");
    let statements = parser.parse().expect("Expected statements");
    assert_eq!(statements.len(), 1);

    if let Expr::LetDeclaration { identifier, value, var_type } = &statements[0] {
        assert_eq!(identifier, "x");
        assert_eq!(var_type, &Some(Types::I32));
        assert_eq!(value, &Box::new(Expr::Literal(Nodes::Integer(42))));
    } else {
        panic!("Expected let expression");
    }
}

#[test]
fn parser_test_let_declaration() {
    let mut parser = Parser::new(String::from("let x = 10")).expect("Expected Parser");
    let statements = parser.parse().expect("Expected statements");
    assert_eq!(statements.len(), 1);
    assert_eq!(
        statements[0],
        Expr::LetDeclaration {
            identifier: "x".into(),
            var_type: None,
            value: Box::new(Expr::Literal(Nodes::new_integer(10))),
        }
    );
}

#[test]
fn parser_test_assignment() {
    let mut parser = Parser::new(String::from("x = 10")).expect("Expected Parser");
    let statements = parser.parse().expect("Expected statements");
    assert_eq!(statements.len(), 1);
    assert_eq!(
        statements[0],
        Expr::Assignment {
            identifier: "x".into(),
            value: Box::new(Expr::Literal(Nodes::new_integer(10))),
        }
    );
}

#[test]
fn parser_test_multiple_statements_with_semicolons() {
    let mut parser =
        Parser::new(String::from("let x = 10; let y = 20; x + y")).expect("Expected Parser");
    let statements = parser.parse().expect("Expected statements");
    assert_eq!(statements.len(), 3);

    assert_eq!(
        statements[0],
        Expr::LetDeclaration {
            identifier: "x".into(),
            var_type: None,
            value: Box::new(Expr::Literal(Nodes::Integer(10))),
        }
    );

    assert_eq!(
        statements[1],
        Expr::LetDeclaration {
            identifier: "y".into(),
            var_type: None,
            value: Box::new(Expr::Literal(Nodes::new_integer(20))),
        }
    );

    assert_eq!(
        statements[2],
        Expr::Binary {
            left: Box::new(Expr::Literal(Nodes::new_identifier("x".into()))),
            operator: BinaryOp::Add,
            right: Box::new(Expr::Literal(Nodes::new_identifier("y".into()))),
        }
    );
}

#[test]
fn parser_test_block_with_braces() {
    let mut parser = Parser::new(String::from("{ let x = 10; x + 5 }")).expect("Expected Parser");
    let statements = parser.parse().expect("Expected statements");
    assert_eq!(statements.len(), 1);

    if let Expr::Block(block_statements) = &statements[0] {
        assert_eq!(block_statements.len(), 2);
    } else {
        panic!("Expected block expression");
    }
}
