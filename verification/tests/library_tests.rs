use rune_parser::cli::LogLevel;
use rune_parser::cli_errors::{self, CliError};
use rune_parser::codegen_errors::{self, CodeGenError};
use rune_parser::config::{folder_exists, get_config_file_path, get_something, BuildConfig};
use rune_parser::errors::{get_print_error, ParserError};
use rune_parser::expr::Expr;
use rune_parser::nodes::Nodes;
use rune_parser::ops::{BinaryOp, UnaryOp};
use rune_parser::parser::Parser;
use rune_parser::strings::i64_to_string;
use rune_parser::tokens::Token;
use rune_parser::types::Types;

fn parse_all(source: &str) -> Result<Vec<Expr>, ParserError> {
    Parser::new(String::from(source))?.parse()
}

#[test]
fn empty_input_parses_to_no_statements() {
    assert_eq!(parse_all("").unwrap(), Vec::new());
    assert_eq!(parse_all("  \t\n").unwrap(), Vec::new());
}

#[test]
fn multiplication_binds_tighter_than_addition() {
    let statements = parse_all("1 + 2 * 3").unwrap();
    assert_eq!(
        statements,
        vec![Expr::Binary {
            left: Box::new(Expr::Literal(Nodes::Integer(1))),
            operator: BinaryOp::Add,
            right: Box::new(Expr::Binary {
                left: Box::new(Expr::Literal(Nodes::Integer(2))),
                operator: BinaryOp::Multiply,
                right: Box::new(Expr::Literal(Nodes::Integer(3))),
            }),
        }]
    );
}

#[test]
fn parentheses_override_precedence() {
    let statements = parse_all("(1 + 2) * 3").unwrap();
    assert_eq!(
        statements,
        vec![Expr::Binary {
            left: Box::new(Expr::Binary {
                left: Box::new(Expr::Literal(Nodes::Integer(1))),
                operator: BinaryOp::Add,
                right: Box::new(Expr::Literal(Nodes::Integer(2))),
            }),
            operator: BinaryOp::Multiply,
            right: Box::new(Expr::Literal(Nodes::Integer(3))),
        }]
    );
}

#[test]
fn same_level_operators_fold_left() {
    let statements = parse_all("10 - 4 - 3").unwrap();
    assert_eq!(
        statements,
        vec![Expr::Binary {
            left: Box::new(Expr::Binary {
                left: Box::new(Expr::Literal(Nodes::Integer(10))),
                operator: BinaryOp::Subtract,
                right: Box::new(Expr::Literal(Nodes::Integer(4))),
            }),
            operator: BinaryOp::Subtract,
            right: Box::new(Expr::Literal(Nodes::Integer(3))),
        }]
    );
}

#[test]
fn logical_operators_nest_around_comparisons() {
    let statements = parse_all("a < b && c || d").unwrap();
    assert_eq!(
        statements,
        vec![Expr::Binary {
            left: Box::new(Expr::Binary {
                left: Box::new(Expr::Binary {
                    left: Box::new(Expr::Literal(Nodes::new_identifier("a".into()))),
                    operator: BinaryOp::Less,
                    right: Box::new(Expr::Literal(Nodes::new_identifier("b".into()))),
                }),
                operator: BinaryOp::And,
                right: Box::new(Expr::Literal(Nodes::new_identifier("c".into()))),
            }),
            operator: BinaryOp::Or,
            right: Box::new(Expr::Literal(Nodes::new_identifier("d".into()))),
        }]
    );
}

#[test]
fn unary_minus_is_right_associative() {
    let statements = parse_all("--5").unwrap();
    assert_eq!(
        statements,
        vec![Expr::Unary {
            operator: UnaryOp::Minus,
            operand: Box::new(Expr::Unary {
                operator: UnaryOp::Minus,
                operand: Box::new(Expr::Literal(Nodes::Integer(5))),
            }),
        }]
    );
}

#[test]
fn assignment_is_right_associative() {
    let statements = parse_all("x = y = 1").unwrap();
    assert_eq!(
        statements,
        vec![Expr::Assignment {
            identifier: "x".into(),
            value: Box::new(Expr::Assignment {
                identifier: "y".into(),
                value: Box::new(Expr::Literal(Nodes::Integer(1))),
            }),
        }]
    );
}

#[test]
fn assignment_target_must_be_identifier() {
    let err = parse_all("1 = 2").unwrap_err();
    assert_eq!(
        err,
        ParserError::InvalidAssignment("target must be an identifier".into())
    );
    assert_eq!(
        get_print_error(&err),
        "(P006): Invalid assignment target must be an identifier"
    );
}

#[test]
fn print_requires_parentheses() {
    let statements = parse_all("print(x)").unwrap();
    assert_eq!(
        statements,
        vec![Expr::Print(Box::new(Expr::Literal(Nodes::new_identifier("x".into()))))]
    );
    assert_eq!(
        parse_all("print x").unwrap_err(),
        ParserError::ExpectedAfter("(".into(), "print".into())
    );
    assert_eq!(
        parse_all("print(x").unwrap_err(),
        ParserError::ExpectedAfterCustom(")".into(), "print".into(), "expression".into())
    );
}

#[test]
fn float_literals_keep_their_digits() {
    let statements = parse_all("let x = 1.25").unwrap();
    assert_eq!(
        statements,
        vec![Expr::LetDeclaration {
            identifier: "x".into(),
            var_type: None,
            value: Box::new(Expr::Literal(Nodes::Float("1.25".into()))),
        }]
    );
}

#[test]
fn oversized_integer_literal_becomes_a_float_token() {
    let statements = parse_all("let x = 99999999999999999999").unwrap();
    assert_eq!(
        statements,
        vec![Expr::LetDeclaration {
            identifier: "x".into(),
            var_type: None,
            value: Box::new(Expr::Literal(Nodes::Float("99999999999999999999".into()))),
        }]
    );
    // the largest value that still reads as an integer
    let statements = parse_all("9223372036854775807").unwrap();
    assert_eq!(
        statements,
        vec![Expr::Literal(Nodes::Integer(9223372036854775807))]
    );
    let statements = parse_all("9223372036854775808").unwrap();
    assert_eq!(
        statements,
        vec![Expr::Literal(Nodes::Float("9223372036854775808".into()))]
    );
}

#[test]
fn string_literals_decode_their_escapes() {
    let statements = parse_all("let s = \"a\\n\\t\\\"b\\\\\"").unwrap();
    assert_eq!(
        statements,
        vec![Expr::LetDeclaration {
            identifier: "s".into(),
            var_type: None,
            value: Box::new(Expr::Literal(Nodes::String("a\n\t\"b\\".into()))),
        }]
    );
}

#[test]
fn stray_decimal_points_fail_the_scan() {
    // a float needs at least one digit on each side of the point
    assert_eq!(parse_all("1.").unwrap_err(), ParserError::UnexpectedCharacter('.'));
    assert_eq!(parse_all(".5").unwrap_err(), ParserError::UnexpectedCharacter('.'));
}

#[test]
fn arrow_tokens_are_scanned_but_have_no_production() {
    assert_eq!(
        parse_all("->").unwrap_err(),
        ParserError::UnexpectedToken("Arrow".into())
    );
    assert_eq!(
        parse_all("=>").unwrap_err(),
        ParserError::UnexpectedToken("BigArrow".into())
    );
}

#[test]
fn block_close_check_looks_at_last_consumed_token() {
    // an open block with no brace at all fails
    assert_eq!(
        parse_all("{ x").unwrap_err(),
        ParserError::ExpectedAfter("}".into(), "block".into())
    );
    // but a nested block's closing brace satisfies the check when the
    // tokens run out right after it
    assert_eq!(
        parse_all("{ { }").unwrap(),
        vec![Expr::Block(vec![Expr::Block(vec![])])]
    );
}

#[test]
fn unterminated_string_fails_on_its_opening_quote() {
    assert_eq!(
        parse_all("\"abc").unwrap_err(),
        ParserError::UnexpectedCharacter('"')
    );
}

#[test]
fn booleans_and_keywords_win_over_identifiers() {
    assert_eq!(
        parse_all("true").unwrap(),
        vec![Expr::Literal(Nodes::Boolean(true))]
    );
    assert_eq!(
        parse_all("falsehood").unwrap(),
        vec![Expr::Literal(Nodes::new_identifier("falsehood".into()))]
    );
    assert_eq!(
        parse_all("letx").unwrap(),
        vec![Expr::Literal(Nodes::new_identifier("letx".into()))]
    );
}

#[test]
fn lexical_failure_names_the_character() {
    let err = Parser::new(String::from("let x = 1 # 2")).unwrap_err();
    assert_eq!(err, ParserError::UnexpectedCharacter('#'));
    assert_eq!(get_print_error(&err), "(P001): Unexpected character `#`");
    // a carriage return is not part of the whitespace set
    assert_eq!(
        Parser::new(String::from("1\r")).unwrap_err(),
        ParserError::UnexpectedCharacter('\r')
    );
}

#[test]
fn error_for_each_syntactic_failure_kind() {
    assert_eq!(
        parse_all(";").unwrap_err(),
        ParserError::UnexpectedToken("Semicolon".into())
    );
    assert_eq!(parse_all("1 +").unwrap_err(), ParserError::UnexpectedEndOfInput);
    assert_eq!(
        parse_all("(1").unwrap_err(),
        ParserError::ExpectedAfter(")".into(), "expression".into())
    );
    assert_eq!(
        parse_all("{ x").unwrap_err(),
        ParserError::ExpectedAfter("}".into(), "block".into())
    );
    assert_eq!(
        parse_all("let 5 = 1").unwrap_err(),
        ParserError::ExpectedAfter("identifier".into(), "let".into())
    );
    assert_eq!(
        parse_all("let x 5").unwrap_err(),
        ParserError::ExpectedAfterCustom("=".into(), "".into(), "identifier".into())
    );
    assert_eq!(
        parse_all("let x: ; = 1").unwrap_err(),
        ParserError::ExpectedToken("type".into())
    );
    assert_eq!(
        parse_all("if x {").unwrap_err(),
        ParserError::ExpectedAfter("}".into(), "if-block".into())
    );
    assert_eq!(
        parse_all("if x {} else y").unwrap_err(),
        ParserError::ExpectedAfter("{".into(), "else".into())
    );
    assert_eq!(
        parse_all("while").unwrap_err(),
        ParserError::UnexpectedToken("KeywordWhile".into())
    );
}

#[test]
fn every_type_annotation_keyword_is_accepted() {
    for (src, ty) in [
        ("let a: i32 = 1", Types::I32),
        ("let a: i64 = 1", Types::I64),
        ("let a: bool = 1", Types::Bool),
        ("let a: f32 = 1", Types::F32),
        ("let a: f64 = 1", Types::F64),
        ("let a: String = 1", Types::String),
    ] {
        match &parse_all(src).unwrap()[0] {
            Expr::LetDeclaration { var_type, .. } => assert_eq!(var_type, &Some(ty)),
            other => panic!("expected a declaration, got {:?}", other),
        }
    }
}

#[test]
fn parse_error_messages_render_with_stable_codes() {
    assert_eq!(
        get_print_error(&ParserError::UnexpectedToken("Plus".into())),
        "(P002): Unexpected token `Plus`"
    );
    assert_eq!(
        get_print_error(&ParserError::UnexpectedEndOfInput),
        "(P003): Unexpected end of input"
    );
    assert_eq!(
        get_print_error(&ParserError::ExpectedToken("type".into())),
        "(P004): Expected token `type`"
    );
    assert_eq!(
        get_print_error(&ParserError::ExpectedAfter(")".into(), "expression".into())),
        "(P005): Expected `)` after `expression`"
    );
    assert_eq!(
        get_print_error(&ParserError::ExpectedAfterCustom(
            "=".into(),
            "".into(),
            "identifier".into()
        )),
        "(P005): Expected `=` after `` identifier"
    );
}

#[test]
fn parsing_is_deterministic() {
    let source = "let x = 10; if x > 3 { print(x) } else {}";
    let first = parse_all(source).unwrap();
    let second = parse_all(source).unwrap();
    assert_eq!(first, second);
}

#[test]
fn token_display_text_carries_payloads() {
    assert_eq!(Token::Integer(42).display_text(), "Integer(42)");
    assert_eq!(Token::Identifier("x".into()).display_text(), "Identifier(\"x\")");
    assert_eq!(Token::String("a\nb".into()).display_text(), "String(\"a\\nb\")");
    assert_eq!(Token::Boolean(false).display_text(), "Boolean(false)");
    assert_eq!(Token::Float("1.5".into()).display_text(), "Float(1.5)");
}

#[test]
fn tree_display_preserves_structure() {
    let statements = parse_all("let x: i32 = 1 + 2 * 3").unwrap();
    assert_eq!(
        statements[0].display_string(),
        "let x: Some(I32) = (Integer(1) Add (Integer(2) Multiply Integer(3)))"
    );
    let statements = parse_all("if c {} else { print(\"hi\") }").unwrap();
    assert_eq!(
        statements[0].display_string(),
        "if Identifier(\"c\") { {  } } else { { print String(\"hi\") } }"
    );
}

#[test]
fn decimal_rendering_is_exact() {
    assert_eq!(i64_to_string(0), "0");
    assert_eq!(i64_to_string(907), "907");
    assert_eq!(i64_to_string(-45), "-45");
    assert_eq!(i64_to_string(i64::MAX), "9223372036854775807");
    assert_eq!(i64_to_string(i64::MIN), "-9223372036854775808");
}

#[test]
fn config_paths_and_defaults() {
    assert_eq!(get_config_file_path("/home/me/project"), "/home/me/project/Rune.toml");
    let build = BuildConfig { source_dir: None, target_dir: None };
    assert_eq!(build.source_dir_or_default(), "src");
    assert_eq!(build.target_dir_or_default(), "target");
    let build = BuildConfig {
        source_dir: Some("code".into()),
        target_dir: Some("out".into()),
    };
    assert_eq!(build.source_dir_or_default(), "code");
    assert_eq!(build.target_dir_or_default(), "out");
}

#[test]
fn folder_check_reports_the_missing_folder() {
    assert!(folder_exists("src", true).is_ok());
    let err = folder_exists("src", false).unwrap_err();
    assert_eq!(err, CliError::IOError("Folder src does not exist!".into()));
}

#[test]
fn fixed_lookup_table() {
    assert_eq!(get_something(3), Some(4));
    assert_eq!(get_something(0), Some(1));
    assert_eq!(get_something(7), None);
}

#[test]
fn log_level_from_flags() {
    assert_eq!(LogLevel::from_flags(true, true), LogLevel::Verbose);
    assert_eq!(LogLevel::from_flags(true, false), LogLevel::Quiet);
    assert_eq!(LogLevel::from_flags(false, true), LogLevel::Verbose);
    assert_eq!(LogLevel::from_flags(false, false), LogLevel::Default);
}

#[test]
fn cli_error_messages_render_with_stable_codes() {
    assert_eq!(
        cli_errors::get_print_error(&CliError::InternalError("boom".into())),
        "(C000): Internal error: boom"
    );
    assert_eq!(
        cli_errors::get_print_error(&CliError::FolderCreationError("no".into())),
        "(C001): Folder creation error: no"
    );
    assert_eq!(
        cli_errors::get_print_error(&CliError::InvalidConfig("bad".into())),
        "(C002): Invalid configuration: bad"
    );
    assert_eq!(
        cli_errors::get_print_error(&CliError::IOError("gone".into())),
        "(C003): IO error: gone"
    );
}

#[test]
fn codegen_error_messages_render_with_stable_codes() {
    assert_eq!(
        codegen_errors::get_print_error(&CodeGenError::InternalError("boom".into())),
        "(C000): Internal error: boom"
    );
    assert_eq!(
        codegen_errors::get_print_error(&CodeGenError::UndefinedVariable("x".into())),
        "(C001): Undefined variable `x`"
    );
    assert_eq!(
        codegen_errors::get_print_error(&CodeGenError::TypeMismatch("i64".into(), "f64".into())),
        "(C002): Type mismatch, expected `i64` but got `f64`"
    );
    assert_eq!(
        codegen_errors::get_print_error(&CodeGenError::TypeMismatchCustom("odd".into())),
        "(C002): Type mismatch: odd"
    );
    assert_eq!(
        codegen_errors::get_print_error(&CodeGenError::InvalidOperation("%".into())),
        "(C003): Invalid operation `%`"
    );
    assert_eq!(
        codegen_errors::get_print_error(&CodeGenError::NoFunction),
        "(C004): No function found"
    );
    assert_eq!(
        codegen_errors::get_print_error(&CodeGenError::StringError("oops".into())),
        "(C005): String error: oops"
    );
    assert_eq!(
        codegen_errors::get_print_error(&CodeGenError::OperatorNotSupported(
            "&&".into(),
            "float".into()
        )),
        "(C006): Operator `&&` not supported for `float`"
    );
    assert_eq!(
        codegen_errors::get_print_error(&CodeGenError::StoreError("x".into())),
        "(C007): Store error for variable `x`"
    );
}
