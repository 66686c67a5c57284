//! The syntax-side tests: the lexer, the expression parser and the tree
//! printer, over hand-built token streams and trees.

use std::rc::Rc;
use lox::{
    parse_expr, BinOp, Expr, Lexer, Literal, Stmt, Token, TokenType, TreePrinter, UnOp,
};

fn make_token(token_type: TokenType, literal: Option<Literal>) -> Token {
    Token { token_type, literal, line: 1 }
}

#[test]
fn test_pretty_print() {
    // A simple program: var x = 1 + 2; print x;
    let program = vec![
        Stmt::Var {
            name: "x".to_string(),
            initializer: Some(Expr::Binary {
                left: Box::new(Expr::Literal { value: Literal::Number(1) }),
                operator: BinOp::Add,
                right: Box::new(Expr::Literal { value: Literal::Number(2) }),
            }),
        },
        Stmt::Print {
            expression: Expr::Variable { name: "x".to_string(), id: 0 },
        },
    ];
    let mut tree_printer = TreePrinter::new();
    let text = tree_printer.print_program(&program);
    assert!(text.contains("Var: x"));
    assert!(text.contains("Binary +"));
    assert!(text.contains("Literal: 1"));
    assert!(text.contains("Variable: x"));
}

#[test]
fn test_operator_precedence() {
    let tokens = vec![
        make_token(TokenType::NUMBER, Some(Literal::Number(1))),
        make_token(TokenType::PLUS, None),
        make_token(TokenType::NUMBER, Some(Literal::Number(2))),
        make_token(TokenType::STAR, None),
        make_token(TokenType::NUMBER, Some(Literal::Number(3))),
        make_token(TokenType::EOF, None),
    ];
    let expr = parse_expr(&tokens);
    match expr {
        Ok(Expr::Binary { left, operator, right }) => {
            assert!(matches!(operator, BinOp::Add));
            match *left {
                Expr::Literal { value: Literal::Number(n) } => assert_eq!(n, 1),
                _ => panic!("Expected 1"),
            }
            match *right {
                Expr::Binary { left: l2, operator: op2, right: r2 } => {
                    assert!(matches!(op2, BinOp::Mul));
                    match *l2 {
                        Expr::Literal { value: Literal::Number(n) } => assert_eq!(n, 2),
                        _ => panic!("Expected 2"),
                    }
                    match *r2 {
                        Expr::Literal { value: Literal::Number(n) } => assert_eq!(n, 3),
                        _ => panic!("Expected 3"),
                    }
                }
                _ => panic!("Expected nested binary on the right"),
            }
        }
        _ => panic!("Expected binary expression"),
    }
}

#[test]
fn test_unary_expression() {
    let tokens = vec![
        make_token(TokenType::MINUS, None),
        make_token(TokenType::NUMBER, Some(Literal::Number(42))),
        make_token(TokenType::EOF, None),
    ];
    let expr = parse_expr(&tokens);
    match expr {
        Ok(Expr::Unary { operator, right }) => {
            assert!(matches!(operator, UnOp::Neg));
            match *right {
                Expr::Literal { value: Literal::Number(n) } => assert_eq!(n, 42),
                _ => panic!("Expected 42"),
            }
        }
        _ => panic!("Expected unary expression"),
    }
}

#[test]
fn test_grouping_expression() {
    let tokens = vec![
        make_token(TokenType::LEFT_PAREN, None),
        make_token(TokenType::NUMBER, Some(Literal::Number(3))),
        make_token(TokenType::RIGHT_PAREN, None),
        make_token(TokenType::EOF, None),
    ];
    let expr = parse_expr(&tokens);
    match expr {
        Ok(Expr::Grouping { expression }) => match *expression {
            Expr::Literal { value: Literal::Number(n) } => assert_eq!(n, 3),
            _ => panic!("Expected literal inside grouping"),
        },
        _ => panic!("Expected grouping expression"),
    }
}

#[test]
fn test_equality_expression() {
    let tokens = vec![
        make_token(TokenType::NUMBER, Some(Literal::Number(5))),
        make_token(TokenType::EQUAL_EQUAL, None),
        make_token(TokenType::NUMBER, Some(Literal::Number(5))),
        make_token(TokenType::EOF, None),
    ];
    let expr = parse_expr(&tokens);
    match expr {
        Ok(Expr::Binary { operator, .. }) => assert!(matches!(operator, BinOp::Eq)),
        _ => panic!("Expected equality binary expression"),
    }
}

#[test]
fn test_comparison_expression() {
    let tokens = vec![
        make_token(TokenType::NUMBER, Some(Literal::Number(10))),
        make_token(TokenType::LESS, None),
        make_token(TokenType::NUMBER, Some(Literal::Number(20))),
        make_token(TokenType::EOF, None),
    ];
    let expr = parse_expr(&tokens);
    match expr {
        Ok(Expr::Binary { operator, .. }) => assert!(matches!(operator, BinOp::Lt)),
        _ => panic!("Expected comparison binary expression"),
    }
}

#[test]
fn test_literal_expression_true() {
    let tokens = vec![
        make_token(TokenType::TRUE, None),
        make_token(TokenType::EOF, None),
    ];
    let expr = parse_expr(&tokens);
    match expr {
        Ok(Expr::Literal { value }) => assert!(matches!(value, Literal::Bool(true))),
        _ => panic!("Expected literal true"),
    }
}

#[test]
fn lexer_scans_every_token_kind() {
    let mut lexer = Lexer::new("( ) { } , . - + ; * ! != = == < <= > >= / var x");
    let tokens = lexer.scan_tokens();
    let kinds: Vec<TokenType> = tokens.iter().map(|t| t.token_type).collect();
    assert_eq!(
        kinds,
        vec![
            TokenType::LEFT_PAREN,
            TokenType::RIGHT_PAREN,
            TokenType::LEFT_BRACE,
            TokenType::RIGHT_BRACE,
            TokenType::COMMA,
            TokenType::DOT,
            TokenType::MINUS,
            TokenType::PLUS,
            TokenType::SEMICOLON,
            TokenType::STAR,
            TokenType::BANG,
            TokenType::BANG_EQUAL,
            TokenType::EQUAL,
            TokenType::EQUAL_EQUAL,
            TokenType::LESS,
            TokenType::LESS_EQUAL,
            TokenType::GREATER,
            TokenType::GREATER_EQUAL,
            TokenType::SLASH,
            TokenType::VAR,
            TokenType::IDENTIFIER,
        ]
    );
}

#[test]
fn lexer_reads_numbers_strings_and_keywords() {
    let mut lexer = Lexer::new("while (count <= 100) { print \"hi there\"; }");
    let tokens = lexer.scan_tokens();
    assert_eq!(tokens[0].token_type, TokenType::WHILE);
    assert_eq!(tokens[2].token_type, TokenType::IDENTIFIER);
    match &tokens[2].literal {
        Some(Literal::Str(s)) => assert_eq!(s, "count"),
        other => panic!("expected an identifier literal, got {:?}", other),
    }
    assert_eq!(tokens[4].token_type, TokenType::NUMBER);
    match &tokens[4].literal {
        Some(Literal::Number(n)) => assert_eq!(*n, 100),
        other => panic!("expected a number literal, got {:?}", other),
    }
    assert_eq!(tokens[8].token_type, TokenType::STRING);
    match &tokens[8].literal {
        Some(Literal::Str(s)) => assert_eq!(s, "hi there"),
        other => panic!("expected a string literal, got {:?}", other),
    }
}

#[test]
fn lexer_skips_comments_and_counts_lines() {
    let mut lexer = Lexer::new("// line comment\n/* multi\nline */ var x");
    let tokens = lexer.scan_tokens();
    assert_eq!(tokens.len(), 2);
    assert_eq!(tokens[0].token_type, TokenType::VAR);
    assert_eq!(tokens[0].line, 2);
}

#[test]
fn lexer_marks_fractional_and_huge_numbers_invalid() {
    let mut lexer = Lexer::new("3.25 99999999999999999999 7");
    let tokens = lexer.scan_tokens();
    assert_eq!(tokens[0].token_type, TokenType::INVALID);
    assert_eq!(tokens[1].token_type, TokenType::INVALID);
    assert_eq!(tokens[2].token_type, TokenType::NUMBER);
}

#[test]
fn printer_indent_grows_two_spaces_per_level() {
    let mut p = TreePrinter::new();
    assert_eq!(p.indent(), "");
    p.indent_level = 2;
    assert_eq!(p.indent(), "    ");
}

#[test]
fn printer_renders_a_lambda() {
    let e = Expr::Lambda {
        params: Rc::new(vec!["a".to_string()]),
        body: Rc::new(vec![Stmt::Return {
            value: Some(Expr::Variable { name: "a".to_string(), id: 3 }),
        }]),
    };
    let mut p = TreePrinter::new();
    let text = p.print(&e);
    assert!(text.contains("Lambda (a)"));
    assert!(text.contains("Return"));
}

#[test]
fn token_text_renders_its_literal() {
    let t = Token {
        token_type: TokenType::NUMBER,
        literal: Some(Literal::Number(-3)),
        line: 4,
    };
    assert_eq!(t.text(), "-3");
    let id = Token {
        token_type: TokenType::IDENTIFIER,
        literal: Some(Literal::Str("name".to_string())),
        line: 4,
    };
    assert_eq!(id.text(), "name");
    let th = Token { token_type: TokenType::THIS, literal: None, line: 4 };
    assert_eq!(th.text(), "this");
}
