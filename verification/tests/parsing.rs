use interpreter::parser::{Parser, SyntaxError, SyntaxErrorKind};
use interpreter::scanner::Scanner;
use interpreter::token::TokenType;
use interpreter::tree::Expr;

fn num(text: &str) -> TokenType {
    TokenType::Number(text.to_string())
}

fn parse_tokens(tokens: Vec<TokenType>) -> Result<Expr, SyntaxError> {
    let mut parser = Parser::new(tokens);
    parser.parse_expression()
}

fn scan_then_parse(text: &str) -> Result<Expr, SyntaxError> {
    let mut scanner = Scanner::default();
    scanner.scan_line(text.to_string()).expect("scan should succeed");
    let mut tokens = scanner.tokens;
    tokens.push(TokenType::EOF);
    parse_tokens(tokens)
}

#[test]
fn round_trip_reflects_precedence() {
    let tree = scan_then_parse("1 + 2 * 3 ").expect("parse should succeed");
    assert_eq!(tree.print(), "(1 (2 3 *) +)");
}

#[test]
fn grouping_wraps_the_binary_node() {
    let tree = parse_tokens(vec![
        TokenType::LeftParan,
        num("1"),
        TokenType::Plus,
        num("2"),
        TokenType::RightParan,
        TokenType::EOF,
    ])
    .expect("parse should succeed");
    let expected = Expr::Grouping {
        expr: Box::new(Expr::Binary {
            left: Box::new(Expr::Literal(num("1"))),
            right: Box::new(Expr::Literal(num("2"))),
            op: TokenType::Plus,
        }),
    };
    assert_eq!(tree, expected);
}

#[test]
fn missing_closing_paren_is_syntax_error() {
    let err = parse_tokens(vec![
        TokenType::LeftParan,
        num("1"),
        TokenType::Plus,
        num("2"),
        TokenType::EOF,
    ])
    .unwrap_err();
    assert_eq!(err.kind, SyntaxErrorKind::ExpectedRightParen);
    assert_eq!(err.at, 4);
    assert_eq!(err.token, TokenType::EOF);
}

#[test]
fn same_tier_operators_fold_to_the_left() {
    let tree = scan_then_parse("1 - 2 - 3 ").expect("parse should succeed");
    assert_eq!(tree.print(), "((1 2 -) 3 -)");
}

#[test]
fn unary_is_right_associative() {
    let tree = parse_tokens(vec![
        TokenType::Bang,
        TokenType::Bang,
        TokenType::True,
        TokenType::EOF,
    ])
    .expect("parse should succeed");
    assert_eq!(tree.print(), "((true !) !)");
}

#[test]
fn unary_minus_applies_to_a_number() {
    let tree = parse_tokens(vec![TokenType::Minus, num("1"), TokenType::EOF])
        .expect("parse should succeed");
    assert_eq!(tree.print(), "(1 -)");
}

#[test]
fn operator_alone_cannot_begin_an_expression() {
    let err = parse_tokens(vec![TokenType::Plus, TokenType::EOF]).unwrap_err();
    assert_eq!(err.kind, SyntaxErrorKind::ExpectedExpression);
    assert_eq!(err.at, 0);
    assert_eq!(err.token, TokenType::Plus);
}

#[test]
fn empty_input_cannot_begin_an_expression() {
    let err = parse_tokens(vec![TokenType::EOF]).unwrap_err();
    assert_eq!(err.kind, SyntaxErrorKind::ExpectedExpression);
    assert_eq!(err.at, 0);
    assert_eq!(err.token, TokenType::EOF);
}

#[test]
fn comparison_binds_tighter_than_equality() {
    let tree = scan_then_parse("1 < 2 == true ").expect("parse should succeed");
    assert_eq!(tree.print(), "((1 2 <) true ==)");
}

#[test]
fn printer_renders_grouping_with_braces() {
    let tree = Expr::Grouping {
        expr: Box::new(Expr::Binary {
            left: Box::new(Expr::Literal(num("1"))),
            right: Box::new(Expr::Literal(num("2"))),
            op: TokenType::Plus,
        }),
    };
    assert_eq!(tree.print(), "{(1 2 +)}");
}

#[test]
fn scanned_grouping_prints_with_braces() {
    let tree = scan_then_parse("( 1 + 2 ) * 3 ").expect("parse should succeed");
    assert_eq!(tree.print(), "({(1 2 +)} 3 *)");
}

#[test]
fn string_and_boolean_literals_are_primary() {
    let tree = parse_tokens(vec![
        TokenType::TkString("hi".to_string()),
        TokenType::EqEq,
        TokenType::Nil,
        TokenType::EOF,
    ])
    .expect("parse should succeed");
    assert_eq!(tree.print(), "(hi nil ==)");
}

#[test]
fn identifier_is_not_a_primary_expression() {
    let err = parse_tokens(vec![
        TokenType::Identifier("x".to_string()),
        TokenType::EOF,
    ])
    .unwrap_err();
    assert_eq!(err.kind, SyntaxErrorKind::ExpectedExpression);
    assert_eq!(err.at, 0);
}

#[test]
fn literal_number_parses_by_category_keeping_payload() {
    let tree = parse_tokens(vec![num("7"), TokenType::EOF]).expect("parse should succeed");
    assert_eq!(tree, Expr::Literal(num("7")));
}
