use interpreter::scanner::{LexErrorKind, Scanner, ScannerState};
use interpreter::token::TokenType;

fn scan_ok(text: &str) -> Scanner {
    let mut s = Scanner::default();
    s.scan_line(text.to_string()).expect("scan should succeed");
    s
}

fn tokens_of(text: &str) -> Vec<TokenType> {
    scan_ok(text).tokens
}

#[test]
fn single_char_punctuation_each_emits_one_token() {
    let cases = vec![
        ("{", TokenType::LeftBrace),
        ("}", TokenType::RightBrace),
        ("(", TokenType::LeftParan),
        (")", TokenType::RightParan),
        (",", TokenType::Comma),
        (".", TokenType::Dot),
        (";", TokenType::Semicolon),
        ("-", TokenType::Minus),
        ("+", TokenType::Plus),
        ("*", TokenType::Star),
    ];
    for (text, expected) in cases {
        let s = scan_ok(text);
        assert_eq!(s.tokens, vec![expected]);
        assert_eq!(s.state, ScannerState::Blank);
    }
}

#[test]
fn bang_eq_is_one_token() {
    let s = scan_ok("!=");
    assert_eq!(s.tokens, vec![TokenType::BangEq]);
    assert_eq!(s.state, ScannerState::Blank);
}

#[test]
fn bang_then_other_reclassifies_the_character() {
    let toks = tokens_of("!a ");
    assert_eq!(
        toks,
        vec![TokenType::Bang, TokenType::Identifier("a".to_string())]
    );
}

#[test]
fn number_scans_to_its_value() {
    let toks = tokens_of("123.5 ");
    assert_eq!(toks, vec![TokenType::Number("123.5".to_string())]);
    match &toks[0] {
        TokenType::Number(text) => {
            let value: f64 = text.parse().expect("number text should parse");
            assert_eq!(value, 123.5);
        }
        other => panic!("expected a number token, got {:?}", other),
    }
}

#[test]
fn number_with_trailing_letter_is_lexical_error() {
    let mut s = Scanner::default();
    let err = s.scan_line("12a ".to_string()).unwrap_err();
    assert_eq!(err.kind, LexErrorKind::MalformedNumberTerminator);
}

#[test]
fn number_with_two_decimal_points_is_lexical_error() {
    let mut s = Scanner::default();
    let err = s.scan_line("1.2.3 ".to_string()).unwrap_err();
    assert_eq!(err.kind, LexErrorKind::MalformedNumber);
}

#[test]
fn identifier_keeps_its_spelling() {
    assert_eq!(
        tokens_of("foo "),
        vec![TokenType::Identifier("foo".to_string())]
    );
}

#[test]
fn keyword_resolves_to_keyword_token_never_identifier() {
    assert_eq!(tokens_of("if "), vec![TokenType::If]);
    assert_eq!(
        tokens_of("var x \n"),
        vec![TokenType::Var, TokenType::Identifier("x".to_string())]
    );
}

#[test]
fn string_token_holds_contents_without_quotes() {
    assert_eq!(
        tokens_of("\"hello\""),
        vec![TokenType::TkString("hello".to_string())]
    );
}

#[test]
fn whitespace_only_emits_nothing_and_stays_blank() {
    let s = scan_ok("  \n \n   ");
    assert!(s.tokens.is_empty());
    assert_eq!(s.state, ScannerState::Blank);
    assert_eq!(s.line_no, 2);
}

#[test]
fn rescanning_the_same_line_gives_identical_tokens() {
    let line = "var answer = 1 + 2.5 \n";
    let first = tokens_of(line);
    let second = tokens_of(line);
    assert_eq!(first, second);
    assert!(!first.is_empty());
}

#[test]
fn comment_discards_the_rest_of_the_line() {
    let s = scan_ok("1 // 2 + 3");
    assert_eq!(s.tokens, vec![TokenType::Number("1".to_string())]);
    assert_eq!(s.state, ScannerState::Blank);
}

#[test]
fn single_slash_is_division() {
    assert_eq!(
        tokens_of("4 / 2 "),
        vec![
            TokenType::Number("4".to_string()),
            TokenType::Slash,
            TokenType::Number("2".to_string()),
        ]
    );
}

#[test]
fn double_and_single_comparison_operators() {
    assert_eq!(
        tokens_of(">= <= == "),
        vec![TokenType::GtEq, TokenType::LtEq, TokenType::EqEq]
    );
    assert_eq!(
        tokens_of("> < = ; "),
        vec![
            TokenType::Gt,
            TokenType::Lt,
            TokenType::Eq,
            TokenType::Semicolon,
        ]
    );
}

#[test]
fn lexical_error_keeps_earlier_tokens_and_reports_position() {
    let mut s = Scanner::default();
    let err = s.scan_line("foo 12a ".to_string()).unwrap_err();
    assert_eq!(err.kind, LexErrorKind::MalformedNumberTerminator);
    assert_eq!(err.line, 0);
    assert_eq!(err.col, 6);
    assert_eq!(s.tokens, vec![TokenType::Identifier("foo".to_string())]);
}

#[test]
fn newline_advances_line_and_resets_column() {
    let s = scan_ok("a\nbb ");
    assert_eq!(
        s.tokens,
        vec![
            TokenType::Identifier("a".to_string()),
            TokenType::Identifier("bb".to_string()),
        ]
    );
    assert_eq!(s.line_no, 1);
    assert_eq!(s.char_index, 3);
}

#[test]
fn scanner_state_survives_between_lines() {
    let mut s = Scanner::default();
    s.scan_line("\"abc".to_string()).expect("first line scans");
    s.scan_line("def\"".to_string()).expect("second line scans");
    assert_eq!(s.tokens, vec![TokenType::TkString("abcdef".to_string())]);
    assert_eq!(s.state, ScannerState::Blank);
}

#[test]
fn every_keyword_resolves_to_its_token() {
    let cases = vec![
        ("var", TokenType::Var),
        ("if", TokenType::If),
        ("else", TokenType::Else),
        ("for", TokenType::For),
        ("while", TokenType::While),
        ("fun", TokenType::Fun),
        ("return", TokenType::Return),
        ("class", TokenType::Class),
        ("this", TokenType::This),
        ("super", TokenType::Super),
        ("true", TokenType::True),
        ("false", TokenType::False),
        ("and", TokenType::And),
        ("or", TokenType::Or),
        ("nil", TokenType::Nil),
    ];
    for (word, expected) in cases {
        assert_eq!(tokens_of(&format!("{} ", word)), vec![expected]);
    }
}

#[test]
fn number_payload_always_parses_as_a_float() {
    let cases = vec![("0 ", 0.0), ("42 ", 42.0), ("3.25 ", 3.25), ("10. ", 10.0)];
    for (text, expected) in cases {
        let toks = tokens_of(text);
        assert_eq!(toks.len(), 1);
        match &toks[0] {
            TokenType::Number(payload) => {
                let value: f64 = payload.parse().expect("payload should parse");
                assert_eq!(value, expected);
            }
            other => panic!("expected a number token, got {:?}", other),
        }
    }
}
