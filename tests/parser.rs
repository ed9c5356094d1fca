use burn_parse::grammar::ErrorKind;
use burn_parse::literal::parse_integer;
use burn_parse::token::{Token, TokenKind, TokenSource};

#[test]
fn integer_literals() {
    assert_eq!(parse_integer(&"0".to_string()), Some(0));
    assert_eq!(parse_integer(&"12345".to_string()), Some(12345));
    assert_eq!(parse_integer(&"9223372036854775807".to_string()), Some(i64::MAX));
    assert_eq!(parse_integer(&"9223372036854775808".to_string()), None);
    assert_eq!(parse_integer(&"".to_string()), None);
    assert_eq!(parse_integer(&"1x".to_string()), None);
}

#[test]
fn token_source_keeps_returning_eof() {
    let tokens = vec![
        Token::new(TokenKind::Identifier, "a".to_string(), 0),
        Token::new(TokenKind::Eof, String::new(), 1),
    ];
    let mut source = TokenSource::new(tokens);
    let first = source.next_token();
    assert_eq!(first.kind, TokenKind::Identifier);
    assert_eq!(first.text, "a");
    for _ in 0..3 {
        let t = source.next_token();
        assert_eq!(t.kind, TokenKind::Eof);
        assert_eq!(t.offset, 1);
    }
}

#[test]
fn error_kinds_compare_by_value() {
    assert_eq!(ErrorKind::Unexpected(TokenKind::Comma), ErrorKind::Unexpected(TokenKind::Comma));
    assert_ne!(ErrorKind::ExpectedNewline, ErrorKind::ExpectedCloseBrace);
}

use burn_parse::lvalue::to_lvalue;
use burn_parse::node::{Expression, Lvalue};

#[test]
fn variable_becomes_variable_target() {
    let e = Box::new(Expression::Variable { name: "x".to_string(), annotation: None, source_offset: 4 });
    match to_lvalue(e).as_deref() {
        Some(Lvalue::VariableLvalue { name, annotation, source_offset }) => {
            assert_eq!(name, "x");
            assert!(annotation.is_none());
            assert_eq!(*source_offset, 4);
        },
        _ => panic!("expected a variable target"),
    }
}

#[test]
fn member_access_becomes_member_target() {
    let base = Box::new(Expression::Variable { name: "x".to_string(), annotation: None, source_offset: 0 });
    let e = Box::new(Expression::DotAccess { expression: base, name: "y".to_string() });
    match to_lvalue(e).as_deref() {
        Some(Lvalue::DotAccessLvalue { expression, name }) => {
            assert_eq!(name, "y");
            assert!(matches!(&**expression, Expression::Variable { name, .. } if name == "x"));
        },
        _ => panic!("expected a member target"),
    }
}

#[test]
fn literal_is_no_target() {
    assert!(to_lvalue(Box::new(Expression::Integer { value: 1 })).is_none());
}
