use nlisp::scanner::{is_atom_char, match_identifier, scan, Atom, Identifier, Token};

fn scan_str(s: &str) -> Vec<Token> {
    scan(&s.to_string())
}

#[test]
fn scan_empty_line_yields_no_tokens() {
    assert_eq!(scan_str("").len(), 0);
    assert_eq!(scan_str("   \n").len(), 0);
}

#[test]
fn scan_skips_separator_characters() {
    let tokens = scan_str("  ( a )\n");
    assert_eq!(tokens.len(), 3);
    assert!(matches!(tokens[0], Token::LeftParen));
    assert!(matches!(tokens[1], Token::Atom(Atom::Str(_))));
    assert!(matches!(tokens[2], Token::RightParen));
}

#[test]
fn scan_punctuation_is_single_character_tokens() {
    let tokens = scan_str("().");
    assert_eq!(tokens.len(), 3);
    assert!(matches!(tokens[0], Token::LeftParen));
    assert!(matches!(tokens[1], Token::RightParen));
    assert!(matches!(tokens[2], Token::Dot));
}

#[test]
fn scan_classifies_numbers() {
    assert!(matches!(scan_str("42")[0], Token::Atom(Atom::Number(42))));
    assert!(matches!(scan_str("+5")[0], Token::Atom(Atom::Number(5))));
    assert!(matches!(scan_str("-7")[0], Token::Atom(Atom::Number(-7))));
    assert!(matches!(scan_str("007")[0], Token::Atom(Atom::Number(7))));
}

#[test]
fn scan_classifies_extreme_numbers() {
    assert!(matches!(
        scan_str("9223372036854775807")[0],
        Token::Atom(Atom::Number(i64::MAX))
    ));
    assert!(matches!(
        scan_str("-9223372036854775808")[0],
        Token::Atom(Atom::Number(i64::MIN))
    ));
}

#[test]
fn scan_number_too_large_falls_back_to_string() {
    let tokens = scan_str("99999999999999999999");
    match &tokens[0] {
        Token::Atom(Atom::Str(s)) => assert_eq!(s, "99999999999999999999"),
        _ => panic!("expected a string atom"),
    }
}

#[test]
fn scan_classifies_booleans() {
    assert!(matches!(scan_str("true")[0], Token::Atom(Atom::Boolean(true))));
    assert!(matches!(scan_str("false")[0], Token::Atom(Atom::Boolean(false))));
}

#[test]
fn scan_classifies_identifiers() {
    assert!(matches!(
        scan_str("+")[0],
        Token::Atom(Atom::Identifier(Identifier::Add))
    ));
    assert!(matches!(
        scan_str(">=")[0],
        Token::Atom(Atom::Identifier(Identifier::GreaterOrEqual))
    ));
    assert!(matches!(
        scan_str("quote")[0],
        Token::Atom(Atom::Identifier(Identifier::Quote))
    ));
    assert!(matches!(
        scan_str("length")[0],
        Token::Atom(Atom::Identifier(Identifier::Length))
    ));
}

#[test]
fn scan_unreserved_text_is_string_atom() {
    match &scan_str("foo")[0] {
        Token::Atom(Atom::Str(s)) => assert_eq!(s, "foo"),
        _ => panic!("expected a string atom"),
    }
    match &scan_str("12ab")[0] {
        Token::Atom(Atom::Str(s)) => assert_eq!(s, "12ab"),
        _ => panic!("expected a string atom"),
    }
}

#[test]
fn scan_maximal_run_is_one_token() {
    let tokens = scan_str("abc12 def");
    assert_eq!(tokens.len(), 2);
}

#[test]
fn match_identifier_covers_reserved_names() {
    assert_eq!(match_identifier(&"car".to_string()), Some(Identifier::Car));
    assert_eq!(match_identifier(&"cdr".to_string()), Some(Identifier::Cdr));
    assert_eq!(match_identifier(&"defun".to_string()), Some(Identifier::Defun));
    assert_eq!(match_identifier(&"listp".to_string()), Some(Identifier::Listp));
    assert_eq!(match_identifier(&"unknown".to_string()), None);
}

#[test]
fn is_atom_char_accepts_atom_characters_only() {
    assert!(is_atom_char(&'+'));
    assert!(is_atom_char(&'z'));
    assert!(is_atom_char(&'A'));
    assert!(is_atom_char(&'0'));
    assert!(is_atom_char(&'>'));
    assert!(!is_atom_char(&' '));
    assert!(!is_atom_char(&'('));
    assert!(!is_atom_char(&'.'));
    assert!(!is_atom_char(&'#'));
}
