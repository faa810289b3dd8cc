use nlisp::parser::{parse, print_id, print_sexpr, ParseError, Sexpr};
use nlisp::scanner::{scan, Atom, Identifier};

fn parse_str(s: &str) -> Result<Sexpr, ParseError> {
    let tokens = scan(&s.to_string());
    let mut current: usize = 0;
    parse(&tokens, &mut current)
}

fn print_str(s: &str) -> String {
    print_sexpr(&parse_str(s).expect("input should parse"))
}

#[test]
fn parse_single_atom_advances_cursor() {
    let tokens = scan(&"a".to_string());
    let mut current: usize = 0;
    let sexpr = parse(&tokens, &mut current).expect("atom should parse");
    assert_eq!(current, 1);
    assert!(matches!(sexpr, Sexpr::Atom(Atom::Str(_))));
}

#[test]
fn parse_then_print_two_element_list() {
    // The dotted-pair printer never sugars proper lists.
    assert_eq!(print_str("(a b)"), "(a . (b . NIL))");
}

#[test]
fn parse_then_print_three_element_list() {
    assert_eq!(print_str("(a b c)"), "(a . (b . (c . NIL)))");
}

#[test]
fn parse_then_print_nested_list() {
    assert_eq!(print_str("(* 2 (+ 1 2))"), "(* . (2 . ((+ . (1 . (2 . NIL))) . NIL)))");
}

#[test]
fn parse_dotted_pair() {
    assert_eq!(print_str("(a . b)"), "(a . b)");
    assert_eq!(print_str("(1 . (2 . 3))"), "(1 . (2 . 3))");
}

#[test]
fn parse_empty_input_is_unexpected_end() {
    assert_eq!(parse_str("").unwrap_err(), ParseError::UnexpectedEnd);
}

#[test]
fn parse_unclosed_list_is_unexpected_end() {
    assert_eq!(parse_str("(a b").unwrap_err(), ParseError::UnexpectedEnd);
}

#[test]
fn parse_stray_close_paren_is_unexpected_token() {
    assert_eq!(parse_str(")").unwrap_err(), ParseError::UnexpectedToken);
}

#[test]
fn parse_stray_dot_is_unexpected_token() {
    assert_eq!(parse_str(".").unwrap_err(), ParseError::UnexpectedToken);
}

#[test]
fn parse_unclosed_dotted_pair_is_unexpected_token() {
    assert_eq!(parse_str("(a . b c)").unwrap_err(), ParseError::UnexpectedToken);
    assert_eq!(parse_str("(a .)").unwrap_err(), ParseError::UnexpectedToken);
}

#[test]
fn print_numbers_exactly() {
    assert_eq!(print_str("0"), "0");
    assert_eq!(print_str("42"), "42");
    assert_eq!(print_str("-7"), "-7");
    assert_eq!(print_str("1000000"), "1000000");
    assert_eq!(print_str("-9223372036854775808"), "-9223372036854775808");
    assert_eq!(print_str("9223372036854775807"), "9223372036854775807");
}

#[test]
fn print_booleans_and_nil() {
    assert_eq!(print_str("true"), "#t");
    assert_eq!(print_str("false"), "#f");
    assert_eq!(print_sexpr(&Sexpr::Atom(Atom::Nil)), "NIL");
}

#[test]
fn print_identifiers_as_their_source_text() {
    assert_eq!(print_id(&Identifier::Add), "+");
    assert_eq!(print_id(&Identifier::GreaterOrEqual), ">=");
    assert_eq!(print_id(&Identifier::Listp), "listp");
    assert_eq!(print_id(&Identifier::Quote), "quote");
    assert_eq!(print_sexpr(&Sexpr::Atom(Atom::Identifier(Identifier::Car))), "car");
}

#[test]
fn parse_error_messages() {
    assert_eq!(ParseError::UnexpectedToken.message(), "unexpected token");
    assert_eq!(ParseError::UnexpectedEnd.message(), "unexpected end of input");
}
