use nlisp::interpreter::{evaluate, EvalError};
use nlisp::parser::{parse, print_sexpr, Sexpr};
use nlisp::scanner::{scan, Identifier};

fn eval_str(s: &str) -> Result<Sexpr, EvalError> {
    let tokens = scan(&s.to_string());
    let mut current: usize = 0;
    let sexpr = parse(&tokens, &mut current).expect("input should parse");
    evaluate(sexpr)
}

fn eval_print(s: &str) -> String {
    print_sexpr(&eval_str(s).expect("input should evaluate"))
}

#[test]
fn atoms_evaluate_to_themselves() {
    // Round trip: a number, a boolean, and bare text come back unchanged.
    assert_eq!(eval_print("42"), "42");
    assert_eq!(eval_print("-3"), "-3");
    assert_eq!(eval_print("true"), "#t");
    assert_eq!(eval_print("false"), "#f");
    assert_eq!(eval_print("hello"), "hello");
}

#[test]
fn bare_identifier_is_an_error() {
    assert_eq!(eval_str("+").unwrap_err(), EvalError::BareSymbol);
    assert_eq!(eval_str("car").unwrap_err(), EvalError::BareSymbol);
}

#[test]
fn addition_folds_all_operands() {
    assert_eq!(eval_print("(+ 1 2 3)"), "6");
}

#[test]
fn single_operand_fold_hits_nil_identity() {
    assert_eq!(eval_print("(+ 1)"), "1");
    assert_eq!(eval_print("(* 9)"), "9");
    assert_eq!(eval_print("(> 3)"), "3");
}

#[test]
fn nested_application_evaluates_inner_first() {
    assert_eq!(eval_print("(* 2 (+ 1 2))"), "6");
}

#[test]
fn subtraction_folds_right_to_left() {
    // (- 1 2 3) pairs as 1 - (2 - 3).
    assert_eq!(eval_print("(- 1 2 3)"), "2");
}

#[test]
fn division_truncates_toward_zero() {
    assert_eq!(eval_print("(/ 7 2)"), "3");
    assert_eq!(eval_print("(/ -7 2)"), "-3");
}

#[test]
fn division_by_zero_is_an_error() {
    assert_eq!(eval_str("(/ 1 0)").unwrap_err(), EvalError::DivisionByZero);
}

#[test]
fn arithmetic_overflow_is_an_error() {
    assert_eq!(
        eval_str("(+ 9223372036854775807 1)").unwrap_err(),
        EvalError::Overflow
    );
    assert_eq!(
        eval_str("(- -9223372036854775808 1)").unwrap_err(),
        EvalError::Overflow
    );
}

#[test]
fn empty_argument_list_folds_to_nil() {
    assert_eq!(eval_print("(+)"), "NIL");
}

#[test]
fn arithmetic_on_non_number_is_an_error() {
    assert_eq!(eval_str("(+ 1 a)").unwrap_err(), EvalError::NotANumber);
    assert_eq!(eval_str("(+ true 1)").unwrap_err(), EvalError::NotANumber);
}

#[test]
fn two_operand_comparison_yields_boolean() {
    assert_eq!(eval_print("(> 3 2)"), "#t");
    assert_eq!(eval_print("(> 2 3)"), "#f");
    assert_eq!(eval_print("(>= 2 2)"), "#t");
    assert_eq!(eval_print("(>= 1 2)"), "#f");
}

#[test]
fn three_operand_comparison_folds_right_not_all_pairs() {
    // (> 3 2 1) pairs 3 with the boolean of (> 2 1), which is no number.
    assert_eq!(eval_str("(> 3 2 1)").unwrap_err(), EvalError::NotANumber);
    assert_eq!(eval_str("(>= 3 2 1)").unwrap_err(), EvalError::NotANumber);
}

#[test]
fn quote_returns_argument_unevaluated() {
    assert_eq!(eval_print("(quote (+ 1 2))"), "(+ . (1 . (2 . NIL)))");
    assert_eq!(eval_print("(quote a)"), "a");
    assert_eq!(eval_print("(quote +)"), "+");
}

#[test]
fn length_counts_unevaluated_chain() {
    assert_eq!(eval_print("(length (1 2 3))"), "3");
    assert_eq!(eval_print("(length 5)"), "1");
}

#[test]
fn length_of_dotted_pair_counts_both_cells() {
    assert_eq!(eval_print("(length (1 . 2))"), "2");
}

#[test]
fn car_and_cdr_project_the_evaluated_pair() {
    assert_eq!(eval_print("(car (quote (1 2)))"), "1");
    assert_eq!(eval_print("(cdr (quote (1 2)))"), "(2 . NIL)");
}

#[test]
fn car_of_atom_is_not_a_pair_error() {
    assert_eq!(eval_str("(car 5)").unwrap_err(), EvalError::NotAPair);
    assert_eq!(eval_str("(cdr true)").unwrap_err(), EvalError::NotAPair);
    assert_eq!(eval_str("(car (quote a))").unwrap_err(), EvalError::NotAPair);
}

#[test]
fn head_that_is_an_application_is_evaluated_first() {
    assert_eq!(eval_print("((quote +) 1 2)"), "3");
}

#[test]
fn head_that_is_no_operator_is_not_a_procedure() {
    assert_eq!(eval_str("(foo 1)").unwrap_err(), EvalError::NotAProcedure);
    assert_eq!(eval_str("(1 2)").unwrap_err(), EvalError::NotAProcedure);
}

#[test]
fn reserved_identifiers_are_unimplemented_errors() {
    assert_eq!(
        eval_str("(cons 1 2)").unwrap_err(),
        EvalError::Unimplemented(Identifier::Cons)
    );
    assert_eq!(
        eval_str("(eq 1 1)").unwrap_err(),
        EvalError::Unimplemented(Identifier::Eq)
    );
    assert_eq!(
        eval_str("(defun f)").unwrap_err(),
        EvalError::Unimplemented(Identifier::Defun)
    );
    assert_eq!(
        eval_str("(append (quote (1)) (quote (2)))").unwrap_err(),
        EvalError::Unimplemented(Identifier::Append)
    );
    assert_eq!(
        eval_str("(eval (quote 1))").unwrap_err(),
        EvalError::Unimplemented(Identifier::Eval)
    );
}

#[test]
fn unimplemented_is_distinct_from_not_a_procedure() {
    let unimplemented = eval_str("(cons 1 2)").unwrap_err();
    let unrecognized = eval_str("(foo 1)").unwrap_err();
    assert_ne!(unimplemented, unrecognized);
    assert!(matches!(unimplemented, EvalError::Unimplemented(_)));
    assert_eq!(unrecognized, EvalError::NotAProcedure);
}

#[test]
fn eval_error_messages() {
    assert_eq!(EvalError::NotAPair.message(), "argument is not a pair");
    assert_eq!(EvalError::BareSymbol.message(), "symbol outside operator position");
    assert_eq!(EvalError::NotAProcedure.message(), "operator is not a procedure");
    assert_eq!(EvalError::NotANumber.message(), "operand is not a number");
    assert_eq!(EvalError::Overflow.message(), "arithmetic overflow");
    assert_eq!(EvalError::DivisionByZero.message(), "division by zero");
    assert_eq!(
        EvalError::Unimplemented(Identifier::Cons).message(),
        "unimplemented operation: cons"
    );
}

#[test]
fn empty_argument_lists_of_unary_operators() {
    // With no arguments the argument list is the bare Nil atom.
    assert_eq!(eval_print("(quote)"), "NIL");
    assert_eq!(eval_print("(length)"), "0");
    assert_eq!(eval_str("(car)").unwrap_err(), EvalError::NotAPair);
    assert_eq!(eval_str("(cdr)").unwrap_err(), EvalError::NotAPair);
}
