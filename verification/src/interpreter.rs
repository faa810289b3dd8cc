//! Evaluator: tree-walking dispatch over a fixed set of built-in operators.
//!
//! Evaluation is self-representational: results live in the same `Sexpr`
//! domain as inputs. Atoms other than identifiers evaluate to themselves;
//! an application evaluates its head to a recognized operator and folds or
//! projects its argument list. Every failure surfaces as an [`EvalError`]
//! value; the evaluator itself never panics.

use vstd::prelude::*;

use crate::scanner::{Atom, AtomModel, Identifier};
use crate::parser::{Cons, Sexpr, SexprModel};

verus! {

/// A named function definition. The `defun` primitive that would produce
/// one is reserved but carries no evaluation semantics yet.
pub struct Function {
    pub name: String,
    pub args: Sexpr,
    pub body: Sexpr,
}

/// Why an expression failed to evaluate.
#[derive(Clone, Copy, PartialEq, Eq, Structural, Debug)]
pub enum EvalError {
    /// A bare identifier was evaluated outside operator position.
    BareSymbol,
    /// The head of an application is not a recognized operator.
    NotAProcedure,
    /// An arithmetic or comparison fold met an operand that is not a number.
    NotANumber,
    /// `car` or `cdr` was applied to something that is not a pair.
    NotAPair,
    /// A reserved identifier with no defined evaluation semantics was
    /// invoked.
    Unimplemented(Identifier),
    /// An arithmetic result fell outside the numeric range.
    Overflow,
    /// A division by zero.
    DivisionByZero,
}

/// The four n-ary arithmetic operators.
#[derive(Clone, Copy, PartialEq, Eq, Structural, Debug)]
pub enum ArithOp {
    Add,
    Subtract,
    Multiply,
    Divide,
}

/// The two n-ary comparison operators.
#[derive(Clone, Copy, PartialEq, Eq, Structural, Debug)]
pub enum CmpOp {
    Greater,
    GreaterOrEqual,
}

/// The spec-level value of an evaluation result.
pub open spec fn res_view(r: Result<Sexpr, EvalError>) -> Result<SexprModel, EvalError> {
    match r {
        Ok(s) => Ok(s@),
        Err(e) => Err(e),
    }
}

/// The absolute value of `x`.
pub open spec fn int_abs(x: int) -> int {
    if x < 0 {
        -x
    } else {
        x
    }
}

/// Division truncated toward zero, as the machine performs it. Defined for
/// `y != 0`.
pub open spec fn div_trunc(x: int, y: int) -> int {
    if (x < 0) != (y < 0) {
        -(int_abs(x) / int_abs(y))
    } else {
        int_abs(x) / int_abs(y)
    }
}

/// What one arithmetic pairing yields: the exact value, or a division by
/// zero, or an overflow when the value falls outside the numeric range.
pub open spec fn arith_result(op: ArithOp, x: int, y: int) -> Result<int, EvalError> {
    if op is Divide && y == 0 {
        Err(EvalError::DivisionByZero)
    } else {
        let v = match op {
            ArithOp::Add => x + y,
            ArithOp::Subtract => x - y,
            ArithOp::Multiply => x * y,
            ArithOp::Divide => div_trunc(x, y),
        };
        if i64::MIN <= v <= i64::MAX {
            Ok(v)
        } else {
            Err(EvalError::Overflow)
        }
    }
}

/// What one comparison pairing yields.
pub open spec fn cmp_result(op: CmpOp, x: int, y: int) -> bool {
    match op {
        CmpOp::Greater => x > y,
        CmpOp::GreaterOrEqual => x >= y,
    }
}

/// How an atom evaluates: every atom is self-evaluating except a bare
/// identifier, which is meaningful only as the head of an application.
pub open spec fn eval_atom_spec(a: AtomModel) -> Result<SexprModel, EvalError> {
    match a {
        AtomModel::Identifier(_) => Err(EvalError::BareSymbol),
        _ => Ok(SexprModel::Atom(a)),
    }
}

/// How `quote` treats its argument list: the first argument is returned
/// verbatim, unevaluated; a bare atom argument form is returned as-is.
pub open spec fn quote_spec(args: SexprModel) -> Result<SexprModel, EvalError> {
    match args {
        SexprModel::Cons(h, _) => Ok(*h),
        _ => Ok(args),
    }
}

/// The structural length of a chain: `Nil` closes a chain at no extra
/// cost, any other atom counts one, and a pair counts one plus its tail.
pub open spec fn list_length(e: SexprModel) -> int
    decreases e,
{
    match e {
        SexprModel::Atom(AtomModel::Nil) => 0,
        SexprModel::Atom(_) => 1,
        SexprModel::Cons(_, t) => 1 + list_length(*t),
    }
}

/// How `length` treats its argument list: it walks the unevaluated
/// structure of its first argument, not evaluated element values.
pub open spec fn length_spec(args: SexprModel) -> Result<SexprModel, EvalError> {
    let target = match args {
        SexprModel::Cons(h, _) => *h,
        _ => args,
    };
    if list_length(target) > i64::MAX {
        Err(EvalError::Overflow)
    } else {
        Ok(SexprModel::Atom(AtomModel::Number(list_length(target))))
    }
}

/// The right fold of an argument list under an arithmetic operator. Each
/// element is evaluated eagerly, left to right; the terminal `Nil` is the
/// fold's identity; every other pairing must be two numbers.
pub open spec fn fold_arith(op: ArithOp, args: SexprModel) -> Result<SexprModel, EvalError>
    decreases args, 0nat,
{
    match args {
        SexprModel::Atom(a) => eval_atom_spec(a),
        SexprModel::Cons(h, t) => match eval_spec(*h) {
            Err(e) => Err(e),
            Ok(x) => match fold_arith(op, *t) {
                Err(e) => Err(e),
                Ok(y) => match (x, y) {
                    (
                        SexprModel::Atom(AtomModel::Number(xv)),
                        SexprModel::Atom(AtomModel::Number(yv)),
                    ) => match arith_result(op, xv, yv) {
                        Ok(v) => Ok(SexprModel::Atom(AtomModel::Number(v))),
                        Err(e) => Err(e),
                    },
                    (SexprModel::Atom(AtomModel::Number(_)), SexprModel::Atom(AtomModel::Nil)) => Ok(
                        x,
                    ),
                    _ => Err(EvalError::NotANumber),
                },
            },
        },
    }
}

/// The right fold of an argument list under a comparison operator: the
/// same shape as the arithmetic fold, but a numeric pairing yields a
/// boolean. With more than two operands the nested boolean is no number,
/// so the next pairing fails; that nested right fold is the defined
/// behavior.
pub open spec fn fold_cmp(op: CmpOp, args: SexprModel) -> Result<SexprModel, EvalError>
    decreases args, 0nat,
{
    match args {
        SexprModel::Atom(a) => eval_atom_spec(a),
        SexprModel::Cons(h, t) => match eval_spec(*h) {
            Err(e) => Err(e),
            Ok(x) => match fold_cmp(op, *t) {
                Err(e) => Err(e),
                Ok(y) => match (x, y) {
                    (
                        SexprModel::Atom(AtomModel::Number(xv)),
                        SexprModel::Atom(AtomModel::Number(yv)),
                    ) => Ok(SexprModel::Atom(AtomModel::Boolean(cmp_result(op, xv, yv)))),
                    (SexprModel::Atom(AtomModel::Number(_)), SexprModel::Atom(AtomModel::Nil)) => Ok(
                        x,
                    ),
                    _ => Err(EvalError::NotANumber),
                },
            },
        },
    }
}

/// How `car` treats its argument list: the first argument is evaluated
/// and must denote a pair; its head is returned.
pub open spec fn car_spec(args: SexprModel) -> Result<SexprModel, EvalError>
    decreases args, 0nat,
{
    let evaluated = match args {
        SexprModel::Cons(h, _) => eval_spec(*h),
        SexprModel::Atom(a) => eval_atom_spec(a),
    };
    match evaluated {
        Err(e) => Err(e),
        Ok(SexprModel::Cons(a, _)) => Ok(*a),
        Ok(_) => Err(EvalError::NotAPair),
    }
}

/// How `cdr` treats its argument list: symmetric with `car`, returning
/// the tail of the pair.
pub open spec fn cdr_spec(args: SexprModel) -> Result<SexprModel, EvalError>
    decreases args, 0nat,
{
    let evaluated = match args {
        SexprModel::Cons(h, _) => eval_spec(*h),
        SexprModel::Atom(a) => eval_atom_spec(a),
    };
    match evaluated {
        Err(e) => Err(e),
        Ok(SexprModel::Cons(_, d)) => Ok(*d),
        Ok(_) => Err(EvalError::NotAPair),
    }
}

/// What applying the operator `id` to the argument list `args` yields.
/// The reserved identifiers without defined semantics fail with a
/// distinct `Unimplemented` error.
pub open spec fn apply_spec(id: Identifier, args: SexprModel) -> Result<SexprModel, EvalError>
    decreases args, 1nat,
{
    match id {
        Identifier::Add => fold_arith(ArithOp::Add, args),
        Identifier::Subtract => fold_arith(ArithOp::Subtract, args),
        Identifier::Multiply => fold_arith(ArithOp::Multiply, args),
        Identifier::Divide => fold_arith(ArithOp::Divide, args),
        Identifier::Greater => fold_cmp(CmpOp::Greater, args),
        Identifier::GreaterOrEqual => fold_cmp(CmpOp::GreaterOrEqual, args),
        Identifier::Quote => quote_spec(args),
        Identifier::Length => length_spec(args),
        Identifier::Car => car_spec(args),
        Identifier::Cdr => cdr_spec(args),
        _ => Err(EvalError::Unimplemented(id)),
    }
}

/// How an expression evaluates: atoms by [`eval_atom_spec`]; an
/// application by resolving its head to a recognized operator — evaluating
/// the head first when it is itself an application — and dispatching on it.
pub open spec fn eval_spec(e: SexprModel) -> Result<SexprModel, EvalError>
    decreases e, 2nat,
{
    match e {
        SexprModel::Atom(a) => eval_atom_spec(a),
        SexprModel::Cons(head, args) => match *head {
            SexprModel::Atom(AtomModel::Identifier(id)) => apply_spec(id, *args),
            SexprModel::Atom(_) => Err(EvalError::NotAProcedure),
            SexprModel::Cons(_, _) => match eval_spec(*head) {
                Err(e2) => Err(e2),
                Ok(SexprModel::Atom(AtomModel::Identifier(id))) => apply_spec(id, *args),
                Ok(_) => Err(EvalError::NotAProcedure),
            },
        },
    }
}

} // verus!

verus! {

/// One arithmetic pairing on machine numbers, checked.
fn arith_op(op: ArithOp, x: i64, y: i64) -> (r: Result<i64, EvalError>)
    ensures
        match r {
            Ok(v) => arith_result(op, x as int, y as int) == Ok::<int, EvalError>(v as int),
            Err(e) => arith_result(op, x as int, y as int) == Err::<int, EvalError>(e),
        },
{
    match op {
        ArithOp::Add => match x.checked_add(y) {
            Some(v) => Ok(v),
            None => Err(EvalError::Overflow),
        },
        ArithOp::Subtract => match x.checked_sub(y) {
            Some(v) => Ok(v),
            None => Err(EvalError::Overflow),
        },
        ArithOp::Multiply => match x.checked_mul(y) {
            Some(v) => Ok(v),
            None => Err(EvalError::Overflow),
        },
        ArithOp::Divide => if y == 0 {
            Err(EvalError::DivisionByZero)
        } else {
            match x.checked_div(y) {
                Some(v) => Ok(v),
                None => Err(EvalError::Overflow),
            }
        },
    }
}

/// One comparison pairing on machine numbers.
fn cmp_op(op: CmpOp, x: i64, y: i64) -> (r: bool)
    ensures
        r == cmp_result(op, x as int, y as int),
{
    match op {
        CmpOp::Greater => x > y,
        CmpOp::GreaterOrEqual => x >= y,
    }
}

/// Evaluates an atom: self-evaluating, except a bare identifier.
fn evaluate_atom(atom: Atom) -> (r: Result<Sexpr, EvalError>)
    ensures
        res_view(r) == eval_atom_spec(atom@),
{
    match atom {
        Atom::Identifier(_) => Err(EvalError::BareSymbol),
        _ => Ok(Sexpr::Atom(atom)),
    }
}

/// Folds an argument list under an arithmetic operator, right to left.
fn arithmetic(op: ArithOp, sexpr: Sexpr) -> (r: Result<Sexpr, EvalError>)
    ensures
        res_view(r) == fold_arith(op, sexpr@),
    decreases sexpr, 0nat,
{
    match sexpr {
        Sexpr::Atom(atom) => evaluate_atom(atom),
        Sexpr::Cons(cons) => {
            let c = *cons;
            let car = match evaluate(c.car) {
                Ok(v) => v,
                Err(e) => {
                    return Err(e);
                },
            };
            let cdr = match arithmetic(op, c.cdr) {
                Ok(v) => v,
                Err(e) => {
                    return Err(e);
                },
            };
            match (car, cdr) {
                (Sexpr::Atom(Atom::Number(x)), Sexpr::Atom(Atom::Number(y))) => match arith_op(
                    op,
                    x,
                    y,
                ) {
                    Ok(v) => Ok(Sexpr::Atom(Atom::Number(v))),
                    Err(e) => Err(e),
                },
                (x @ Sexpr::Atom(Atom::Number(_)), Sexpr::Atom(Atom::Nil)) => Ok(x),
                _ => Err(EvalError::NotANumber),
            }
        },
    }
}

/// Folds an argument list under a comparison operator, right to left.
fn conditional(op: CmpOp, sexpr: Sexpr) -> (r: Result<Sexpr, EvalError>)
    ensures
        res_view(r) == fold_cmp(op, sexpr@),
    decreases sexpr, 0nat,
{
    match sexpr {
        Sexpr::Atom(atom) => evaluate_atom(atom),
        Sexpr::Cons(cons) => {
            let c = *cons;
            let car = match evaluate(c.car) {
                Ok(v) => v,
                Err(e) => {
                    return Err(e);
                },
            };
            let cdr = match conditional(op, c.cdr) {
                Ok(v) => v,
                Err(e) => {
                    return Err(e);
                },
            };
            match (car, cdr) {
                (Sexpr::Atom(Atom::Number(x)), Sexpr::Atom(Atom::Number(y))) => Ok(
                    Sexpr::Atom(Atom::Boolean(cmp_op(op, x, y))),
                ),
                (x @ Sexpr::Atom(Atom::Number(_)), Sexpr::Atom(Atom::Nil)) => Ok(x),
                _ => Err(EvalError::NotANumber),
            }
        },
    }
}

/// Returns the first argument verbatim, unevaluated.
fn quote(sexpr: Sexpr) -> (r: Sexpr)
    ensures
        quote_spec(sexpr@) == Ok::<SexprModel, EvalError>(r@),
{
    match sexpr {
        Sexpr::Atom(_) => sexpr,
        Sexpr::Cons(cons) => cons.car,
    }
}

/// The structural length of a chain, checked against the numeric range.
fn chain_length(sexpr: &Sexpr) -> (r: Result<i64, EvalError>)
    ensures
        match r {
            Ok(n) => n as int == list_length(sexpr@),
            Err(e) => e == EvalError::Overflow && list_length(sexpr@) > i64::MAX,
        },
    decreases sexpr,
{
    match sexpr {
        Sexpr::Atom(Atom::Nil) => Ok(0),
        Sexpr::Atom(_) => Ok(1),
        Sexpr::Cons(cons) => match chain_length(&cons.cdr) {
            Ok(n) => match n.checked_add(1) {
                Some(m) => Ok(m),
                None => Err(EvalError::Overflow),
            },
            Err(e) => Err(e),
        },
    }
}

/// Counts the unevaluated structural chain of the first argument.
fn length(sexpr: Sexpr) -> (r: Result<Sexpr, EvalError>)
    ensures
        res_view(r) == length_spec(sexpr@),
{
    let target = match sexpr {
        Sexpr::Cons(cons) => cons.car,
        atom => atom,
    };
    match chain_length(&target) {
        Ok(n) => Ok(Sexpr::Atom(Atom::Number(n))),
        Err(e) => Err(e),
    }
}

/// Evaluates the first argument and returns the head of the pair it
/// denotes.
fn car(sexpr: Sexpr) -> (r: Result<Sexpr, EvalError>)
    ensures
        res_view(r) == car_spec(sexpr@),
    decreases sexpr, 0nat,
{
    let evaluated = match sexpr {
        Sexpr::Cons(cons) => evaluate(cons.car),
        Sexpr::Atom(atom) => evaluate_atom(atom),
    };
    match evaluated {
        Err(e) => Err(e),
        Ok(Sexpr::Cons(cons)) => Ok(cons.car),
        Ok(_) => Err(EvalError::NotAPair),
    }
}

/// Evaluates the first argument and returns the tail of the pair it
/// denotes.
fn cdr(sexpr: Sexpr) -> (r: Result<Sexpr, EvalError>)
    ensures
        res_view(r) == cdr_spec(sexpr@),
    decreases sexpr, 0nat,
{
    let evaluated = match sexpr {
        Sexpr::Cons(cons) => evaluate(cons.car),
        Sexpr::Atom(atom) => evaluate_atom(atom),
    };
    match evaluated {
        Err(e) => Err(e),
        Ok(Sexpr::Cons(cons)) => Ok(cons.cdr),
        Ok(_) => Err(EvalError::NotAPair),
    }
}

/// Applies the operator `id` to the argument list `args`.
fn apply(id: Identifier, args: Sexpr) -> (r: Result<Sexpr, EvalError>)
    ensures
        res_view(r) == apply_spec(id, args@),
    decreases args, 1nat,
{
    match id {
        Identifier::Add => arithmetic(ArithOp::Add, args),
        Identifier::Subtract => arithmetic(ArithOp::Subtract, args),
        Identifier::Multiply => arithmetic(ArithOp::Multiply, args),
        Identifier::Divide => arithmetic(ArithOp::Divide, args),
        Identifier::Greater => conditional(CmpOp::Greater, args),
        Identifier::GreaterOrEqual => conditional(CmpOp::GreaterOrEqual, args),
        Identifier::Quote => Ok(quote(args)),
        Identifier::Length => length(args),
        Identifier::Car => car(args),
        Identifier::Cdr => cdr(args),
        _ => Err(EvalError::Unimplemented(id)),
    }
}

/// Evaluates an application node: its head must resolve to a recognized
/// operator; a head that is itself an application is evaluated first.
fn evaluate_cons(cons: Cons) -> (r: Result<Sexpr, EvalError>)
    ensures
        res_view(r) == eval_spec(cons@),
    decreases cons, 2nat,
{
    match cons.car {
        Sexpr::Atom(atom) => match atom {
            Atom::Identifier(id) => apply(id, cons.cdr),
            _ => Err(EvalError::NotAProcedure),
        },
        Sexpr::Cons(inner) => {
            let head = match evaluate_cons(*inner) {
                Ok(v) => v,
                Err(e) => {
                    return Err(e);
                },
            };
            match head {
                Sexpr::Atom(Atom::Identifier(id)) => apply(id, cons.cdr),
                _ => Err(EvalError::NotAProcedure),
            }
        },
    }
}

/// Evaluates an expression to its result expression. A pure function of
/// its input: every failure is a distinct [`EvalError`] value.
pub fn evaluate(sexpr: Sexpr) -> (r: Result<Sexpr, EvalError>)
    ensures
        res_view(r) == eval_spec(sexpr@),
    decreases sexpr, 2nat,
{
    match sexpr {
        Sexpr::Atom(atom) => evaluate_atom(atom),
        Sexpr::Cons(cons) => evaluate_cons(*cons),
    }
}

} // verus!

verus! {

use crate::parser::{id_text, print_id};

/// The text an evaluation error reports as.
pub open spec fn eval_error_text(e: EvalError) -> Seq<char> {
    match e {
        EvalError::BareSymbol => "symbol outside operator position"@,
        EvalError::NotAProcedure => "operator is not a procedure"@,
        EvalError::NotANumber => "operand is not a number"@,
        EvalError::NotAPair => "argument is not a pair"@,
        EvalError::Unimplemented(id) => "unimplemented operation: "@ + id_text(id),
        EvalError::Overflow => "arithmetic overflow"@,
        EvalError::DivisionByZero => "division by zero"@,
    }
}

impl EvalError {
    /// A short description of the error, for reporting.
    pub fn message(&self) -> (r: String)
        ensures
            r@ == eval_error_text(*self),
    {
        match self {
            EvalError::BareSymbol => "symbol outside operator position".to_owned(),
            EvalError::NotAProcedure => "operator is not a procedure".to_owned(),
            EvalError::NotANumber => "operand is not a number".to_owned(),
            EvalError::NotAPair => "argument is not a pair".to_owned(),
            EvalError::Unimplemented(id) => {
                let prefix = "unimplemented operation: ".to_owned();
                prefix.concat(print_id(id).as_str())
            },
            EvalError::Overflow => "arithmetic overflow".to_owned(),
            EvalError::DivisionByZero => "division by zero".to_owned(),
        }
    }
}

} // verus!
