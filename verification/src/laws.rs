//! The laws the library states of itself, proved once and for all inputs.
//!
//! Each proof function here records a property that relates several parts
//! of the pipeline — tokenizer, parser, evaluator — over their spec-level
//! models.

use vstd::prelude::*;

use crate::scanner::{AtomModel, Identifier, TokenModel};
use crate::scanner::{atom_run_len, classify_atom, is_atom_char_spec, lemma_atom_run_len_exact, scan_spec};
use crate::parser::{parse_one, ParseError, SexprModel};
use crate::interpreter::{
    apply_spec, cmp_result, eval_atom_spec, eval_spec, fold_arith, fold_cmp, length_spec,
    list_length, ArithOp, CmpOp, EvalError,
};

verus! {

/// The expression a single operator application is built from: the
/// operator identifier at the head, the arguments as the tail.
pub open spec fn application(id: Identifier, args: SexprModel) -> SexprModel {
    SexprModel::Cons(Box::new(SexprModel::Atom(AtomModel::Identifier(id))), Box::new(args))
}

/// A one-element argument list.
pub open spec fn list1(x: SexprModel) -> SexprModel {
    SexprModel::Cons(Box::new(x), Box::new(SexprModel::Atom(AtomModel::Nil)))
}

/// The first argument of an argument list: the head of the chain, or the
/// bare atom itself.
pub open spec fn first_arg(args: SexprModel) -> SexprModel {
    match args {
        SexprModel::Cons(h, _) => *h,
        _ => args,
    }
}

/// Round trip: any input text that spells one syntactically valid,
/// unquoted atom — a number, a boolean, or bare text, not a reserved
/// identifier — scans to that single atom token, parses to that atom
/// leaf, and evaluates to that same atom unchanged.
pub proof fn lemma_atom_round_trip(t: Seq<char>)
    requires
        t.len() > 0,
        forall|i: int| 0 <= i < t.len() ==> is_atom_char_spec(#[trigger] t[i]),
        !(classify_atom(t) is Identifier),
    ensures
        scan_spec(t) == seq![TokenModel::Atom(classify_atom(t))],
        parse_one(scan_spec(t)) == Ok::<(SexprModel, Seq<TokenModel>), ParseError>(
            (SexprModel::Atom(classify_atom(t)), Seq::<TokenModel>::empty()),
        ),
        eval_spec(SexprModel::Atom(classify_atom(t))) == Ok::<SexprModel, EvalError>(
            SexprModel::Atom(classify_atom(t)),
        ),
{
    lemma_atom_run_len_exact(t, t.len() as int);
    assert(t.take(t.len() as int) =~= t);
    assert(t.skip(t.len() as int) =~= Seq::<char>::empty());
    assert(atom_run_len(t) == t.len());
    assert(scan_spec(Seq::<char>::empty()) =~= Seq::<TokenModel>::empty());
    assert(scan_spec(t) =~= seq![TokenModel::Atom(classify_atom(t))]);
    assert(scan_spec(t).drop_first() =~= Seq::<TokenModel>::empty());
}

/// The single-operand arithmetic fold hits the `Nil` identity case: for
/// every number `n` and arithmetic operator, `(op n)` evaluates to `n`.
pub proof fn lemma_arith_single_operand(id: Identifier, n: int)
    requires
        id is Add || id is Subtract || id is Multiply || id is Divide,
    ensures
        eval_spec(application(id, list1(SexprModel::Atom(AtomModel::Number(n))))) == Ok::<
            SexprModel,
            EvalError,
        >(SexprModel::Atom(AtomModel::Number(n))),
{
    reveal_with_fuel(fold_arith, 3);
    let num = SexprModel::Atom(AtomModel::Number(n));
    let op = if id is Add {
        ArithOp::Add
    } else if id is Subtract {
        ArithOp::Subtract
    } else if id is Multiply {
        ArithOp::Multiply
    } else {
        ArithOp::Divide
    };
    assert(fold_arith(op, SexprModel::Atom(AtomModel::Nil)) == Ok::<SexprModel, EvalError>(
        SexprModel::Atom(AtomModel::Nil),
    ));
    assert(fold_arith(op, list1(num)) == Ok::<SexprModel, EvalError>(num));
    assert(apply_spec(id, list1(num)) == fold_arith(op, list1(num)));
    assert(eval_spec(application(id, list1(num))) == apply_spec(id, list1(num)));
}

/// The single-operand comparison fold hits the same identity case.
pub proof fn lemma_cmp_single_operand(id: Identifier, n: int)
    requires
        id is Greater || id is GreaterOrEqual,
    ensures
        eval_spec(application(id, list1(SexprModel::Atom(AtomModel::Number(n))))) == Ok::<
            SexprModel,
            EvalError,
        >(SexprModel::Atom(AtomModel::Number(n))),
{
    reveal_with_fuel(fold_cmp, 3);
    let num = SexprModel::Atom(AtomModel::Number(n));
    let op = if id is Greater {
        CmpOp::Greater
    } else {
        CmpOp::GreaterOrEqual
    };
    assert(fold_cmp(op, SexprModel::Atom(AtomModel::Nil)) == Ok::<SexprModel, EvalError>(
        SexprModel::Atom(AtomModel::Nil),
    ));
    assert(fold_cmp(op, list1(num)) == Ok::<SexprModel, EvalError>(num));
    assert(apply_spec(id, list1(num)) == fold_cmp(op, list1(num)));
    assert(eval_spec(application(id, list1(num))) == apply_spec(id, list1(num)));
}

/// Comparison folds right to left, so three numeric operands are not an
/// all-pairs check: the inner pairing yields a boolean, the outer pairing
/// then meets a non-number and the whole application fails.
pub proof fn lemma_cmp_three_operands(id: Identifier, a: int, b: int, c: int)
    requires
        id is Greater || id is GreaterOrEqual,
    ensures
        eval_spec(
            application(
                id,
                SexprModel::Cons(
                    Box::new(SexprModel::Atom(AtomModel::Number(a))),
                    Box::new(
                        SexprModel::Cons(
                            Box::new(SexprModel::Atom(AtomModel::Number(b))),
                            Box::new(list1(SexprModel::Atom(AtomModel::Number(c)))),
                        ),
                    ),
                ),
            ),
        ) == Err::<SexprModel, EvalError>(EvalError::NotANumber),
{
    reveal_with_fuel(fold_cmp, 5);
    let op = if id is Greater {
        CmpOp::Greater
    } else {
        CmpOp::GreaterOrEqual
    };
    let na = SexprModel::Atom(AtomModel::Number(a));
    let nb = SexprModel::Atom(AtomModel::Number(b));
    let nc = SexprModel::Atom(AtomModel::Number(c));
    let args = SexprModel::Cons(
        Box::new(na),
        Box::new(SexprModel::Cons(Box::new(nb), Box::new(list1(nc)))),
    );
    assert(fold_cmp(op, SexprModel::Atom(AtomModel::Nil)) == Ok::<SexprModel, EvalError>(
        SexprModel::Atom(AtomModel::Nil),
    ));
    assert(fold_cmp(op, list1(nc)) == Ok::<SexprModel, EvalError>(nc));
    assert(fold_cmp(op, SexprModel::Cons(Box::new(nb), Box::new(list1(nc)))) == Ok::<
        SexprModel,
        EvalError,
    >(SexprModel::Atom(AtomModel::Boolean(cmp_result(op, b, c)))));
    assert(fold_cmp(op, args) == Err::<SexprModel, EvalError>(EvalError::NotANumber));
    assert(apply_spec(id, args) == fold_cmp(op, args));
    assert(eval_spec(application(id, args)) == apply_spec(id, args));
}

/// `quote` never evaluates its argument: whatever expression stands as
/// the first argument comes back verbatim.
pub proof fn lemma_quote_unevaluated(x: SexprModel, rest: SexprModel)
    ensures
        eval_spec(application(Identifier::Quote, SexprModel::Cons(Box::new(x), Box::new(rest))))
            == Ok::<SexprModel, EvalError>(x),
{
    let args = SexprModel::Cons(Box::new(x), Box::new(rest));
    assert(*Box::new(x) == x);
    assert(eval_spec(application(Identifier::Quote, args)) == apply_spec(
        Identifier::Quote,
        args,
    ));
    assert(apply_spec(Identifier::Quote, args) == Ok::<SexprModel, EvalError>(x));
}

/// `length` counts any atom other than `Nil` as one, whatever it is —
/// the argument is walked structurally, never evaluated.
pub proof fn lemma_length_of_atom(a: AtomModel)
    requires
        !(a is Nil),
    ensures
        eval_spec(application(Identifier::Length, list1(SexprModel::Atom(a)))) == Ok::<
            SexprModel,
            EvalError,
        >(SexprModel::Atom(AtomModel::Number(1))),
{
    let args = list1(SexprModel::Atom(a));
    assert(first_arg(args) == SexprModel::Atom(a));
    assert(list_length(SexprModel::Atom(a)) == 1);
    assert(length_spec(args) == Ok::<SexprModel, EvalError>(
        SexprModel::Atom(AtomModel::Number(1)),
    ));
    assert(apply_spec(Identifier::Length, args) == length_spec(args));
    assert(eval_spec(application(Identifier::Length, args)) == apply_spec(
        Identifier::Length,
        args,
    ));
}

/// `car` and `cdr` demand a pair: when the first argument evaluates to an
/// atom, both fail with the distinct `NotAPair` error — never a panic.
pub proof fn lemma_car_cdr_of_atom(args: SexprModel, a: AtomModel)
    requires
        eval_spec(first_arg(args)) == Ok::<SexprModel, EvalError>(SexprModel::Atom(a)),
    ensures
        apply_spec(Identifier::Car, args) == Err::<SexprModel, EvalError>(EvalError::NotAPair),
        apply_spec(Identifier::Cdr, args) == Err::<SexprModel, EvalError>(EvalError::NotAPair),
        eval_spec(application(Identifier::Car, args)) == Err::<SexprModel, EvalError>(
            EvalError::NotAPair,
        ),
        eval_spec(application(Identifier::Cdr, args)) == Err::<SexprModel, EvalError>(
            EvalError::NotAPair,
        ),
{
    match args {
        SexprModel::Cons(h, _) => {
        },
        SexprModel::Atom(x) => {
            assert(eval_spec(SexprModel::Atom(x)) == eval_atom_spec(x));
        },
    }
}

/// The reserved identifiers the dispatcher recognizes but gives no
/// evaluation semantics.
pub open spec fn is_reserved(id: Identifier) -> bool {
    match id {
        Identifier::Listp => true,
        Identifier::Atom => true,
        Identifier::Null => true,
        Identifier::Eq => true,
        Identifier::Equal => true,
        Identifier::Cons => true,
        Identifier::Append => true,
        Identifier::Defun => true,
        Identifier::Eval => true,
        _ => false,
    }
}

/// Invoking any reserved identifier fails with the `Unimplemented` error
/// carrying that identifier, whatever the arguments — an error kind
/// distinct from `NotAProcedure`, which an unrecognized head produces.
pub proof fn lemma_reserved_unimplemented(id: Identifier, args: SexprModel)
    requires
        is_reserved(id),
    ensures
        eval_spec(application(id, args)) == Err::<SexprModel, EvalError>(
            EvalError::Unimplemented(id),
        ),
        EvalError::Unimplemented(id) != EvalError::NotAProcedure,
{
    assert(apply_spec(id, args) == Err::<SexprModel, EvalError>(EvalError::Unimplemented(id)));
    assert(eval_spec(application(id, args)) == apply_spec(id, args));
}

} // verus!

