//! Parser: recursive descent over the token sequence, building the
//! S-expression tree, and the dotted-pair printer that renders a tree back
//! to text.
//!
//! A list body is parsed as a right-nested chain of `Cons` nodes terminated
//! by `Nil`, so `(a b c)` becomes `(a . (b . (c . NIL)))`; the dotted-pair
//! form `(a . b)` is accepted as well. The printer always renders `Cons`
//! nodes in dotted-pair notation, never list-sugared.

use vstd::prelude::*;

use crate::scanner::{Atom, AtomModel, Identifier, Token, TokenModel};
use crate::scanner::tokens_view;

verus! {

/// An S-expression: an atom leaf or a pair of sub-expressions.
#[derive(Debug)]
pub enum Sexpr {
    Atom(Atom),
    Cons(Box<Cons>),
}

/// A two-child tree node, the sole structural primitive for building lists
/// and pairs. It exclusively owns both children.
#[derive(Debug)]
pub struct Cons {
    pub car: Sexpr,
    pub cdr: Sexpr,
}

/// Spec-level value of an S-expression tree.
pub enum SexprModel {
    Atom(AtomModel),
    Cons(Box<SexprModel>, Box<SexprModel>),
}

/// The spec-level value of an S-expression.
pub open spec fn sexpr_model(s: &Sexpr) -> SexprModel
    decreases s,
{
    match s {
        Sexpr::Atom(a) => SexprModel::Atom(a@),
        Sexpr::Cons(c) => SexprModel::Cons(
            Box::new(sexpr_model(&c.car)),
            Box::new(sexpr_model(&c.cdr)),
        ),
    }
}

impl View for Sexpr {
    type V = SexprModel;

    open spec fn view(&self) -> SexprModel {
        sexpr_model(self)
    }
}

impl View for Cons {
    type V = SexprModel;

    open spec fn view(&self) -> SexprModel {
        SexprModel::Cons(Box::new(self.car@), Box::new(self.cdr@))
    }
}

/// Why a token sequence failed to parse.
#[derive(Clone, Copy, PartialEq, Eq, Structural, Debug)]
pub enum ParseError {
    /// A token that cannot start or continue an expression stood where one
    /// was required: a stray `)` or `.` in head position, or a dotted pair
    /// not closed by `)`.
    UnexpectedToken,
    /// The tokens ran out before the expression was complete.
    UnexpectedEnd,
}

/// Parses one expression from the front of `ts`; on success, yields the
/// expression and the tokens that follow it.
pub open spec fn parse_one(ts: Seq<TokenModel>) -> Result<
    (SexprModel, Seq<TokenModel>),
    ParseError,
>
    decreases ts.len(), 0nat,
{
    if ts.len() == 0 {
        Err(ParseError::UnexpectedEnd)
    } else {
        match ts[0] {
            TokenModel::Atom(a) => Ok((SexprModel::Atom(a), ts.drop_first())),
            TokenModel::LeftParen => parse_body(ts.drop_first()),
            _ => Err(ParseError::UnexpectedToken),
        }
    }
}

/// Parses a list body: one element, then either the closing `)`, a dotted
/// tail `. cdr )`, or recursively the rest of the body.
pub open spec fn parse_body(ts: Seq<TokenModel>) -> Result<
    (SexprModel, Seq<TokenModel>),
    ParseError,
>
    decreases ts.len(), 1nat,
{
    match parse_one(ts) {
        Err(e) => Err(e),
        Ok((car, rest)) => if rest.len() >= ts.len() {
            // A successful parse always consumes at least one token, so this
            // branch is never reached; it makes the recursion measure plain.
            Err(ParseError::UnexpectedEnd)
        } else if rest.len() == 0 {
            Err(ParseError::UnexpectedEnd)
        } else if rest[0] == TokenModel::RightParen {
            Ok(
                (
                    SexprModel::Cons(Box::new(car), Box::new(SexprModel::Atom(AtomModel::Nil))),
                    rest.drop_first(),
                ),
            )
        } else if rest[0] == TokenModel::Dot {
            match parse_one(rest.drop_first()) {
                Err(e) => Err(e),
                Ok((cdr, rest2)) => if rest2.len() == 0 {
                    Err(ParseError::UnexpectedEnd)
                } else if rest2[0] == TokenModel::RightParen {
                    Ok((SexprModel::Cons(Box::new(car), Box::new(cdr)), rest2.drop_first()))
                } else {
                    Err(ParseError::UnexpectedToken)
                },
            }
        } else {
            match parse_body(rest) {
                Err(e) => Err(e),
                Ok((cdr, rest2)) => Ok((SexprModel::Cons(Box::new(car), Box::new(cdr)), rest2)),
            }
        },
    }
}

/// Parses one expression from `tokens`, advancing `current` past it.
pub fn parse(tokens: &Vec<Token>, current: &mut usize) -> (r: Result<Sexpr, ParseError>)
    requires
        *old(current) <= tokens@.len(),
    ensures
        *old(current) <= *final(current) <= tokens@.len(),
        match r {
            Ok(s) => {
                &&& *old(current) < *final(current)
                &&& parse_one(tokens_view(tokens@).skip(*old(current) as int)) == Ok::<
                    _,
                    ParseError,
                >((s@, tokens_view(tokens@).skip(*final(current) as int)))
            },
            Err(e) => parse_one(tokens_view(tokens@).skip(*old(current) as int)) == Err::<
                (SexprModel, Seq<TokenModel>),
                _,
            >(e),
        },
    decreases tokens@.len() - *old(current), 0nat,
{
    let ghost ts = tokens_view(tokens@).skip(*current as int);
    if *current >= tokens.len() {
        return Err(ParseError::UnexpectedEnd);
    }
    proof {
        assert(ts[0] == tokens_view(tokens@)[*current as int]);
        assert(ts.drop_first() =~= tokens_view(tokens@).skip(*current + 1));
    }
    match &tokens[*current] {
        Token::LeftParen => {
            *current += 1;
            match parse_cons(tokens, current) {
                Ok(cons) => Ok(Sexpr::Cons(Box::new(cons))),
                Err(e) => Err(e),
            }
        },
        Token::Atom(atom) => {
            *current += 1;
            Ok(Sexpr::Atom(atom.clone()))
        },
        _ => Err(ParseError::UnexpectedToken),
    }
}

/// Parses a list body from `tokens`, advancing `current` past its closing
/// parenthesis.
fn parse_cons(tokens: &Vec<Token>, current: &mut usize) -> (r: Result<Cons, ParseError>)
    requires
        *old(current) <= tokens@.len(),
    ensures
        *old(current) <= *final(current) <= tokens@.len(),
        match r {
            Ok(c) => {
                &&& *old(current) < *final(current)
                &&& parse_body(tokens_view(tokens@).skip(*old(current) as int)) == Ok::<
                    _,
                    ParseError,
                >((c@, tokens_view(tokens@).skip(*final(current) as int)))
            },
            Err(e) => parse_body(tokens_view(tokens@).skip(*old(current) as int)) == Err::<
                (SexprModel, Seq<TokenModel>),
                _,
            >(e),
        },
    decreases tokens@.len() - *old(current), 1nat,
{
    let ghost ts = tokens_view(tokens@).skip(*current as int);
    let car = match parse(tokens, current) {
        Ok(s) => s,
        Err(e) => {
            return Err(e);
        },
    };
    let ghost rest = tokens_view(tokens@).skip(*current as int);
    if *current >= tokens.len() {
        return Err(ParseError::UnexpectedEnd);
    }
    proof {
        assert(rest[0] == tokens_view(tokens@)[*current as int]);
        assert(rest.drop_first() =~= tokens_view(tokens@).skip(*current + 1));
    }
    match &tokens[*current] {
        Token::RightParen => {
            *current += 1;
            Ok(Cons { car, cdr: Sexpr::Atom(Atom::Nil) })
        },
        Token::Dot => {
            *current += 1;
            let cdr = match parse(tokens, current) {
                Ok(s) => s,
                Err(e) => {
                    return Err(e);
                },
            };
            let ghost rest2 = tokens_view(tokens@).skip(*current as int);
            if *current >= tokens.len() {
                return Err(ParseError::UnexpectedEnd);
            }
            proof {
                assert(rest2[0] == tokens_view(tokens@)[*current as int]);
                assert(rest2.drop_first() =~= tokens_view(tokens@).skip(*current + 1));
            }
            match &tokens[*current] {
                Token::RightParen => {
                    *current += 1;
                    Ok(Cons { car, cdr })
                },
                _ => Err(ParseError::UnexpectedToken),
            }
        },
        _ => {
            match parse_cons(tokens, current) {
                Ok(cons) => Ok(Cons { car, cdr: Sexpr::Cons(Box::new(cons)) }),
                Err(e) => Err(e),
            }
        },
    }
}

} // verus!

verus! {

/// The decimal digit character for `d`.
pub open spec fn digit_char(d: int) -> char {
    if d == 0 {
        '0'
    } else if d == 1 {
        '1'
    } else if d == 2 {
        '2'
    } else if d == 3 {
        '3'
    } else if d == 4 {
        '4'
    } else if d == 5 {
        '5'
    } else if d == 6 {
        '6'
    } else if d == 7 {
        '7'
    } else if d == 8 {
        '8'
    } else {
        '9'
    }
}

/// The decimal rendering of the nonnegative integer `n`.
pub open spec fn nat_text(n: int) -> Seq<char>
    decreases n,
{
    if n < 10 {
        seq![digit_char(n)]
    } else {
        nat_text(n / 10) + seq![digit_char(n % 10)]
    }
}

/// The decimal rendering of the integer `n`, with a leading `-` when it is
/// negative.
pub open spec fn int_text(n: int) -> Seq<char> {
    if n < 0 {
        seq!['-'] + nat_text(-n)
    } else {
        nat_text(n)
    }
}

/// The text a reserved identifier prints as.
pub open spec fn id_text(id: Identifier) -> Seq<char> {
    match id {
        Identifier::Add => "+"@,
        Identifier::Subtract => "-"@,
        Identifier::Multiply => "*"@,
        Identifier::Divide => "/"@,
        Identifier::Greater => ">"@,
        Identifier::GreaterOrEqual => ">="@,
        Identifier::Listp => "listp"@,
        Identifier::Atom => "atom"@,
        Identifier::Null => "null"@,
        Identifier::Eq => "eq"@,
        Identifier::Equal => "equal"@,
        Identifier::Cons => "cons"@,
        Identifier::Car => "car"@,
        Identifier::Cdr => "cdr"@,
        Identifier::Append => "append"@,
        Identifier::Defun => "defun"@,
        Identifier::Eval => "eval"@,
        Identifier::Quote => "quote"@,
        Identifier::Length => "length"@,
    }
}

/// The text an atom prints as: its literal value, booleans as `#t`/`#f`,
/// and `Nil` as `NIL`.
pub open spec fn atom_text(a: AtomModel) -> Seq<char> {
    match a {
        AtomModel::Str(t) => t,
        AtomModel::Identifier(id) => id_text(id),
        AtomModel::Number(n) => int_text(n),
        AtomModel::Boolean(b) => if b {
            "#t"@
        } else {
            "#f"@
        },
        AtomModel::Nil => "NIL"@,
    }
}

/// The text an S-expression prints as: an atom as its literal value, a
/// pair always in dotted notation `(car . cdr)`.
pub open spec fn sexpr_text(m: SexprModel) -> Seq<char>
    decreases m,
{
    match m {
        SexprModel::Atom(a) => atom_text(a),
        SexprModel::Cons(car, cdr) => "("@ + sexpr_text(*car) + " . "@ + sexpr_text(*cdr)
            + ")"@,
    }
}

/// The single-character string for the decimal digit `d`.
fn digit_string(d: u64) -> (r: String)
    requires
        d < 10,
    ensures
        r@ == seq![digit_char(d as int)],
{
    let r = if d == 0 {
        "0"
    } else if d == 1 {
        "1"
    } else if d == 2 {
        "2"
    } else if d == 3 {
        "3"
    } else if d == 4 {
        "4"
    } else if d == 5 {
        "5"
    } else if d == 6 {
        "6"
    } else if d == 7 {
        "7"
    } else if d == 8 {
        "8"
    } else {
        "9"
    };
    proof {
        reveal_strlit("0");
        reveal_strlit("1");
        reveal_strlit("2");
        reveal_strlit("3");
        reveal_strlit("4");
        reveal_strlit("5");
        reveal_strlit("6");
        reveal_strlit("7");
        reveal_strlit("8");
        reveal_strlit("9");
        assert(r@ =~= seq![digit_char(d as int)]);
    }
    r.to_owned()
}

/// Renders the nonnegative number `n` in decimal.
fn nat_string(n: u64) -> (r: String)
    ensures
        r@ == nat_text(n as int),
    decreases n,
{
    if n < 10 {
        digit_string(n)
    } else {
        let s = nat_string(n / 10);
        let d = digit_string(n % 10);
        s.concat(d.as_str())
    }
}

/// Renders the number `n` in decimal, negative values with a leading `-`.
fn int_string(n: i64) -> (r: String)
    ensures
        r@ == int_text(n as int),
{
    if n >= 0 {
        nat_string(n as u64)
    } else {
        // The magnitude of the least number does not fit its own type.
        let m: u64 = if n == i64::MIN {
            9223372036854775808u64
        } else {
            (-n) as u64
        };
        let s = "-".to_owned();
        let t = nat_string(m);
        let r = s.concat(t.as_str());
        proof {
            reveal_strlit("-");
            assert(r@ =~= seq!['-'] + nat_text(m as int));
        }
        r
    }
}

/// Renders an identifier as the text it was scanned from.
pub fn print_id(id: &Identifier) -> (r: String)
    ensures
        r@ == id_text(*id),
{
    match id {
        Identifier::Add => "+".to_owned(),
        Identifier::Subtract => "-".to_owned(),
        Identifier::Multiply => "*".to_owned(),
        Identifier::Divide => "/".to_owned(),
        Identifier::Greater => ">".to_owned(),
        Identifier::GreaterOrEqual => ">=".to_owned(),
        Identifier::Listp => "listp".to_owned(),
        Identifier::Atom => "atom".to_owned(),
        Identifier::Null => "null".to_owned(),
        Identifier::Eq => "eq".to_owned(),
        Identifier::Equal => "equal".to_owned(),
        Identifier::Cons => "cons".to_owned(),
        Identifier::Car => "car".to_owned(),
        Identifier::Cdr => "cdr".to_owned(),
        Identifier::Append => "append".to_owned(),
        Identifier::Defun => "defun".to_owned(),
        Identifier::Eval => "eval".to_owned(),
        Identifier::Quote => "quote".to_owned(),
        Identifier::Length => "length".to_owned(),
    }
}

/// Renders an atom as text.
fn print_atom(atom: &Atom) -> (r: String)
    ensures
        r@ == atom_text(atom@),
{
    match atom {
        Atom::Identifier(id) => print_id(id),
        Atom::Str(s) => s.clone(),
        Atom::Number(num) => int_string(*num),
        Atom::Boolean(b) => match b {
            true => "#t".to_owned(),
            false => "#f".to_owned(),
        },
        Atom::Nil => "NIL".to_owned(),
    }
}

/// Renders a pair in dotted notation.
fn print_cons(cons: &Cons) -> (r: String)
    ensures
        r@ == sexpr_text(cons@),
    decreases cons,
{
    let mut r = "(".to_owned();
    let car = print_sexpr(&cons.car);
    r.append(car.as_str());
    r.append(" . ");
    let cdr = print_sexpr(&cons.cdr);
    r.append(cdr.as_str());
    r.append(")");
    proof {
        assert(r@ =~= "("@ + sexpr_text(cons.car@) + " . "@ + sexpr_text(cons.cdr@) + ")"@);
    }
    r
}

/// Renders an S-expression as text, pairs always in dotted notation.
pub fn print_sexpr(sexpr: &Sexpr) -> (r: String)
    ensures
        r@ == sexpr_text(sexpr@),
    decreases sexpr,
{
    match sexpr {
        Sexpr::Atom(atom) => print_atom(atom),
        Sexpr::Cons(cons) => print_cons(cons),
    }
}

} // verus!

verus! {

/// The text a parse error reports as.
pub open spec fn parse_error_text(e: ParseError) -> Seq<char> {
    match e {
        ParseError::UnexpectedToken => "unexpected token"@,
        ParseError::UnexpectedEnd => "unexpected end of input"@,
    }
}

impl ParseError {
    /// A short description of the error, for reporting.
    pub fn message(&self) -> (r: String)
        ensures
            r@ == parse_error_text(*self),
    {
        match self {
            ParseError::UnexpectedToken => "unexpected token".to_owned(),
            ParseError::UnexpectedEnd => "unexpected end of input".to_owned(),
        }
    }
}

} // verus!
