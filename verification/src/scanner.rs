//! Tokenizer: turns a line of text into a sequence of lexical tokens.
//!
//! The scan is a single forward pass. `(`, `)` and `.` are one-character
//! tokens; a maximal run of atom characters (ASCII alphanumerics and
//! `+ - * / = >`) is captured and classified as a number, a boolean, a
//! reserved identifier, or an opaque string atom, in that order; every
//! other character is a separator and produces no token.

use vstd::prelude::*;

verus! {

/// A lexical token, in input order.
#[derive(Debug)]
pub enum Token {
    LeftParen,
    RightParen,
    Dot,
    Atom(Atom),
}

/// The payload of an atom token and of a leaf expression.
#[derive(Debug)]
pub enum Atom {
    /// An atom that is neither numeric, boolean, nor a reserved identifier.
    Str(String),
    /// A reserved operator or primitive name.
    Identifier(Identifier),
    /// A numeric atom.
    Number(i64),
    /// A boolean atom, spelled `true` or `false` in the input.
    Boolean(bool),
    /// The canonical empty-list marker.
    Nil,
}

/// The reserved operator and primitive names the dispatcher recognizes.
#[derive(Clone, Copy, PartialEq, Eq, Structural, Debug)]
pub enum Identifier {
    // Arithmetic
    Add,
    Subtract,
    Multiply,
    Divide,
    Greater,
    GreaterOrEqual,
    // Predicates
    Listp,
    Atom,
    Null,
    Eq,
    Equal,
    // Lists
    Cons,
    Car,
    Cdr,
    Append,
    // Functions
    Defun,
    Eval,
    Quote,
    Length,
}

/// Spec-level value of an [`Atom`]: text as a character sequence, numbers
/// as unbounded integers.
pub enum AtomModel {
    Str(Seq<char>),
    Identifier(Identifier),
    Number(int),
    Boolean(bool),
    Nil,
}

/// Spec-level value of a [`Token`].
pub enum TokenModel {
    LeftParen,
    RightParen,
    Dot,
    Atom(AtomModel),
}

impl View for Atom {
    type V = AtomModel;

    open spec fn view(&self) -> AtomModel {
        match self {
            Atom::Str(s) => AtomModel::Str(s@),
            Atom::Identifier(id) => AtomModel::Identifier(*id),
            Atom::Number(n) => AtomModel::Number(*n as int),
            Atom::Boolean(b) => AtomModel::Boolean(*b),
            Atom::Nil => AtomModel::Nil,
        }
    }
}

impl View for Token {
    type V = TokenModel;

    open spec fn view(&self) -> TokenModel {
        match self {
            Token::LeftParen => TokenModel::LeftParen,
            Token::RightParen => TokenModel::RightParen,
            Token::Dot => TokenModel::Dot,
            Token::Atom(a) => TokenModel::Atom(a@),
        }
    }
}

impl Clone for Atom {
    fn clone(&self) -> (res: Atom)
        ensures
            res == *self,
    {
        match self {
            Atom::Str(s) => Atom::Str(s.clone()),
            Atom::Identifier(id) => Atom::Identifier(*id),
            Atom::Number(n) => Atom::Number(*n),
            Atom::Boolean(b) => Atom::Boolean(*b),
            Atom::Nil => Atom::Nil,
        }
    }
}

/// The spec-level view of a token sequence.
pub open spec fn tokens_view(ts: Seq<Token>) -> Seq<TokenModel> {
    ts.map_values(|t: Token| t@)
}

/// Which characters may appear in an atom: ASCII alphanumerics and the
/// operator punctuation `+ - * / = >`; everything else separates tokens.
pub open spec fn is_atom_char_spec(c: char) -> bool {
    ||| c == '+'
    ||| c == '-'
    ||| c == '*'
    ||| c == '/'
    ||| c == '='
    ||| c == '>'
    ||| 'a' <= c <= 'z'
    ||| 'A' <= c <= 'Z'
    ||| '0' <= c <= '9'
}

/// Whether `c` may appear inside an atom.
pub fn is_atom_char(c: &char) -> (r: bool)
    ensures
        r == is_atom_char_spec(*c),
{
    match *c {
        '+' | '-' | '*' | '/' | '=' | '>' => true,
        c => ('a' <= c && c <= 'z') || ('A' <= c && c <= 'Z') || ('0' <= c && c <= '9'),
    }
}

} // verus!

verus! {

/// Which reserved identifier, if any, the atom text `t` spells.
pub open spec fn ident_of(t: Seq<char>) -> Option<Identifier> {
    if t == "+"@ {
        Some(Identifier::Add)
    } else if t == "-"@ {
        Some(Identifier::Subtract)
    } else if t == "*"@ {
        Some(Identifier::Multiply)
    } else if t == "/"@ {
        Some(Identifier::Divide)
    } else if t == ">"@ {
        Some(Identifier::Greater)
    } else if t == ">="@ {
        Some(Identifier::GreaterOrEqual)
    } else if t == "listp"@ {
        Some(Identifier::Listp)
    } else if t == "atom"@ {
        Some(Identifier::Atom)
    } else if t == "null"@ {
        Some(Identifier::Null)
    } else if t == "eq"@ {
        Some(Identifier::Eq)
    } else if t == "equal"@ {
        Some(Identifier::Equal)
    } else if t == "cons"@ {
        Some(Identifier::Cons)
    } else if t == "car"@ {
        Some(Identifier::Car)
    } else if t == "cdr"@ {
        Some(Identifier::Cdr)
    } else if t == "append"@ {
        Some(Identifier::Append)
    } else if t == "defun"@ {
        Some(Identifier::Defun)
    } else if t == "eval"@ {
        Some(Identifier::Eval)
    } else if t == "quote"@ {
        Some(Identifier::Quote)
    } else if t == "length"@ {
        Some(Identifier::Length)
    } else {
        None
    }
}

/// Looks the atom text up in the table of reserved names.
pub fn match_identifier(id: &String) -> (r: Option<Identifier>)
    ensures
        r == ident_of(id@),
{
    if *id == "+".to_owned() {
        Some(Identifier::Add)
    } else if *id == "-".to_owned() {
        Some(Identifier::Subtract)
    } else if *id == "*".to_owned() {
        Some(Identifier::Multiply)
    } else if *id == "/".to_owned() {
        Some(Identifier::Divide)
    } else if *id == ">".to_owned() {
        Some(Identifier::Greater)
    } else if *id == ">=".to_owned() {
        Some(Identifier::GreaterOrEqual)
    } else if *id == "listp".to_owned() {
        Some(Identifier::Listp)
    } else if *id == "atom".to_owned() {
        Some(Identifier::Atom)
    } else if *id == "null".to_owned() {
        Some(Identifier::Null)
    } else if *id == "eq".to_owned() {
        Some(Identifier::Eq)
    } else if *id == "equal".to_owned() {
        Some(Identifier::Equal)
    } else if *id == "cons".to_owned() {
        Some(Identifier::Cons)
    } else if *id == "car".to_owned() {
        Some(Identifier::Car)
    } else if *id == "cdr".to_owned() {
        Some(Identifier::Cdr)
    } else if *id == "append".to_owned() {
        Some(Identifier::Append)
    } else if *id == "defun".to_owned() {
        Some(Identifier::Defun)
    } else if *id == "eval".to_owned() {
        Some(Identifier::Eval)
    } else if *id == "quote".to_owned() {
        Some(Identifier::Quote)
    } else if *id == "length".to_owned() {
        Some(Identifier::Length)
    } else {
        None
    }
}

} // verus!

verus! {

/// Whether `c` is a decimal digit.
pub open spec fn is_digit(c: char) -> bool {
    '0' <= c <= '9'
}

/// The value of the decimal digit `c`.
pub open spec fn digit_val(c: char) -> int {
    c as int - '0' as int
}

/// Whether every character of `t` is a decimal digit.
pub open spec fn all_digits(t: Seq<char>) -> bool {
    forall|i: int| 0 <= i < t.len() ==> is_digit(#[trigger] t[i])
}

/// The value of the digit string `t`, most significant digit first.
pub open spec fn digits_val(t: Seq<char>) -> int
    decreases t.len(),
{
    if t.len() == 0 {
        0
    } else {
        digits_val(t.drop_last()) * 10 + digit_val(t.last())
    }
}

/// The integer a numeric literal `t` denotes: an optional sign followed by
/// at least one decimal digit. `None` when `t` is not of that shape.
pub open spec fn int_lit_val(t: Seq<char>) -> Option<int> {
    if t.len() >= 1 && (t[0] == '+' || t[0] == '-') {
        if t.len() >= 2 && all_digits(t.drop_first()) {
            if t[0] == '-' {
                Some(-digits_val(t.drop_first()))
            } else {
                Some(digits_val(t.drop_first()))
            }
        } else {
            None
        }
    } else if t.len() >= 1 && all_digits(t) {
        Some(digits_val(t))
    } else {
        None
    }
}

/// The numeric atom `t` scans to, if any: a numeric literal whose value
/// fits the numeric range.
pub open spec fn number_of(t: Seq<char>) -> Option<i64> {
    match int_lit_val(t) {
        Some(v) => if i64::MIN <= v <= i64::MAX {
            Some(v as i64)
        } else {
            None
        },
        None => None,
    }
}

proof fn lemma_digits_val_nonneg(t: Seq<char>)
    requires
        all_digits(t),
    ensures
        digits_val(t) >= 0,
    decreases t.len(),
{
    if t.len() > 0 {
        lemma_digits_val_nonneg(t.drop_last());
    }
}

/// Appending digits to a digit string never decreases its value.
proof fn lemma_digits_val_prefix(t: Seq<char>, i: int)
    requires
        all_digits(t),
        0 <= i <= t.len(),
    ensures
        digits_val(t.take(i)) <= digits_val(t),
    decreases t.len() - i,
{
    lemma_digits_val_nonneg(t.take(i));
    if i < t.len() {
        assert(t.take(i + 1).drop_last() =~= t.take(i));
        assert(digits_val(t.take(i + 1)) == digits_val(t.take(i)) * 10 + digit_val(t[i]));
        lemma_digits_val_prefix(t, i + 1);
    } else {
        assert(t.take(i) =~= t);
    }
}

/// Reads the digit run `chars[lo..hi]` as a nonnegative integer, or reports
/// that some character is not a digit or that the value exceeds `bound`.
fn scan_digits(chars: &Vec<char>, lo: usize, hi: usize, bound: u64) -> (r: Option<u64>)
    requires
        lo <= hi <= chars@.len(),
    ensures
        match r {
            Some(m) => {
                &&& all_digits(chars@.subrange(lo as int, hi as int))
                &&& m as int == digits_val(chars@.subrange(lo as int, hi as int))
                &&& m <= bound
            },
            None => {
                ||| !all_digits(chars@.subrange(lo as int, hi as int))
                ||| digits_val(chars@.subrange(lo as int, hi as int)) > bound
            },
        },
{
    let ghost t = chars@.subrange(lo as int, hi as int);
    let mut acc: u64 = 0;
    let mut i: usize = lo;
    while i < hi
        invariant
            lo <= i <= hi <= chars@.len(),
            t == chars@.subrange(lo as int, hi as int),
            all_digits(t.take(i - lo)),
            acc as int == digits_val(t.take(i - lo)),
            acc <= bound,
        decreases hi - i,
    {
        let c = chars[i];
        proof {
            assert(t[i - lo] == c);
        }
        if !('0' <= c && c <= '9') {
            proof {
                assert(!is_digit(t[i - lo]));
            }
            return None;
        }
        let d: u64 = (c as u32 - 48) as u64;
        proof {
            assert(d as int == digit_val(c));
            assert(t.take(i + 1 - lo).drop_last() =~= t.take(i - lo));
            assert(t.take(i + 1 - lo).last() == c);
        }
        let next = match acc.checked_mul(10) {
            Some(m) => m.checked_add(d),
            None => None,
        };
        match next {
            Some(m) => {
                if m > bound {
                    proof {
                        assert(digits_val(t.take(i + 1 - lo)) > bound);
                        if all_digits(t) {
                            lemma_digits_val_prefix(t, i + 1 - lo);
                        }
                    }
                    return None;
                }
                acc = m;
            },
            None => {
                proof {
                    lemma_digits_val_nonneg(t.take(i - lo));
                    assert(digits_val(t.take(i + 1 - lo)) > u64::MAX);
                    if all_digits(t) {
                        lemma_digits_val_prefix(t, i + 1 - lo);
                    }
                }
                return None;
            },
        }
        i += 1;
    }
    proof {
        assert(t.take(hi - lo) =~= t);
    }
    Some(acc)
}

/// Reads `chars[lo..hi]` as a numeric atom, if it is one.
fn scan_number(chars: &Vec<char>, lo: usize, hi: usize) -> (r: Option<i64>)
    requires
        lo <= hi <= chars@.len(),
    ensures
        r == number_of(chars@.subrange(lo as int, hi as int)),
{
    let ghost t = chars@.subrange(lo as int, hi as int);
    if lo == hi {
        return None;
    }
    let c0 = chars[lo];
    proof {
        assert(t[0] == c0);
    }
    if c0 == '+' || c0 == '-' {
        if lo + 1 == hi {
            proof {
                assert(t.len() == 1);
            }
            return None;
        }
        proof {
            assert(t.drop_first() =~= chars@.subrange(lo + 1, hi as int));
        }
        if c0 == '-' {
            // The magnitude of the least number is one more than of the greatest.
            match scan_digits(chars, lo + 1, hi, 9223372036854775808u64) {
                Some(m) => {
                    proof {
                        lemma_digits_val_nonneg(t.drop_first());
                    }
                    if m == 9223372036854775808u64 {
                        Some(i64::MIN)
                    } else {
                        Some(-(m as i64))
                    }
                },
                None => None,
            }
        } else {
            match scan_digits(chars, lo + 1, hi, i64::MAX as u64) {
                Some(m) => Some(m as i64),
                None => None,
            }
        }
    } else {
        match scan_digits(chars, lo, hi, i64::MAX as u64) {
            Some(m) => {
                proof {
                    assert(t =~= chars@.subrange(lo as int, hi as int));
                }
                Some(m as i64)
            },
            None => None,
        }
    }
}

} // verus!

verus! {

use vstd::std_specs::iter::IteratorSpec;

/// How the text of an atom run is classified, in fixed precedence:
/// a number, a boolean literal, a reserved identifier, else an opaque
/// string atom.
pub open spec fn classify_atom(t: Seq<char>) -> AtomModel {
    if number_of(t) is Some {
        AtomModel::Number(number_of(t).unwrap() as int)
    } else if t == "true"@ {
        AtomModel::Boolean(true)
    } else if t == "false"@ {
        AtomModel::Boolean(false)
    } else if ident_of(t) is Some {
        AtomModel::Identifier(ident_of(t).unwrap())
    } else {
        AtomModel::Str(t)
    }
}

/// The length of the maximal run of atom characters at the head of `s`.
pub open spec fn atom_run_len(s: Seq<char>) -> nat
    decreases s.len(),
{
    if s.len() == 0 || !is_atom_char_spec(s[0]) {
        0
    } else {
        (1 + atom_run_len(s.drop_first())) as nat
    }
}

/// The run at the head of `s` never reaches past its end.
pub proof fn lemma_atom_run_len_le(s: Seq<char>)
    ensures
        atom_run_len(s) <= s.len(),
    decreases s.len(),
{
    if s.len() != 0 && is_atom_char_spec(s[0]) {
        lemma_atom_run_len_le(s.drop_first());
    }
}

/// The run at the head of `s` is exactly `k` characters long when the first
/// `k` characters are atom characters and the next one, if any, is not.
pub proof fn lemma_atom_run_len_exact(s: Seq<char>, k: int)
    requires
        0 <= k <= s.len(),
        forall|i: int| 0 <= i < k ==> is_atom_char_spec(#[trigger] s[i]),
        k == s.len() || !is_atom_char_spec(s[k]),
    ensures
        atom_run_len(s) == k,
    decreases k,
{
    if k > 0 {
        assert(is_atom_char_spec(s[0]));
        assert(forall|i: int| 0 <= i < k - 1 ==> is_atom_char_spec(#[trigger] s.drop_first()[i]));
        lemma_atom_run_len_exact(s.drop_first(), k - 1);
    }
}

/// The token sequence a line of text scans to. Punctuation yields its own
/// token, an atom run yields one classified atom token, and every other
/// character is skipped.
pub open spec fn scan_spec(s: Seq<char>) -> Seq<TokenModel>
    decreases s.len(),
{
    if s.len() == 0 {
        Seq::empty()
    } else if s[0] == '(' {
        seq![TokenModel::LeftParen] + scan_spec(s.drop_first())
    } else if s[0] == ')' {
        seq![TokenModel::RightParen] + scan_spec(s.drop_first())
    } else if s[0] == '.' {
        seq![TokenModel::Dot] + scan_spec(s.drop_first())
    } else if is_atom_char_spec(s[0]) {
        proof {
            lemma_atom_run_len_le(s);
        }
        seq![TokenModel::Atom(classify_atom(s.take(atom_run_len(s) as int)))]
            + scan_spec(s.skip(atom_run_len(s) as int))
    } else {
        scan_spec(s.drop_first())
    }
}

/// Collects the characters of `s` in order.
fn chars_of(s: &str) -> (r: Vec<char>)
    ensures
        r@ == s@,
{
    let mut it = s.chars();
    let mut r: Vec<char> = Vec::new();
    loop
        invariant
            r@ + it.remaining() == s@,
            it.decrease() is Some,
        ensures
            r@ == s@,
        decreases it.decrease().unwrap(),
    {
        match it.next() {
            Some(c) => {
                r.push(c);
                proof {
                    assert(r@ + it.remaining() =~= s@);
                }
            },
            None => {
                proof {
                    assert(r@ + it.remaining() =~= r@);
                }
                break;
            },
        }
    }
    r
}

/// Relies on String::push: appends one character at the end of the string.
#[verifier::external_body]
fn push_char(s: &mut String, c: char)
    ensures
        final(s)@ == old(s)@.push(c),
{
    s.push(c);
}

/// Copies `chars[lo..hi]` into a fresh string.
fn string_from_range(chars: &Vec<char>, lo: usize, hi: usize) -> (r: String)
    requires
        lo <= hi <= chars@.len(),
    ensures
        r@ == chars@.subrange(lo as int, hi as int),
{
    let mut r = String::new();
    let mut i: usize = lo;
    while i < hi
        invariant
            lo <= i <= hi <= chars@.len(),
            r@ == chars@.subrange(lo as int, i as int),
        decreases hi - i,
    {
        push_char(&mut r, chars[i]);
        proof {
            assert(chars@.subrange(lo as int, i as int).push(chars@[i as int]) =~= chars@.subrange(
                lo as int,
                i + 1,
            ));
        }
        i += 1;
    }
    r
}

} // verus!

verus! {

/// Captures the maximal atom run starting at `*current` and classifies it.
fn scan_atom(chars: &Vec<char>, start: &mut usize, current: &mut usize) -> (token: Token)
    requires
        *old(start) == *old(current),
        *old(current) < chars@.len(),
        is_atom_char_spec(chars@[*old(current) as int]),
    ensures
        *final(current) == *old(current) + atom_run_len(chars@.skip(*old(current) as int)),
        *final(start) == *final(current),
        *final(current) <= chars@.len(),
        token@ == TokenModel::Atom(
            classify_atom(chars@.subrange(*old(current) as int, *final(current) as int)),
        ),
{
    let ghost lo = *current as int;
    while *current < chars.len() && is_atom_char(&chars[*current])
        invariant
            lo <= *current <= chars@.len(),
            *start == lo,
            forall|i: int| lo <= i < *current ==> is_atom_char_spec(#[trigger] chars@[i]),
        decreases chars@.len() - *current,
    {
        *current += 1;
    }
    proof {
        let s = chars@.skip(lo);
        let k = *current - lo;
        assert(forall|i: int| 0 <= i < k ==> is_atom_char_spec(#[trigger] s[i]));
        assert(k == s.len() || !is_atom_char_spec(s[k as int]));
        lemma_atom_run_len_exact(s, k as int);
    }
    let ghost t = chars@.subrange(lo, *current as int);

    // Number
    if let Some(num) = scan_number(chars, *start, *current) {
        *start = *current;
        return Token::Atom(Atom::Number(num));
    }
    let text = string_from_range(chars, *start, *current);
    *start = *current;
    // Boolean
    if text == "true".to_owned() {
        return Token::Atom(Atom::Boolean(true));
    }
    if text == "false".to_owned() {
        return Token::Atom(Atom::Boolean(false));
    }
    // Identifier
    if let Some(id) = match_identifier(&text) {
        return Token::Atom(Atom::Identifier(id));
    }
    // String
    Token::Atom(Atom::Str(text))
}

/// Reads one token, or skips one separator character, at `*current`.
fn scan_token(chars: &Vec<char>, start: &mut usize, current: &mut usize) -> (token: Option<
    Token,
>)
    requires
        *old(start) == *old(current),
        *old(current) < chars@.len(),
    ensures
        *old(current) < *final(current) <= chars@.len(),
        match token {
            Some(t) => scan_spec(chars@.skip(*old(current) as int)) == seq![t@] + scan_spec(
                chars@.skip(*final(current) as int),
            ),
            None => scan_spec(chars@.skip(*old(current) as int)) == scan_spec(
                chars@.skip(*final(current) as int),
            ),
        },
{
    let ghost lo = *current as int;
    let ghost s = chars@.skip(lo);
    proof {
        assert(s[0] == chars@[lo]);
        assert(s.drop_first() =~= chars@.skip(lo + 1));
    }
    let _len = chars.len();
    let c = chars[*current];
    if c == '(' {
        *current += 1;
        Some(Token::LeftParen)
    } else if c == ')' {
        *current += 1;
        Some(Token::RightParen)
    } else if c == '.' {
        *current += 1;
        Some(Token::Dot)
    } else if is_atom_char(&c) {
        let token = scan_atom(chars, start, current);
        proof {
            let n = atom_run_len(s);
            lemma_atom_run_len_le(s);
            assert(s.take(n as int) =~= chars@.subrange(lo, lo + n));
            assert(s.skip(n as int) =~= chars@.skip(lo + n));
            assert(n >= 1);
        }
        Some(token)
    } else {
        *current += 1;
        None
    }
}

/// Scans a line of text into its token sequence, left to right.
pub fn scan(line: &String) -> (tokens: Vec<Token>)
    ensures
        tokens_view(tokens@) == scan_spec(line@),
{
    let chars: Vec<char> = chars_of(line.as_str());
    let mut tokens: Vec<Token> = Vec::new();

    let mut start: usize = 0;
    let mut current: usize = 0;

    proof {
        assert(chars@.skip(0) =~= chars@);
        assert(tokens_view(Seq::<Token>::empty()) =~= Seq::<TokenModel>::empty());
    }
    while current < chars.len()
        invariant
            current <= chars@.len(),
            chars@ == line@,
            tokens_view(tokens@) + scan_spec(chars@.skip(current as int)) == scan_spec(chars@),
        decreases chars@.len() - current,
    {
        let ghost prev_tokens = tokens@;
        start = current;
        if let Some(token) = scan_token(&chars, &mut start, &mut current) {
            tokens.push(token);
            proof {
                assert(tokens_view(tokens@) =~= tokens_view(prev_tokens) + seq![token@]);
                assert(tokens_view(prev_tokens) + (seq![token@] + scan_spec(
                    chars@.skip(current as int),
                )) =~= (tokens_view(prev_tokens) + seq![token@]) + scan_spec(
                    chars@.skip(current as int),
                ));
            }
        }
    }
    proof {
        assert(chars@.skip(current as int) =~= Seq::<char>::empty());
        assert(scan_spec(Seq::<char>::empty()) =~= Seq::<TokenModel>::empty());
        assert(tokens_view(tokens@) + Seq::<TokenModel>::empty() =~= tokens_view(tokens@));
    }
    tokens
}

} // verus!
