//! The expression evaluator.
//!
//! A string leaf may carry `${...}` interpolation tokens. The text inside a
//! token is a small expression over identifiers, integer and real literals,
//! `true`/`false`/`null`, and the operators `|| && == != < > <= >= + - * / %`
//! with unary `!` and `-`. Evaluation is defined by the `spec_*` functions in
//! this module and the executable evaluator is proved to match them exactly.
//!
//! Numeric policy: arithmetic and ordering are defined on integers only, with
//! 64-bit checked semantics (overflow, division by zero, and `i64::MIN / -1`
//! make the expression fail). Reals pass through as tagged literal text and
//! take part only in `==`/`!=`, which compare values structurally. `&&` and
//! `||` take booleans on both sides and evaluate both. An identifier that is
//! not bound evaluates to null.

use vstd::prelude::*;

use crate::node::{Node, NodeV};
use crate::strmap::StrMap;
use crate::text;
use crate::value::{Value, ValueV};

verus! {

/// One lexical token of the expression grammar.
pub enum Tok {
    Int(i64),
    Real(String),
    Bool(bool),
    Null,
    Ident(String),
    Or,
    And,
    Eq,
    Ne,
    Lt,
    Gt,
    Le,
    Ge,
    Plus,
    Minus,
    Star,
    Slash,
    Percent,
    Bang,
}

/// Mathematical view of a token.
pub enum TokV {
    Int(int),
    Real(Seq<char>),
    Bool(bool),
    Null,
    Ident(Seq<char>),
    Or,
    And,
    Eq,
    Ne,
    Lt,
    Gt,
    Le,
    Ge,
    Plus,
    Minus,
    Star,
    Slash,
    Percent,
    Bang,
}

impl View for Tok {
    type V = TokV;

    open spec fn view(&self) -> TokV {
        match self {
            Tok::Int(n) => TokV::Int(*n as int),
            Tok::Real(s) => TokV::Real(s@),
            Tok::Bool(b) => TokV::Bool(*b),
            Tok::Null => TokV::Null,
            Tok::Ident(s) => TokV::Ident(s@),
            Tok::Or => TokV::Or,
            Tok::And => TokV::And,
            Tok::Eq => TokV::Eq,
            Tok::Ne => TokV::Ne,
            Tok::Lt => TokV::Lt,
            Tok::Gt => TokV::Gt,
            Tok::Le => TokV::Le,
            Tok::Ge => TokV::Ge,
            Tok::Plus => TokV::Plus,
            Tok::Minus => TokV::Minus,
            Tok::Star => TokV::Star,
            Tok::Slash => TokV::Slash,
            Tok::Percent => TokV::Percent,
            Tok::Bang => TokV::Bang,
        }
    }
}

/// Element-wise view of a token sequence.
pub open spec fn toks_v(s: Seq<Tok>) -> Seq<TokV>
    decreases s.len(),
{
    if s.len() == 0 {
        Seq::empty()
    } else {
        toks_v(s.drop_last()).push(s.last()@)
    }
}

/// `toks_v` maps indices one for one.
pub proof fn lemma_toks_v(s: Seq<Tok>)
    ensures
        toks_v(s).len() == s.len(),
        forall|i: int| 0 <= i < s.len() ==> toks_v(s)[i] == (#[trigger] s[i])@,
    decreases s.len(),
{
    if s.len() > 0 {
        lemma_toks_v(s.drop_last());
        assert forall|i: int| 0 <= i < s.len() implies toks_v(s)[i] == (#[trigger] s[i])@ by {
            if i < s.len() - 1 {
                assert(s.drop_last()[i] == s[i]);
                assert(toks_v(s)[i] == toks_v(s.drop_last())[i]);
            }
        }
    }
}

/// Character classes of the grammar.
pub open spec fn is_digit(c: char) -> bool {
    48 <= c as u32 <= 57
}

/// Letters and underscore start identifiers.
pub open spec fn is_ident_start(c: char) -> bool {
    (65 <= c as u32 <= 90) || (97 <= c as u32 <= 122) || c as u32 == 95
}

/// Identifier continuation characters.
pub open spec fn is_ident_char(c: char) -> bool {
    is_ident_start(c) || is_digit(c)
}

/// End of the identifier that starts at `i`.
pub open spec fn spec_scan_ident(s: Seq<char>, i: int) -> int
    decreases s.len() - i,
{
    if 0 <= i < s.len() && is_ident_char(s[i]) {
        spec_scan_ident(s, i + 1)
    } else {
        i
    }
}

/// End of the digit run that starts at `i`.
pub open spec fn spec_scan_digits(s: Seq<char>, i: int) -> int
    decreases s.len() - i,
{
    if 0 <= i < s.len() && is_digit(s[i]) {
        spec_scan_digits(s, i + 1)
    } else {
        i
    }
}

/// Bounds of `spec_scan_ident`.
pub proof fn lemma_scan_ident_bounds(s: Seq<char>, i: int)
    requires
        0 <= i <= s.len(),
    ensures
        i <= spec_scan_ident(s, i) <= s.len(),
        forall|j: int| i <= j < spec_scan_ident(s, i) ==> is_ident_char(#[trigger] s[j]),
    decreases s.len() - i,
{
    if i < s.len() && is_ident_char(s[i]) {
        lemma_scan_ident_bounds(s, i + 1);
    }
}

/// Bounds of `spec_scan_digits`.
pub proof fn lemma_scan_digits_bounds(s: Seq<char>, i: int)
    requires
        0 <= i <= s.len(),
    ensures
        i <= spec_scan_digits(s, i) <= s.len(),
        forall|j: int| i <= j < spec_scan_digits(s, i) ==> is_digit(#[trigger] s[j]),
    decreases s.len() - i,
{
    if i < s.len() && is_digit(s[i]) {
        lemma_scan_digits_bounds(s, i + 1);
    }
}

/// Numeric value of a digit run, most significant first.
pub open spec fn spec_digits_val(s: Seq<char>, i: int, j: int) -> int
    decreases j - i,
{
    if i >= j {
        0
    } else {
        spec_digits_val(s, i, j - 1) * 10 + (s[j - 1] as u32 - 48)
    }
}

/// The tokens of `s` from position `i` on; `None` when the text is not a
/// well-formed expression.
pub open spec fn spec_lex(s: Seq<char>, i: int) -> Option<Seq<TokV>>
    decreases s.len() - i, 0int,
{
    if i < 0 || i > s.len() {
        None
    } else if i == s.len() {
        Some(Seq::empty())
    } else if s[i] == ' ' {
        spec_lex(s, i + 1)
    } else if is_ident_start(s[i]) {
        let j = spec_scan_ident(s, i);
        if !(i < j <= s.len()) {
            None
        } else {
            let w = s.subrange(i, j);
            let t = if w == "true"@ {
                TokV::Bool(true)
            } else if w == "false"@ {
                TokV::Bool(false)
            } else if w == "null"@ {
                TokV::Null
            } else {
                TokV::Ident(w)
            };
            spec_lex_cons(s, t, j)
        }
    } else if is_digit(s[i]) {
        let j = spec_scan_digits(s, i);
        if !(i < j <= s.len()) {
            None
        } else if j < s.len() && s[j] == '.' && j + 1 < s.len() && is_digit(s[j + 1]) {
            let k = spec_scan_digits(s, j + 1);
            if !(j + 1 < k <= s.len()) {
                None
            } else {
                spec_lex_cons(s, TokV::Real(s.subrange(i, k)), k)
            }
        } else {
            let v = spec_digits_val(s, i, j);
            if v > i64::MAX {
                None
            } else {
                spec_lex_cons(s, TokV::Int(v), j)
            }
        }
    } else if s[i] == '&' {
        if i + 1 < s.len() && s[i + 1] == '&' {
            spec_lex_cons(s, TokV::And, i + 2)
        } else {
            None
        }
    } else if s[i] == '|' {
        if i + 1 < s.len() && s[i + 1] == '|' {
            spec_lex_cons(s, TokV::Or, i + 2)
        } else {
            None
        }
    } else if s[i] == '=' {
        if i + 1 < s.len() && s[i + 1] == '=' {
            spec_lex_cons(s, TokV::Eq, i + 2)
        } else {
            None
        }
    } else if s[i] == '!' {
        if i + 1 < s.len() && s[i + 1] == '=' {
            spec_lex_cons(s, TokV::Ne, i + 2)
        } else {
            spec_lex_cons(s, TokV::Bang, i + 1)
        }
    } else if s[i] == '<' {
        if i + 1 < s.len() && s[i + 1] == '=' {
            spec_lex_cons(s, TokV::Le, i + 2)
        } else {
            spec_lex_cons(s, TokV::Lt, i + 1)
        }
    } else if s[i] == '>' {
        if i + 1 < s.len() && s[i + 1] == '=' {
            spec_lex_cons(s, TokV::Ge, i + 2)
        } else {
            spec_lex_cons(s, TokV::Gt, i + 1)
        }
    } else if s[i] == '+' {
        spec_lex_cons(s, TokV::Plus, i + 1)
    } else if s[i] == '-' {
        spec_lex_cons(s, TokV::Minus, i + 1)
    } else if s[i] == '*' {
        spec_lex_cons(s, TokV::Star, i + 1)
    } else if s[i] == '/' {
        spec_lex_cons(s, TokV::Slash, i + 1)
    } else if s[i] == '%' {
        spec_lex_cons(s, TokV::Percent, i + 1)
    } else {
        None
    }
}

/// One token followed by the tokens after position `j`.
pub open spec fn spec_lex_cons(s: Seq<char>, t: TokV, j: int) -> Option<Seq<TokV>>
    decreases s.len() - j, 1int,
{
    if j < 0 || j > s.len() {
        None
    } else {
        match spec_lex(s, j) {
            None => None,
            Some(rest) => Some(seq![t].add(rest)),
        }
    }
}

/// Decides `is_ident_start`.
fn ident_start(c: char) -> (r: bool)
    ensures
        r == is_ident_start(c),
{
    let u = c as u32;
    (65 <= u && u <= 90) || (97 <= u && u <= 122) || u == 95
}

/// Decides `is_ident_char`.
fn ident_char(c: char) -> (r: bool)
    ensures
        r == is_ident_char(c),
{
    let u = c as u32;
    (65 <= u && u <= 90) || (97 <= u && u <= 122) || u == 95 || (48 <= u && u <= 57)
}

/// Decides `is_digit`.
fn digit_char(c: char) -> (r: bool)
    ensures
        r == is_digit(c),
{
    let u = c as u32;
    48 <= u && u <= 57
}

/// Computes `spec_scan_ident`.
fn scan_ident(s: &Vec<char>, i: usize) -> (r: usize)
    requires
        i <= s@.len(),
    ensures
        r as int == spec_scan_ident(s@, i as int),
        i <= r <= s@.len(),
    decreases s@.len() - i,
{
    if i < s.len() && ident_char(s[i]) {
        scan_ident(s, i + 1)
    } else {
        i
    }
}

/// Computes `spec_scan_digits`.
fn scan_digits(s: &Vec<char>, i: usize) -> (r: usize)
    requires
        i <= s@.len(),
    ensures
        r as int == spec_scan_digits(s@, i as int),
        i <= r <= s@.len(),
    decreases s@.len() - i,
{
    if i < s.len() && digit_char(s[i]) {
        scan_digits(s, i + 1)
    } else {
        i
    }
}

/// The characters of `s` between `i` and `j`.
fn subrange_chars(s: &Vec<char>, i: usize, j: usize) -> (r: Vec<char>)
    requires
        i <= j <= s@.len(),
    ensures
        r@ == s@.subrange(i as int, j as int),
{
    let mut out: Vec<char> = Vec::new();
    let mut k = i;
    while k < j
        invariant
            i <= k <= j <= s@.len(),
            out@ =~= s@.subrange(i as int, k as int),
        decreases j - k,
    {
        out.push(s[k]);
        k += 1;
    }
    proof {
        assert(out@ =~= s@.subrange(i as int, j as int));
    }
    out
}

/// Digit runs are non-negative numbers.
proof fn lemma_digits_val_nonneg(s: Seq<char>, i: int, j: int)
    requires
        0 <= i,
        j <= s.len(),
        forall|k: int| i <= k < j ==> is_digit(#[trigger] s[k]),
    ensures
        0 <= spec_digits_val(s, i, j),
    decreases j - i,
{
    if i < j {
        lemma_digits_val_nonneg(s, i, j - 1);
        assert(spec_digits_val(s, i, j) == spec_digits_val(s, i, j - 1) * 10 + (s[j - 1] as u32
            - 48));
        assert(spec_digits_val(s, i, j - 1) * 10 >= 0) by (nonlinear_arith)
            requires
                spec_digits_val(s, i, j - 1) >= 0,
        ;
    }
}

/// Computes the value of a digit run, or `None` past `i64::MAX`.
fn digits_to_i64(s: &Vec<char>, i: usize, j: usize) -> (r: Option<i64>)
    requires
        i <= j <= s@.len(),
        forall|k: int| i <= k < j ==> is_digit(#[trigger] s@[k]),
    ensures
        match r {
            Some(n) => n as int == spec_digits_val(s@, i as int, j as int) && spec_digits_val(
                s@,
                i as int,
                j as int,
            ) <= i64::MAX,
            None => spec_digits_val(s@, i as int, j as int) > i64::MAX,
        },
    decreases j - i,
{
    if i >= j {
        Some(0)
    } else {
        proof {
            lemma_digits_val_nonneg(s@, i as int, j as int - 1);
        }
        match digits_to_i64(s, i, j - 1) {
            None => {
                proof {
                    let p = spec_digits_val(s@, i as int, j - 1 as int);
                    assert(p * 10 > i64::MAX) by (nonlinear_arith)
                        requires
                            p > i64::MAX,
                    ;
                }
                None
            },
            Some(p) => {
                let u = s[j - 1] as u32;
                let d = (u - 48) as i64;
                match p.checked_mul(10) {
                    None => {
                        proof {
                            assert(spec_digits_val(s@, i as int, j as int) > i64::MAX);
                        }
                        None
                    },
                    Some(p10) => {
                        match p10.checked_add(d) {
                            None => None,
                            Some(v) => Some(v),
                        }
                    },
                }
            },
        }
    }
}

/// Computes `spec_lex`: the token list of `s` from `i` on.
fn lex(s: &Vec<char>, i: usize) -> (r: Option<Vec<Tok>>)
    requires
        i <= s@.len(),
    ensures
        match r {
            Some(ts) => spec_lex(s@, i as int) == Some(toks_v(ts@)),
            None => spec_lex(s@, i as int) is None,
        },
    decreases s@.len() - i, 0int,
{
    if i == s.len() {
        let out: Vec<Tok> = Vec::new();
        proof {
            assert(toks_v(out@) =~= Seq::<TokV>::empty());
        }
        return Some(out);
    }
    let c = s[i];
    if c == ' ' {
        lex(s, i + 1)
    } else if ident_start(c) {
        let j = scan_ident(s, i);
        proof {
            lemma_scan_ident_bounds(s@, i as int + 1);
            assert(spec_scan_ident(s@, i as int) == spec_scan_ident(s@, i as int + 1));
        }
        let w = subrange_chars(s, i, j);
        let ws = text::string_of_chars(&w);
        let t = if text::str_eq(ws.as_str(), "true") {
            Tok::Bool(true)
        } else if text::str_eq(ws.as_str(), "false") {
            Tok::Bool(false)
        } else if text::str_eq(ws.as_str(), "null") {
            Tok::Null
        } else {
            Tok::Ident(ws)
        };
        lex_cons(s, t, j)
    } else if digit_char(c) {
        let j = scan_digits(s, i);
        proof {
            lemma_scan_digits_bounds(s@, i as int);
            lemma_scan_digits_bounds(s@, i as int + 1);
            assert(spec_scan_digits(s@, i as int) == spec_scan_digits(s@, i as int + 1));
        }
        if j < s.len() && s[j] == '.' && j + 1 < s.len() && digit_char(s[j + 1]) {
            let k = scan_digits(s, j + 1);
            proof {
                lemma_scan_digits_bounds(s@, j as int + 2);
                assert(spec_scan_digits(s@, j as int + 1) == spec_scan_digits(s@, j as int + 2));
            }
            let w = subrange_chars(s, i, k);
            let ws = text::string_of_chars(&w);
            lex_cons(s, Tok::Real(ws), k)
        } else {
            match digits_to_i64(s, i, j) {
                None => None,
                Some(n) => lex_cons(s, Tok::Int(n), j),
            }
        }
    } else if c == '&' {
        if i + 1 < s.len() && s[i + 1] == '&' {
            lex_cons(s, Tok::And, i + 2)
        } else {
            None
        }
    } else if c == '|' {
        if i + 1 < s.len() && s[i + 1] == '|' {
            lex_cons(s, Tok::Or, i + 2)
        } else {
            None
        }
    } else if c == '=' {
        if i + 1 < s.len() && s[i + 1] == '=' {
            lex_cons(s, Tok::Eq, i + 2)
        } else {
            None
        }
    } else if c == '!' {
        if i + 1 < s.len() && s[i + 1] == '=' {
            lex_cons(s, Tok::Ne, i + 2)
        } else {
            lex_cons(s, Tok::Bang, i + 1)
        }
    } else if c == '<' {
        if i + 1 < s.len() && s[i + 1] == '=' {
            lex_cons(s, Tok::Le, i + 2)
        } else {
            lex_cons(s, Tok::Lt, i + 1)
        }
    } else if c == '>' {
        if i + 1 < s.len() && s[i + 1] == '=' {
            lex_cons(s, Tok::Ge, i + 2)
        } else {
            lex_cons(s, Tok::Gt, i + 1)
        }
    } else if c == '+' {
        lex_cons(s, Tok::Plus, i + 1)
    } else if c == '-' {
        lex_cons(s, Tok::Minus, i + 1)
    } else if c == '*' {
        lex_cons(s, Tok::Star, i + 1)
    } else if c == '/' {
        lex_cons(s, Tok::Slash, i + 1)
    } else if c == '%' {
        lex_cons(s, Tok::Percent, i + 1)
    } else {
        None
    }
}

/// Computes `spec_lex_cons`: `t` followed by the tokens after `j`.
fn lex_cons(s: &Vec<char>, t: Tok, j: usize) -> (r: Option<Vec<Tok>>)
    requires
        j <= s@.len(),
    ensures
        match r {
            Some(ts) => spec_lex_cons(s@, t@, j as int) == Some(toks_v(ts@)),
            None => spec_lex_cons(s@, t@, j as int) is None,
        },
    decreases s@.len() - j, 1int,
{
    match lex(s, j) {
        None => None,
        Some(rest) => {
            let ghost rest0 = rest@;
            let ghost tv = t@;
            let mut out = rest;
            let ghost te = t;
            out.insert(0, t);
            proof {
                rest0.insert_ensures(0, te);
                lemma_toks_v(rest0);
                lemma_toks_v(out@);
                assert forall|k: int| 0 <= k < out@.len() implies toks_v(out@)[k] == seq![tv].add(
                    toks_v(rest0),
                )[k] by {
                    if k > 0 {
                        assert(rest0.insert(0, te)[(k - 1) + 1] == rest0[k - 1]);
                        assert(out@[k] == rest0[k - 1]);
                    } else {
                        assert(rest0.insert(0, te)[0] == te);
                    }
                }
                assert(toks_v(out@) =~= seq![tv].add(toks_v(rest0)));
            }
            Some(out)
        },
    }
}

/// Precedence level of a binary operator token; `0` for non-operators.
pub open spec fn tok_level(t: TokV) -> int {
    match t {
        TokV::Or => 1,
        TokV::And => 2,
        TokV::Eq => 3,
        TokV::Ne => 3,
        TokV::Lt => 4,
        TokV::Gt => 4,
        TokV::Le => 4,
        TokV::Ge => 4,
        TokV::Plus => 5,
        TokV::Minus => 5,
        TokV::Star => 6,
        TokV::Slash => 6,
        TokV::Percent => 6,
        _ => 0,
    }
}

/// Truncated division, the semantics of `/` on 64-bit integers.
pub open spec fn spec_div_t(x: int, d: int) -> int {
    if x == 0 {
        0
    } else if x > 0 && d > 0 {
        x / d
    } else if x < 0 && d < 0 {
        (x * -1) / (d * -1)
    } else if x < 0 {
        ((x * -1) / d) * -1
    } else {
        (x / (d * -1)) * -1
    }
}

/// Truncated remainder, the semantics of `%` on 64-bit integers.
pub open spec fn spec_rem_t(x: int, d: int) -> int {
    if x == 0 {
        0
    } else if x > 0 && d > 0 {
        x % d
    } else if x < 0 && d < 0 {
        ((x * -1) % (d * -1)) * -1
    } else if x < 0 {
        ((x * -1) % d) * -1
    } else {
        x % (d * -1)
    }
}

/// Whether `x` fits in a 64-bit signed integer.
pub open spec fn in_i64(x: int) -> bool {
    i64::MIN <= x <= i64::MAX
}

/// The value of a binary operator applied to two values; `None` when the
/// operands have the wrong kinds or the arithmetic fails.
pub open spec fn spec_apply_bin(op: TokV, a: ValueV, b: ValueV) -> Option<ValueV> {
    match op {
        TokV::Or => match (a, b) {
            (ValueV::Bool(x), ValueV::Bool(y)) => Some(ValueV::Bool(x || y)),
            _ => None,
        },
        TokV::And => match (a, b) {
            (ValueV::Bool(x), ValueV::Bool(y)) => Some(ValueV::Bool(x && y)),
            _ => None,
        },
        TokV::Eq => Some(ValueV::Bool(a == b)),
        TokV::Ne => Some(ValueV::Bool(a != b)),
        TokV::Lt => match (a, b) {
            (ValueV::Int(x), ValueV::Int(y)) => Some(ValueV::Bool(x < y)),
            _ => None,
        },
        TokV::Gt => match (a, b) {
            (ValueV::Int(x), ValueV::Int(y)) => Some(ValueV::Bool(x > y)),
            _ => None,
        },
        TokV::Le => match (a, b) {
            (ValueV::Int(x), ValueV::Int(y)) => Some(ValueV::Bool(x <= y)),
            _ => None,
        },
        TokV::Ge => match (a, b) {
            (ValueV::Int(x), ValueV::Int(y)) => Some(ValueV::Bool(x >= y)),
            _ => None,
        },
        TokV::Plus => match (a, b) {
            (ValueV::Int(x), ValueV::Int(y)) => if in_i64(x + y) {
                Some(ValueV::Int(x + y))
            } else {
                None
            },
            (ValueV::Str(x), ValueV::Str(y)) => Some(ValueV::Str(x + y)),
            _ => None,
        },
        TokV::Minus => match (a, b) {
            (ValueV::Int(x), ValueV::Int(y)) => if in_i64(x - y) {
                Some(ValueV::Int(x - y))
            } else {
                None
            },
            _ => None,
        },
        TokV::Star => match (a, b) {
            (ValueV::Int(x), ValueV::Int(y)) => if in_i64(x * y) {
                Some(ValueV::Int(x * y))
            } else {
                None
            },
            _ => None,
        },
        TokV::Slash => match (a, b) {
            (ValueV::Int(x), ValueV::Int(y)) => if y == 0 || !in_i64(spec_div_t(x, y)) {
                None
            } else {
                Some(ValueV::Int(spec_div_t(x, y)))
            },
            _ => None,
        },
        TokV::Percent => match (a, b) {
            (ValueV::Int(x), ValueV::Int(y)) => if y == 0 || (x == i64::MIN && y == -1) || !in_i64(
                spec_rem_t(x, y),
            ) {
                None
            } else {
                Some(ValueV::Int(spec_rem_t(x, y)))
            },
            _ => None,
        },
        _ => None,
    }
}

/// The value of a unary operator applied to a value.
pub open spec fn spec_apply_unary(op: TokV, v: ValueV) -> Option<ValueV> {
    match op {
        TokV::Bang => match v {
            ValueV::Bool(b) => Some(ValueV::Bool(!b)),
            _ => None,
        },
        TokV::Minus => match v {
            ValueV::Int(x) => if in_i64(-x) {
                Some(ValueV::Int(-x))
            } else {
                None
            },
            _ => None,
        },
        _ => None,
    }
}

/// The scalar a leaf node denotes; `None` for sequences and mappings.
pub open spec fn spec_leaf(n: NodeV) -> Option<ValueV> {
    match n {
        NodeV::Null => Some(ValueV::Null),
        NodeV::Bool(b) => Some(ValueV::Bool(b)),
        NodeV::Int(i) => Some(ValueV::Int(i)),
        NodeV::Real(s) => Some(ValueV::Real(s)),
        NodeV::Str(s) => Some(ValueV::Str(s)),
        _ => None,
    }
}

/// The value an identifier denotes: the parameter of that name if one is
/// bound, else the variable, else null. A bound name whose node is not a
/// scalar leaf makes the expression fail.
pub open spec fn spec_lookup(
    name: Seq<char>,
    vars: Map<Seq<char>, NodeV>,
    params: Map<Seq<char>, NodeV>,
) -> Option<ValueV> {
    if params.contains_key(name) {
        spec_leaf(params[name])
    } else if vars.contains_key(name) {
        spec_leaf(vars[name])
    } else {
        Some(ValueV::Null)
    }
}

/// Parses one atom at position `i`.
pub open spec fn spec_atom(
    ts: Seq<TokV>,
    i: int,
    vars: Map<Seq<char>, NodeV>,
    params: Map<Seq<char>, NodeV>,
) -> Option<(ValueV, int)> {
    if 0 <= i < ts.len() {
        match ts[i] {
            TokV::Int(n) => Some((ValueV::Int(n), i + 1)),
            TokV::Real(s) => Some((ValueV::Real(s), i + 1)),
            TokV::Bool(b) => Some((ValueV::Bool(b), i + 1)),
            TokV::Null => Some((ValueV::Null, i + 1)),
            TokV::Ident(w) => match spec_lookup(w, vars, params) {
                Some(v) => Some((v, i + 1)),
                None => None,
            },
            _ => None,
        }
    } else {
        None
    }
}

/// Parses a unary expression at position `i`.
pub open spec fn spec_unary(
    ts: Seq<TokV>,
    i: int,
    vars: Map<Seq<char>, NodeV>,
    params: Map<Seq<char>, NodeV>,
) -> Option<(ValueV, int)>
    decreases ts.len() - i, 1int, 0int,
{
    if 0 <= i < ts.len() && (ts[i] is Bang || ts[i] is Minus) {
        match spec_unary(ts, i + 1, vars, params) {
            None => None,
            Some((v, j)) => match spec_apply_unary(ts[i], v) {
                None => None,
                Some(v2) => Some((v2, j)),
            },
        }
    } else {
        spec_atom(ts, i, vars, params)
    }
}

/// Parses and evaluates a binary expression of precedence `lv` at `i`.
pub open spec fn spec_bin(
    lv: int,
    ts: Seq<TokV>,
    i: int,
    vars: Map<Seq<char>, NodeV>,
    params: Map<Seq<char>, NodeV>,
) -> Option<(ValueV, int)>
    decreases ts.len() - i, 8 - lv, 1int,
{
    if !(1 <= lv <= 6) || !(0 <= i <= ts.len()) {
        None
    } else {
        let first = if lv == 6 {
            spec_unary(ts, i, vars, params)
        } else {
            spec_bin(lv + 1, ts, i, vars, params)
        };
        match first {
            None => None,
            Some((v, j)) => if i < j <= ts.len() {
                spec_bin_rest(lv, v, ts, j, vars, params)
            } else {
                None
            },
        }
    }
}

/// Folds further `lv`-level operators onto the accumulated value `acc`.
pub open spec fn spec_bin_rest(
    lv: int,
    acc: ValueV,
    ts: Seq<TokV>,
    i: int,
    vars: Map<Seq<char>, NodeV>,
    params: Map<Seq<char>, NodeV>,
) -> Option<(ValueV, int)>
    decreases ts.len() - i, 8 - lv, 0int,
{
    if !(1 <= lv <= 6) || !(0 <= i <= ts.len()) {
        None
    } else if i < ts.len() && tok_level(ts[i]) == lv {
        let sub = if lv == 6 {
            spec_unary(ts, i + 1, vars, params)
        } else {
            spec_bin(lv + 1, ts, i + 1, vars, params)
        };
        match sub {
            None => None,
            Some((rhs, j)) => if i + 1 <= j <= ts.len() && i < j {
                match spec_apply_bin(ts[i], acc, rhs) {
                    None => None,
                    Some(v2) => spec_bin_rest(lv, v2, ts, j, vars, params),
                }
            } else {
                None
            },
        }
    } else {
        Some((acc, i))
    }
}

/// The value of a whole token sequence: one full expression, nothing after.
pub open spec fn spec_eval_toks(
    ts: Seq<TokV>,
    vars: Map<Seq<char>, NodeV>,
    params: Map<Seq<char>, NodeV>,
) -> Option<ValueV> {
    match spec_bin(1, ts, 0, vars, params) {
        None => None,
        Some((v, j)) => if j == ts.len() {
            Some(v)
        } else {
            None
        },
    }
}

/// Structural equality of runtime values.
pub fn value_eq(a: &Value, b: &Value) -> (r: bool)
    ensures
        r == (a@ == b@),
{
    match (a, b) {
        (Value::Null, Value::Null) => true,
        (Value::Bool(x), Value::Bool(y)) => x == y,
        (Value::Int(x), Value::Int(y)) => x == y,
        (Value::Real(x), Value::Real(y)) => text::str_eq(x.as_str(), y.as_str()),
        (Value::Str(x), Value::Str(y)) => text::str_eq(x.as_str(), y.as_str()),
        _ => {
            proof {
                assert(a@ != b@);
            }
            false
        },
    }
}

/// Converts a scalar leaf node to its value; sequences and mappings have
/// none. The node is read, never evaluated.
pub fn yaml_to_value(n: &Node) -> (r: Option<Value>)
    ensures
        match r {
            Some(v) => spec_leaf(n@) == Some(v@),
            None => spec_leaf(n@) is None,
        },
{
    match n {
        Node::Null => Some(Value::Null),
        Node::Bool(b) => Some(Value::Bool(*b)),
        Node::Int(i) => Some(Value::Int(*i)),
        Node::Real(s) => Some(Value::Real(s.clone())),
        Node::Str(s) => Some(Value::Str(s.clone())),
        _ => None,
    }
}

/// Embeds a value back into a document node, tag preserved.
pub open spec fn spec_value_node(v: ValueV) -> NodeV {
    match v {
        ValueV::Null => NodeV::Null,
        ValueV::Bool(b) => NodeV::Bool(b),
        ValueV::Int(i) => NodeV::Int(i),
        ValueV::Real(s) => NodeV::Real(s),
        ValueV::Str(s) => NodeV::Str(s),
    }
}

/// Converts a value to the leaf node that carries it.
pub fn value_to_yaml(v: Value) -> (r: Node)
    ensures
        r@ == spec_value_node(v@),
{
    match v {
        Value::Null => Node::Null,
        Value::Bool(b) => Node::Bool(b),
        Value::Int(i) => Node::Int(i),
        Value::Real(s) => Node::Real(s),
        Value::Str(s) => Node::Str(s),
    }
}

/// Applies a binary operator, exactly `spec_apply_bin`.
fn apply_bin(op: &Tok, a: Value, b: Value) -> (r: Option<Value>)
    ensures
        match r {
            Some(v) => spec_apply_bin(op@, a@, b@) == Some(v@),
            None => spec_apply_bin(op@, a@, b@) is None,
        },
{
    match op {
        Tok::Or => match (a, b) {
            (Value::Bool(x), Value::Bool(y)) => Some(Value::Bool(x || y)),
            _ => None,
        },
        Tok::And => match (a, b) {
            (Value::Bool(x), Value::Bool(y)) => Some(Value::Bool(x && y)),
            _ => None,
        },
        Tok::Eq => Some(Value::Bool(value_eq(&a, &b))),
        Tok::Ne => Some(Value::Bool(!value_eq(&a, &b))),
        Tok::Lt => match (a, b) {
            (Value::Int(x), Value::Int(y)) => Some(Value::Bool(x < y)),
            _ => None,
        },
        Tok::Gt => match (a, b) {
            (Value::Int(x), Value::Int(y)) => Some(Value::Bool(x > y)),
            _ => None,
        },
        Tok::Le => match (a, b) {
            (Value::Int(x), Value::Int(y)) => Some(Value::Bool(x <= y)),
            _ => None,
        },
        Tok::Ge => match (a, b) {
            (Value::Int(x), Value::Int(y)) => Some(Value::Bool(x >= y)),
            _ => None,
        },
        Tok::Plus => match (a, b) {
            (Value::Int(x), Value::Int(y)) => match x.checked_add(y) {
                None => None,
                Some(z) => Some(Value::Int(z)),
            },
            (Value::Str(x), Value::Str(y)) => Some(Value::Str(x.concat(y.as_str()))),
            _ => None,
        },
        Tok::Minus => match (a, b) {
            (Value::Int(x), Value::Int(y)) => match x.checked_sub(y) {
                None => None,
                Some(z) => Some(Value::Int(z)),
            },
            _ => None,
        },
        Tok::Star => match (a, b) {
            (Value::Int(x), Value::Int(y)) => match x.checked_mul(y) {
                None => None,
                Some(z) => Some(Value::Int(z)),
            },
            _ => None,
        },
        Tok::Slash => match (a, b) {
            (Value::Int(x), Value::Int(y)) => match x.checked_div(y) {
                None => None,
                Some(z) => Some(Value::Int(z)),
            },
            _ => None,
        },
        Tok::Percent => match (a, b) {
            (Value::Int(x), Value::Int(y)) => match x.checked_rem(y) {
                None => None,
                Some(z) => Some(Value::Int(z)),
            },
            _ => None,
        },
        _ => None,
    }
}

/// Applies a unary operator, exactly `spec_apply_unary`.
fn apply_unary(op: &Tok, v: Value) -> (r: Option<Value>)
    ensures
        match r {
            Some(v2) => spec_apply_unary(op@, v@) == Some(v2@),
            None => spec_apply_unary(op@, v@) is None,
        },
{
    match op {
        Tok::Bang => match v {
            Value::Bool(b) => Some(Value::Bool(!b)),
            _ => None,
        },
        Tok::Minus => match v {
            Value::Int(x) => match 0i64.checked_sub(x) {
                None => None,
                Some(z) => Some(Value::Int(z)),
            },
            _ => None,
        },
        _ => None,
    }
}

/// Looks an identifier up, exactly `spec_lookup`.
fn lookup(name: &str, vars: &StrMap, params: &StrMap) -> (r: Option<Value>)
    requires
        vars.wf(),
        params.wf(),
    ensures
        match r {
            Some(v) => spec_lookup(name@, vars@, params@) == Some(v@),
            None => spec_lookup(name@, vars@, params@) is None,
        },
{
    match params.get(name) {
        Some(n) => yaml_to_value(n),
        None => match vars.get(name) {
            Some(n) => yaml_to_value(n),
            None => Some(Value::Null),
        },
    }
}

/// Precedence level of a token, exactly `tok_level`.
fn level_of(t: &Tok) -> (r: usize)
    ensures
        r as int == tok_level(t@),
{
    match t {
        Tok::Or => 1,
        Tok::And => 2,
        Tok::Eq => 3,
        Tok::Ne => 3,
        Tok::Lt => 4,
        Tok::Gt => 4,
        Tok::Le => 4,
        Tok::Ge => 4,
        Tok::Plus => 5,
        Tok::Minus => 5,
        Tok::Star => 6,
        Tok::Slash => 6,
        Tok::Percent => 6,
        _ => 0,
    }
}

/// Parses one atom, exactly `spec_atom`.
fn parse_atom(ts: &Vec<Tok>, i: usize, vars: &StrMap, params: &StrMap) -> (r: Option<
    (Value, usize),
>)
    requires
        i <= ts@.len(),
        vars.wf(),
        params.wf(),
    ensures
        match r {
            Some((v, j)) => spec_atom(toks_v(ts@), i as int, vars@, params@) == Some(
                (v@, j as int),
            ) && i < j <= ts@.len(),
            None => spec_atom(toks_v(ts@), i as int, vars@, params@) is None,
        },
{
    proof {
        lemma_toks_v(ts@);
    }
    if i >= ts.len() {
        return None;
    }
    match &ts[i] {
        Tok::Int(n) => Some((Value::Int(*n), i + 1)),
        Tok::Real(s) => Some((Value::Real(s.clone()), i + 1)),
        Tok::Bool(b) => Some((Value::Bool(*b), i + 1)),
        Tok::Null => Some((Value::Null, i + 1)),
        Tok::Ident(w) => match lookup(w.as_str(), vars, params) {
            Some(v) => Some((v, i + 1)),
            None => None,
        },
        _ => None,
    }
}

/// Parses a unary expression, exactly `spec_unary`.
fn parse_unary(ts: &Vec<Tok>, i: usize, vars: &StrMap, params: &StrMap) -> (r: Option<
    (Value, usize),
>)
    requires
        i <= ts@.len(),
        vars.wf(),
        params.wf(),
    ensures
        match r {
            Some((v, j)) => spec_unary(toks_v(ts@), i as int, vars@, params@) == Some(
                (v@, j as int),
            ) && i < j <= ts@.len(),
            None => spec_unary(toks_v(ts@), i as int, vars@, params@) is None,
        },
    decreases ts@.len() - i, 1int, 0int,
{
    proof {
        lemma_toks_v(ts@);
    }
    if i < ts.len() && (matches!(&ts[i], Tok::Bang) || matches!(&ts[i], Tok::Minus)) {
        match parse_unary(ts, i + 1, vars, params) {
            None => None,
            Some((v, j)) => match apply_unary(&ts[i], v) {
                None => None,
                Some(v2) => Some((v2, j)),
            },
        }
    } else {
        parse_atom(ts, i, vars, params)
    }
}

/// Parses a binary expression of precedence `lv`, exactly `spec_bin`.
fn parse_bin(lv: usize, ts: &Vec<Tok>, i: usize, vars: &StrMap, params: &StrMap) -> (r: Option<
    (Value, usize),
>)
    requires
        1 <= lv <= 6,
        i <= ts@.len(),
        vars.wf(),
        params.wf(),
    ensures
        match r {
            Some((v, j)) => spec_bin(lv as int, toks_v(ts@), i as int, vars@, params@) == Some(
                (v@, j as int),
            ) && i < j <= ts@.len(),
            None => spec_bin(lv as int, toks_v(ts@), i as int, vars@, params@) is None,
        },
    decreases ts@.len() - i, 8 - lv, 1int,
{
    proof {
        lemma_toks_v(ts@);
    }
    let first = if lv == 6 {
        parse_unary(ts, i, vars, params)
    } else {
        parse_bin(lv + 1, ts, i, vars, params)
    };
    match first {
        None => None,
        Some((v, j)) => parse_bin_rest(lv, v, ts, j, vars, params),
    }
}

/// Folds further operators, exactly `spec_bin_rest`.
fn parse_bin_rest(
    lv: usize,
    acc: Value,
    ts: &Vec<Tok>,
    i: usize,
    vars: &StrMap,
    params: &StrMap,
) -> (r: Option<(Value, usize)>)
    requires
        1 <= lv <= 6,
        i <= ts@.len(),
        vars.wf(),
        params.wf(),
    ensures
        match r {
            Some((v, j)) => spec_bin_rest(lv as int, acc@, toks_v(ts@), i as int, vars@, params@)
                == Some((v@, j as int)) && i <= j <= ts@.len(),
            None => spec_bin_rest(lv as int, acc@, toks_v(ts@), i as int, vars@, params@) is None,
        },
    decreases ts@.len() - i, 8 - lv, 0int,
{
    proof {
        lemma_toks_v(ts@);
    }
    if i < ts.len() && level_of(&ts[i]) == lv {
        let sub = if lv == 6 {
            parse_unary(ts, i + 1, vars, params)
        } else {
            parse_bin(lv + 1, ts, i + 1, vars, params)
        };
        match sub {
            None => None,
            Some((rhs, j)) => match apply_bin(&ts[i], acc, rhs) {
                None => None,
                Some(v2) => parse_bin_rest(lv, v2, ts, j, vars, params),
            },
        }
    } else {
        Some((acc, i))
    }
}

/// Evaluates a whole token sequence, exactly `spec_eval_toks`.
fn eval_toks(ts: &Vec<Tok>, vars: &StrMap, params: &StrMap) -> (r: Option<Value>)
    requires
        vars.wf(),
        params.wf(),
    ensures
        match r {
            Some(v) => spec_eval_toks(toks_v(ts@), vars@, params@) == Some(v@),
            None => spec_eval_toks(toks_v(ts@), vars@, params@) is None,
        },
{
    proof {
        lemma_toks_v(ts@);
    }
    match parse_bin(1, ts, 0, vars, params) {
        None => None,
        Some((v, j)) => if j == ts.len() {
            Some(v)
        } else {
            None
        },
    }
}

/// Characters allowed inside a `${...}` interpolation token.
pub open spec fn is_expr_char(c: char) -> bool {
    is_ident_char(c) || c == ' ' || c == '.' || c == '+' || c == '-' || c == '*' || c == '/'
        || c == '%' || c == '=' || c == '<' || c == '>' || c == '!' || c == '&' || c == '|'
}

/// Position of the `}` that closes a token whose inside starts at `j`, if
/// only allowed characters stand before it.
pub open spec fn spec_token_close(s: Seq<char>, j: int) -> Option<int>
    decreases s.len() - j,
{
    if j < 0 || j >= s.len() {
        None
    } else if s[j] == '}' {
        Some(j)
    } else if is_expr_char(s[j]) {
        spec_token_close(s, j + 1)
    } else {
        None
    }
}

/// Start and closing-brace positions of the leftmost interpolation token at
/// or after `i`.
pub open spec fn spec_find_token(s: Seq<char>, i: int) -> Option<(int, int)>
    decreases s.len() - i,
{
    if i < 0 || i + 2 > s.len() {
        None
    } else if s[i] == '$' && s[i + 1] == '{' {
        match spec_token_close(s, i + 2) {
            Some(k) => Some((i, k)),
            None => spec_find_token(s, i + 1),
        }
    } else {
        spec_find_token(s, i + 1)
    }
}

/// Text of a value when substituted into a string: `null`, `true`/`false`,
/// decimal digits for an integer, the literal text of a real, the string
/// itself.
pub open spec fn spec_to_string(v: ValueV) -> Seq<char> {
    match v {
        ValueV::Null => "null"@,
        ValueV::Bool(b) => if b {
            "true"@
        } else {
            "false"@
        },
        ValueV::Int(i) => text::spec_dec(i),
        ValueV::Real(s) => s,
        ValueV::Str(s) => s,
    }
}

/// The substitution text of one token's inside: lex, evaluate, render.
pub open spec fn spec_eval_token(
    inner: Seq<char>,
    vars: Map<Seq<char>, NodeV>,
    params: Map<Seq<char>, NodeV>,
) -> Option<Seq<char>> {
    match spec_lex(inner, 0) {
        None => None,
        Some(ts) => match spec_eval_toks(ts, vars, params) {
            None => None,
            Some(v) => Some(spec_to_string(v)),
        },
    }
}

/// One left-to-right substitution pass: each token is replaced by its
/// evaluated text and scanning resumes after the replacement, so replacement
/// text is never expanded again.
pub open spec fn spec_interp(
    s: Seq<char>,
    vars: Map<Seq<char>, NodeV>,
    params: Map<Seq<char>, NodeV>,
) -> Option<Seq<char>>
    decreases s.len(),
{
    match spec_find_token(s, 0) {
        None => Some(s),
        Some((i, k)) => if !(0 <= i && i + 2 <= k && k < s.len()) {
            None
        } else {
            match spec_eval_token(s.subrange(i + 2, k), vars, params) {
                None => None,
                Some(rep) => match spec_interp(s.subrange(k + 1, s.len() as int), vars, params) {
                    None => None,
                    Some(tail) => Some(s.subrange(0, i).add(rep).add(tail)),
                },
            }
        },
    }
}

/// The value of a string leaf: verbatim when it has no token, else the
/// substituted text read back as a scalar.
pub open spec fn spec_eval_str(
    s: Seq<char>,
    vars: Map<Seq<char>, NodeV>,
    params: Map<Seq<char>, NodeV>,
) -> Option<ValueV> {
    if spec_find_token(s, 0) is None {
        Some(ValueV::Str(s))
    } else {
        match spec_interp(s, vars, params) {
            None => None,
            Some(t) => Some(crate::scalar::scalar_of(t)),
        }
    }
}

/// The value of a node under the given scope: leaves convert directly,
/// strings interpolate, containers have no value.
pub open spec fn spec_eval(
    n: NodeV,
    vars: Map<Seq<char>, NodeV>,
    params: Map<Seq<char>, NodeV>,
) -> Option<ValueV> {
    match n {
        NodeV::Str(s) => spec_eval_str(s, vars, params),
        NodeV::Array(_) => None,
        NodeV::Hash(_) => None,
        _ => spec_leaf(n),
    }
}

/// Decides `is_expr_char`.
fn expr_char(c: char) -> (r: bool)
    ensures
        r == is_expr_char(c),
{
    ident_char(c) || c == ' ' || c == '.' || c == '+' || c == '-' || c == '*' || c == '/' || c
        == '%' || c == '=' || c == '<' || c == '>' || c == '!' || c == '&' || c == '|'
}

/// Computes `spec_token_close`.
fn token_close_at(s: &Vec<char>, j: usize) -> (r: Option<usize>)
    requires
        j <= s@.len(),
    ensures
        match r {
            Some(k) => spec_token_close(s@, j as int) == Some(k as int) && j <= k < s@.len(),
            None => spec_token_close(s@, j as int) is None,
        },
{
    let mut k = j;
    loop
        invariant
            j <= k <= s@.len(),
            spec_token_close(s@, j as int) == spec_token_close(s@, k as int),
        decreases s@.len() - k,
    {
        if k >= s.len() {
            return None;
        }
        let c = s[k];
        if c == '}' {
            return Some(k);
        }
        if !expr_char(c) {
            return None;
        }
        k += 1;
    }
}

/// Computes `spec_find_token`.
fn find_token_at(s: &Vec<char>, i: usize) -> (r: Option<(usize, usize)>)
    requires
        i <= s@.len(),
    ensures
        match r {
            Some((a, k)) => spec_find_token(s@, i as int) == Some((a as int, k as int)) && i <= a
                && a + 2 <= k < s@.len(),
            None => spec_find_token(s@, i as int) is None,
        },
{
    let mut p = i;
    loop
        invariant
            i <= p,
            p <= s@.len() + 1,
            spec_find_token(s@, i as int) == spec_find_token(s@, p as int),
        decreases s@.len() + 2 - p,
    {
        if p >= s.len() {
            return None;
        }
        if p + 1 >= s.len() {
            return None;
        }
        if s[p] == '$' && s[p + 1] == '{' {
            match token_close_at(s, p + 2) {
                Some(k) => {
                    return Some((p, k));
                },
                None => {},
            }
        }
        p += 1;
    }
}

/// Renders a value as substitution text, exactly `spec_to_string`.
pub fn value_to_string(val: Value) -> (r: String)
    ensures
        r@ == spec_to_string(val@),
{
    match val {
        Value::Null => String::from_str("null"),
        Value::Bool(b) => if b {
            String::from_str("true")
        } else {
            String::from_str("false")
        },
        Value::Int(i) => text::int_to_string(i),
        Value::Real(s) => s,
        Value::Str(s) => s,
    }
}

/// Evaluates the inside of one token, exactly `spec_eval_token`.
pub fn eval_token(token: &str, vars: &StrMap, params: &StrMap) -> (r: Option<String>)
    requires
        vars.wf(),
        params.wf(),
    ensures
        match r {
            Some(t) => spec_eval_token(token@, vars@, params@) == Some(t@),
            None => spec_eval_token(token@, vars@, params@) is None,
        },
{
    let cs = text::chars_of(token);
    match lex(&cs, 0) {
        None => None,
        Some(ts) => match eval_toks(&ts, vars, params) {
            None => None,
            Some(v) => Some(value_to_string(v)),
        },
    }
}

/// Appends the characters of `src` to `dst`.
fn extend_chars(dst: &mut Vec<char>, src: &Vec<char>)
    ensures
        final(dst)@ == old(dst)@.add(src@),
{
    let mut i: usize = 0;
    while i < src.len()
        invariant
            i <= src@.len(),
            dst@ =~= old(dst)@.add(src@.subrange(0, i as int)),
        decreases src@.len() - i,
    {
        dst.push(src[i]);
        i += 1;
    }
    proof {
        assert(src@.subrange(0, src@.len() as int) =~= src@);
        assert(dst@ =~= old(dst)@.add(src@));
    }
}

/// Performs the substitution pass, exactly `spec_interp`.
fn interp_chars(s: &Vec<char>, vars: &StrMap, params: &StrMap) -> (r: Option<Vec<char>>)
    requires
        vars.wf(),
        params.wf(),
    ensures
        match r {
            Some(o) => spec_interp(s@, vars@, params@) == Some(o@),
            None => spec_interp(s@, vars@, params@) is None,
        },
    decreases s@.len(),
{
    match find_token_at(s, 0) {
        None => Some(subrange_chars(s, 0, s.len())),
        Some((i, k)) => {
            let n = s.len();
            let inner = subrange_chars(s, i + 2, k);
            let inner_s = text::string_of_chars(&inner);
            match eval_token(inner_s.as_str(), vars, params) {
                None => None,
                Some(rep) => {
                    let tail_src = subrange_chars(s, k + 1, n);
                    match interp_chars(&tail_src, vars, params) {
                        None => None,
                        Some(tail) => {
                            let mut out = subrange_chars(s, 0, i);
                            let rep_cs = text::chars_of(rep.as_str());
                            extend_chars(&mut out, &rep_cs);
                            extend_chars(&mut out, &tail);
                            Some(out)
                        },
                    }
                },
            }
        },
    }
}

/// Substitutes every token and reads the result back as a scalar.
pub fn eval_tokens(expr: &String, vars: &StrMap, params: &StrMap) -> (r: Option<Value>)
    requires
        vars.wf(),
        params.wf(),
    ensures
        match r {
            Some(v) => match spec_interp(expr@, vars@, params@) {
                Some(t) => v@ == crate::scalar::scalar_of(t),
                None => false,
            },
            None => spec_interp(expr@, vars@, params@) is None,
        },
{
    let cs = text::chars_of(expr.as_str());
    match interp_chars(&cs, vars, params) {
        None => None,
        Some(t) => {
            let ts = text::string_of_chars(&t);
            Some(crate::scalar::parse_scalar(&ts))
        },
    }
}

/// Evaluates a string leaf, exactly `spec_eval_str`.
pub fn eval_expr(expr: &String, vars: &StrMap, params: &StrMap) -> (r: Option<Value>)
    requires
        vars.wf(),
        params.wf(),
    ensures
        match r {
            Some(v) => spec_eval_str(expr@, vars@, params@) == Some(v@),
            None => spec_eval_str(expr@, vars@, params@) is None,
        },
{
    let cs = text::chars_of(expr.as_str());
    match find_token_at(&cs, 0) {
        None => Some(Value::Str(expr.clone())),
        Some(_) => eval_tokens(expr, vars, params),
    }
}

/// Evaluates a node, exactly `spec_eval`.
pub fn eval(yaml: &Node, vars: &StrMap, params: &StrMap) -> (r: Option<Value>)
    requires
        vars.wf(),
        params.wf(),
    ensures
        match r {
            Some(v) => spec_eval(yaml@, vars@, params@) == Some(v@),
            None => spec_eval(yaml@, vars@, params@) is None,
        },
{
    match yaml {
        Node::Str(s) => eval_expr(s, vars, params),
        Node::Array(_) => None,
        Node::Hash(_) => None,
        _ => yaml_to_value(yaml),
    }
}

/// Converts a value to a 32-bit exit status: an integer in range casts, one
/// out of range becomes `0`, anything else has no status.
pub fn value_to_i32(v: &Value) -> (r: Option<i32>)
    ensures
        match r {
            Some(c) => v@ matches ValueV::Int(x) && c as int == (
            if i32::MIN <= x <= i32::MAX {
                x
            } else {
                0
            }),
            None => !(v@ is Int),
        },
{
    match v {
        Value::Int(x) => {
            if *x >= i32::MIN as i64 && *x <= i32::MAX as i64 {
                Some(*x as i32)
            } else {
                Some(0)
            }
        },
        _ => None,
    }
}

} // verus!
