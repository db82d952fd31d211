//! Decimal numbers, kept as the text that spells them.
use vstd::prelude::*;
use crate::chars::string_of;

verus! {

/// One of the ten decimal digits.
pub open spec fn is_digit(c: char) -> bool {
    '0' <= c && c <= '9'
}

/// A plus or a minus.
pub open spec fn is_sign(c: char) -> bool {
    c == '+' || c == '-'
}

/// `c` is one letter in either case, given as `lower` and `upper`.
pub open spec fn is_letter(c: char, lower: char, upper: char) -> bool {
    c == lower || c == upper
}

/// The first place at or after `from` that holds no digit.
pub open spec fn digits_end(s: Seq<char>, from: int) -> int
    decreases s.len() - from,
{
    if 0 <= from < s.len() && is_digit(s[from]) {
        digits_end(s, from + 1)
    } else {
        from
    }
}

/// From `at` to the end stands an exponent: `e`, an optional sign, digits.
pub open spec fn is_exponent(s: Seq<char>, at: int) -> bool {
    &&& 0 <= at < s.len()
    &&& is_letter(s[at], 'e', 'E')
    &&& {
        let k = if at + 1 < s.len() && is_sign(s[at + 1]) {
            at + 2
        } else {
            at + 1
        };
        k < s.len() && digits_end(s, k) == s.len()
    }
}

/// From `from` to the end stands a number: digits with at most one point
/// among them, at least one digit in all, and an optional exponent.
pub open spec fn is_finite(s: Seq<char>, from: int) -> bool {
    let i = digits_end(s, from);
    let point = i < s.len() && s[i] == '.';
    let f = if point { i + 1 } else { i };
    let j = if point { digits_end(s, f) } else { f };
    &&& (i - from) + (j - f) > 0
    &&& (j == s.len() || is_exponent(s, j))
}

/// From `from` to the end stands `inf`, `infinity` or `nan`, in any case.
pub open spec fn is_special(s: Seq<char>, from: int) -> bool {
    let n = s.len() - from;
    ||| n == 3 && is_letter(s[from], 'i', 'I') && is_letter(s[from + 1], 'n', 'N') && is_letter(
        s[from + 2],
        'f',
        'F',
    )
    ||| n == 3 && is_letter(s[from], 'n', 'N') && is_letter(s[from + 1], 'a', 'A') && is_letter(
        s[from + 2],
        'n',
        'N',
    )
    ||| n == 8 && is_letter(s[from], 'i', 'I') && is_letter(s[from + 1], 'n', 'N') && is_letter(
        s[from + 2],
        'f',
        'F',
    ) && is_letter(s[from + 3], 'i', 'I') && is_letter(s[from + 4], 'n', 'N') && is_letter(
        s[from + 5],
        'i',
        'I',
    ) && is_letter(s[from + 6], 't', 'T') && is_letter(s[from + 7], 'y', 'Y')
}

/// The text spells a decimal number in the grammar that the standard
/// library documents for parsing a single-precision number from a string:
/// an optional sign, then a number or one of the special words, with
/// nothing before or after.
pub open spec fn is_decimal(s: Seq<char>) -> bool {
    let from: int = if s.len() > 0 && is_sign(s[0]) { 1 } else { 0 };
    is_special(s, from) || is_finite(s, from)
}

/// A decimal number, held as its spelling.
#[derive(Clone, Debug, PartialEq, Eq)]
pub struct Number {
    pub text: String,
}

impl View for Number {
    type V = Seq<char>;

    open spec fn view(&self) -> Seq<char> {
        self.text@
    }
}

impl Number {
    /// The spelling is one that the decimal parse accepts.
    pub open spec fn wf(&self) -> bool {
        is_decimal(self.text@)
    }
}

fn digit(c: char) -> (b: bool)
    ensures
        b == is_digit(c),
{
    '0' <= c && c <= '9'
}

fn letter(c: char, lower: char, upper: char) -> (b: bool)
    ensures
        b == is_letter(c, lower, upper),
{
    c == lower || c == upper
}

fn scan_digits(v: &Vec<char>, from: usize) -> (end: usize)
    requires
        from <= v@.len(),
    ensures
        end == digits_end(v@, from as int),
        from <= end <= v@.len(),
{
    let mut k: usize = from;
    while k < v.len() && digit(v[k])
        invariant
            from <= k <= v@.len(),
            digits_end(v@, from as int) == digits_end(v@, k as int),
        decreases v@.len() - k,
    {
        k += 1;
    }
    k
}

fn exponent_at(v: &Vec<char>, at: usize) -> (b: bool)
    requires
        at < v.len(),
    ensures
        b == is_exponent(v@, at as int),
{
    if !letter(v[at], 'e', 'E') {
        return false;
    }
    let k: usize = if at + 1 < v.len() && (v[at + 1] == '+' || v[at + 1] == '-') {
        at + 2
    } else {
        at + 1
    };
    k < v.len() && scan_digits(v, k) == v.len()
}

fn finite_from(v: &Vec<char>, from: usize) -> (b: bool)
    requires
        from <= v@.len(),
    ensures
        b == is_finite(v@, from as int),
{
    let i: usize = scan_digits(v, from);
    let point: bool = i < v.len() && v[i] == '.';
    let f: usize = if point { i + 1 } else { i };
    let j: usize = if point { scan_digits(v, f) } else { f };
    if (i - from) + (j - f) == 0 {
        return false;
    }
    j == v.len() || exponent_at(v, j)
}

fn special_from(v: &Vec<char>, from: usize) -> (b: bool)
    requires
        from <= v@.len(),
    ensures
        b == is_special(v@, from as int),
{
    let n: usize = v.len() - from;
    if n == 3 {
        (letter(v[from], 'i', 'I') && letter(v[from + 1], 'n', 'N') && letter(v[from + 2], 'f', 'F'))
            || (letter(v[from], 'n', 'N') && letter(v[from + 1], 'a', 'A') && letter(
            v[from + 2],
            'n',
            'N',
        ))
    } else if n == 8 {
        letter(v[from], 'i', 'I') && letter(v[from + 1], 'n', 'N') && letter(v[from + 2], 'f', 'F')
            && letter(v[from + 3], 'i', 'I') && letter(v[from + 4], 'n', 'N') && letter(
            v[from + 5],
            'i',
            'I',
        ) && letter(v[from + 6], 't', 'T') && letter(v[from + 7], 'y', 'Y')
    } else {
        false
    }
}

/// Reads `v[..len]` as a decimal number: `Some` exactly where that text
/// spells one, and then with that very spelling.
pub fn read_number(v: &Vec<char>, len: usize) -> (res: Option<Number>)
    requires
        len <= v@.len(),
    ensures
        match res {
            Some(n) => is_decimal(v@.take(len as int)) && n@ == v@.take(len as int),
            None => !is_decimal(v@.take(len as int)),
        },
{
    let s = string_of(v, 0, len);
    let w = crate::chars::chars_of(s.as_str());
    assert(w@ == v@.take(len as int));
    let from: usize = if w.len() > 0 && (w[0] == '+' || w[0] == '-') { 1 } else { 0 };
    if special_from(&w, from) || finite_from(&w, from) {
        Some(Number { text: s })
    } else {
        None
    }
}

} // verus!
