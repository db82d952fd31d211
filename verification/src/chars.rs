//! Character-level helpers on strings.
use vstd::prelude::*;
use vstd::std_specs::iter::IteratorSpec;

verus! {

/// `String::push` appends one character at the end.
pub assume_specification[ String::push ](s: &mut String, c: char)
    ensures
        final(s)@ == old(s)@.push(c),
;

/// `text` ends with `suffix`.
pub open spec fn has_suffix(text: Seq<char>, suffix: Seq<char>) -> bool {
    suffix.len() <= text.len() && text.subrange(text.len() - suffix.len(), text.len() as int)
        == suffix
}

/// `text` without its last `n` characters.
pub open spec fn without_last(text: Seq<char>, n: int) -> Seq<char>
    recommends
        0 <= n <= text.len(),
{
    text.subrange(0, text.len() - n)
}

/// The characters of a string, one by one.
pub fn chars_of(s: &str) -> (v: Vec<char>)
    ensures
        v@ == s@,
{
    broadcast use vstd::string::group_string_axioms;

    let mut v: Vec<char> = Vec::new();
    let mut rest = s.chars();
    assert(v@ + IteratorSpec::remaining(&rest) =~= s@);
    loop
        invariant
            v@ + IteratorSpec::remaining(&rest) == s@,
            IteratorSpec::decrease(&rest) is Some,
        ensures
            v@ == s@,
        decreases IteratorSpec::decrease(&rest)->0,
    {
        let ghost before = IteratorSpec::remaining(&rest);
        match rest.next() {
            Some(c) => {
                v.push(c);
                assert(v@ + IteratorSpec::remaining(&rest) =~= s@) by {
                    assert(before =~= seq![c] + before.drop_first());
                }
            },
            None => {
                assert(before.len() == 0);
                assert(v@ + before =~= v@);
                break ;
            },
        }
    }
    v
}

/// A string made of the characters `v[from..to]`.
pub fn string_of(v: &Vec<char>, from: usize, to: usize) -> (s: String)
    requires
        from <= to <= v@.len(),
    ensures
        s@ == v@.subrange(from as int, to as int),
{
    let mut s = String::new();
    let mut i: usize = from;
    while i < to
        invariant
            from <= i <= to,
            to <= v@.len(),
            s@ == v@.subrange(from as int, i as int),
        decreases to - i,
    {
        s.push(v[i]);
        i += 1;
        assert(s@ =~= v@.subrange(from as int, i as int));
    }
    s
}

/// Whether the characters are exactly those of `word`.
pub fn is_word(v: &Vec<char>, word: &str) -> (b: bool)
    ensures
        b == (v@ == word@),
{
    let w = chars_of(word);
    if v.len() != w.len() {
        return false;
    }
    let mut i: usize = 0;
    while i < v.len()
        invariant
            i <= v@.len(),
            v@.len() == w@.len(),
            w@ == word@,
            forall|k: int| 0 <= k < i ==> v@[k] == w@[k],
        decreases v@.len() - i,
    {
        if v[i] != w[i] {
            assert(v@[i as int] != word@[i as int]);
            return false;
        }
        i += 1;
    }
    assert(v@ =~= w@);
    true
}

/// Whether two strings hold the same characters.
pub fn same_text(a: &str, b: &str) -> (same: bool)
    ensures
        same == (a@ == b@),
{
    let v = chars_of(a);
    is_word(&v, b)
}

/// Whether the characters end with those of `suffix`.
pub fn ends_with(v: &Vec<char>, suffix: &str) -> (b: bool)
    ensures
        b == has_suffix(v@, suffix@),
{
    let w = chars_of(suffix);
    if w.len() > v.len() {
        return false;
    }
    let start: usize = v.len() - w.len();
    let mut i: usize = 0;
    while i < w.len()
        invariant
            i <= w.len(),
            start + w.len() == v.len(),
            w@ == suffix@,
            forall|k: int| 0 <= k < i ==> v@[start + k] == w@[k],
        decreases w.len() - i,
    {
        if v[start + i] != w[i] {
            assert(v@.subrange(start as int, v@.len() as int)[i as int] != w@[i as int]);
            return false;
        }
        i += 1;
    }
    assert(v@.subrange(start as int, v@.len() as int) =~= w@);
    true
}

/// `prefix` followed by `rest`, as a new string.
pub fn joined(prefix: &str, rest: &str) -> (s: String)
    ensures
        s@ == prefix@ + rest@,
{
    String::from_str(prefix).concat(rest)
}

/// White space as Unicode defines it.
pub open spec fn is_space(c: char) -> bool {
    let u = c as u32;
    ||| 0x09 <= u <= 0x0D
    ||| u == 0x20
    ||| u == 0x85
    ||| u == 0xA0
    ||| u == 0x1680
    ||| 0x2000 <= u <= 0x200A
    ||| u == 0x2028
    ||| u == 0x2029
    ||| u == 0x202F
    ||| u == 0x205F
    ||| u == 0x3000
}

/// The first place at or after `from` that holds no white space.
pub open spec fn spaces_end(s: Seq<char>, from: int) -> int
    decreases s.len() - from,
{
    if 0 <= from < s.len() && is_space(s[from]) {
        spaces_end(s, from + 1)
    } else {
        from
    }
}

/// The place after the last character before `to` and not before `low`
/// that is no white space.
pub open spec fn spaces_start(s: Seq<char>, low: int, to: int) -> int
    decreases to,
{
    if 0 <= low < to <= s.len() && is_space(s[to - 1]) {
        spaces_start(s, low, to - 1)
    } else {
        to
    }
}

/// `s[low..high]` with each run of white space replaced by one space.
pub open spec fn squeezed(s: Seq<char>, low: int, high: int) -> Seq<char>
    decreases high - low,
{
    if high <= low || low < 0 || high > s.len() {
        Seq::empty()
    } else if !is_space(s[high - 1]) {
        squeezed(s, low, high - 1).push(s[high - 1])
    } else if high - 1 > low && is_space(s[high - 2]) {
        squeezed(s, low, high - 1)
    } else {
        squeezed(s, low, high - 1).push(' ')
    }
}

/// The text without white space at either end and with each run of white
/// space inside it replaced by one space.
pub open spec fn collapsed(s: Seq<char>) -> Seq<char> {
    let low = spaces_end(s, 0);
    let high = spaces_start(s, low, s.len() as int);
    squeezed(s, low, high)
}

/// Whether `c` is white space.
pub fn space(c: char) -> (b: bool)
    ensures
        b == is_space(c),
{
    let u: u32 = c as u32;
    (0x09 <= u && u <= 0x0D) || u == 0x20 || u == 0x85 || u == 0xA0 || u == 0x1680 || (0x2000 <= u
        && u <= 0x200A) || u == 0x2028 || u == 0x2029 || u == 0x202F || u == 0x205F || u == 0x3000
}

/// Appends the collapsed form of `text` to `out`.
pub fn collapse_into(text: &str, out: &mut String)
    ensures
        final(out)@ == old(out)@ + collapsed(text@),
{
    let v = chars_of(text);
    let mut low: usize = 0;
    while low < v.len() && space(v[low])
        invariant
            low <= v.len(),
            spaces_end(v@, 0) == spaces_end(v@, low as int),
        decreases v.len() - low,
    {
        low += 1;
    }
    let mut high: usize = v.len();
    while low < high && space(v[high - 1])
        invariant
            low <= high <= v.len(),
            spaces_start(v@, low as int, v@.len() as int) == spaces_start(
                v@,
                low as int,
                high as int,
            ),
        decreases high,
    {
        high -= 1;
    }
    let mut i: usize = low;
    let mut was_space: bool = false;
    assert(old(out)@ + Seq::<char>::empty() =~= old(out)@);
    while i < high
        invariant
            low <= i <= high <= v.len(),
            was_space == (i > low && is_space(v@[i - 1])),
            out@ == old(out)@ + squeezed(v@, low as int, i as int),
        decreases high - i,
    {
        let c: char = v[i];
        let ghost before = squeezed(v@, low as int, i as int);
        if space(c) {
            if !was_space {
                out.push(' ');
                assert(out@ =~= old(out)@ + before.push(' '));
            }
            was_space = true;
        } else {
            was_space = false;
            out.push(c);
            assert(out@ =~= old(out)@ + before.push(c));
        }
        i += 1;
    }
}

} // verus!
