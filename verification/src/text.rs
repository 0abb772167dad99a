//! Character and string helpers shared by the shortcut grammar.

use vstd::prelude::*;
use vstd::string::*;

verus! {

/// Lower-case form of a character for alias matching: the ASCII capitals and
/// the Kelvin sign (whose lower case is the letter `k`) are folded, every other
/// character stands for itself.
pub open spec fn fold_char(c: char) -> char {
    if 'A' <= c && c <= 'Z' {
        ((c as u32) + 32) as char
    } else if c == '\u{212A}' {
        'k'
    } else {
        c
    }
}

/// Character-wise [`fold_char`].
pub open spec fn fold(s: Seq<char>) -> Seq<char> {
    s.map_values(|c: char| fold_char(c))
}

/// Executable [`fold_char`].
pub fn fold_char_exec(c: char) -> (r: char)
    ensures
        r == fold_char(c),
{
    if 'A' <= c && c <= 'Z' {
        let n: u8 = (c as u8) + 32;
        n as char
    } else if c == '\u{212A}' {
        'k'
    } else {
        c
    }
}

/// The characters that count as blank around a token.
pub open spec fn is_blank(c: char) -> bool {
    let n = c as u32;
    (0x09 <= n && n <= 0x0D) || n == 0x20 || n == 0x85 || n == 0xA0 || n == 0x1680
        || (0x2000 <= n && n <= 0x200A) || n == 0x2028 || n == 0x2029 || n == 0x202F
        || n == 0x205F || n == 0x3000
}

pub fn is_blank_exec(c: char) -> (r: bool)
    ensures
        r == is_blank(c),
{
    let n: u32 = c as u32;
    (0x09 <= n && n <= 0x0D) || n == 0x20 || n == 0x85 || n == 0xA0 || n == 0x1680
        || (0x2000 <= n && n <= 0x200A) || n == 0x2028 || n == 0x2029 || n == 0x202F
        || n == 0x205F || n == 0x3000
}

/// The characters of `s`, each folded to lower case.
pub fn folded_chars(s: &str) -> (r: Vec<char>)
    ensures
        r@ == fold(s@),
{
    let n: usize = s.unicode_len();
    let mut out: Vec<char> = Vec::new();
    let mut i: usize = 0;
    while i < n
        invariant
            n == s@.len(),
            i <= n,
            out@.len() == i,
            forall|j: int| 0 <= j < i ==> out@[j] == fold_char(s@[j]),
        decreases n - i,
    {
        out.push(fold_char_exec(s.get_char(i)));
        i = i + 1;
    }
    assert(out@ =~= fold(s@));
    out
}

/// Whether the characters `w` spell the string `lit`.
pub fn word_is(w: &Vec<char>, lit: &str) -> (r: bool)
    ensures
        r == (w@ == lit@),
{
    let n: usize = lit.unicode_len();
    if w.len() != n {
        return false;
    }
    let mut i: usize = 0;
    while i < n
        invariant
            n == lit@.len(),
            w@.len() == n,
            i <= n,
            forall|j: int| 0 <= j < i ==> w@[j] == lit@[j],
        decreases n - i,
    {
        if w[i] != lit.get_char(i) {
            return false;
        }
        i = i + 1;
    }
    assert(w@ =~= lit@);
    true
}

/// Whether `w` is `lit` followed by exactly one more character.
pub fn word_is_prefixed(w: &Vec<char>, lit: &str) -> (r: bool)
    ensures
        r == (w@.len() == lit@.len() + 1 && w@.subrange(0, lit@.len() as int) == lit@),
{
    let n: usize = lit.unicode_len();
    let m: usize = w.len();
    if m == 0 || m - 1 != n {
        return false;
    }
    let mut i: usize = 0;
    while i < n
        invariant
            n == lit@.len(),
            w@.len() == n + 1,
            i <= n,
            forall|j: int| 0 <= j < i ==> w@[j] == lit@[j],
        decreases n - i,
    {
        if w[i] != lit.get_char(i) {
            assert(w@.subrange(0, n as int)[i as int] == w@[i as int]);
            return false;
        }
        i = i + 1;
    }
    assert(w@.subrange(0, n as int) =~= lit@);
    true
}

/// The characters of `s`.
pub fn chars_of(s: &str) -> (r: Vec<char>)
    ensures
        r@ == s@,
{
    let n: usize = s.unicode_len();
    let mut out: Vec<char> = Vec::new();
    let mut i: usize = 0;
    while i < n
        invariant
            n == s@.len(),
            i <= n,
            out@.len() == i,
            forall|j: int| 0 <= j < i ==> out@[j] == s@[j],
        decreases n - i,
    {
        out.push(s.get_char(i));
        i = i + 1;
    }
    assert(out@ =~= s@);
    out
}

/// `s` with every occurrence of `from` replaced by `to`, found from left to
/// right without overlap. An empty `from` occurs nowhere.
pub open spec fn replaced(s: Seq<char>, from: Seq<char>, to: Seq<char>) -> Seq<char>
    decreases s.len(),
{
    if from.len() == 0 || s.len() < from.len() {
        s
    } else if s.subrange(0, from.len() as int) == from {
        to + replaced(s.subrange(from.len() as int, s.len() as int), from, to)
    } else {
        seq![s[0]] + replaced(s.drop_first(), from, to)
    }
}

/// Whether `from` stands in `s` at position `i`.
pub(crate) fn occurs_at(s: &Vec<char>, i: usize, from: &Vec<char>) -> (r: bool)
    requires
        i <= s@.len(),
        from@.len() <= s@.len() - i,
    ensures
        r == (s@.subrange(i as int, i + from@.len()) == from@),
{
    let m: usize = from.len();
    let mut j: usize = 0;
    while j < m
        invariant
            m == from@.len(),
            i + m <= s.len(),
            j <= m,
            forall|k: int| 0 <= k < j ==> s@[i + k] == from@[k],
        decreases m - j,
    {
        if s[i + j] != from[j] {
            assert(s@.subrange(i as int, i + m)[j as int] == s@[i + j]);
            return false;
        }
        j = j + 1;
    }
    assert(s@.subrange(i as int, i + m) =~= from@);
    true
}

/// Replaces every occurrence of `from` in `s` by `to`.
pub fn replace_all(s: &str, from: &str, to: &str) -> (r: String)
    ensures
        r@ == replaced(s@, from@, to@),
{
    let text = chars_of(s);
    let pattern = chars_of(from);
    let n: usize = text.len();
    let m: usize = pattern.len();
    if m == 0 {
        return String::from_str(s);
    }
    let mut out = String::new();
    let mut i: usize = 0;
    proof {
        assert(s@.subrange(0, n as int) =~= s@);
    }
    while i < n
        invariant
            text@ == s@,
            pattern@ == from@,
            n == s@.len(),
            m == from@.len(),
            m > 0,
            i <= n,
            out@ + replaced(s@.subrange(i as int, n as int), from@, to@) == replaced(
                s@,
                from@,
                to@,
            ),
        decreases n - i,
    {
        let ghost rest = s@.subrange(i as int, n as int);
        if m <= n - i && occurs_at(&text, i, &pattern) {
            proof {
                assert(rest.subrange(0, m as int) =~= s@.subrange(i as int, i + m));
                assert(rest.subrange(m as int, rest.len() as int) =~= s@.subrange(i + m, n as int));
                assert(out@ + (to@ + replaced(s@.subrange(i + m, n as int), from@, to@)) =~= (out@
                    + to@) + replaced(s@.subrange(i + m, n as int), from@, to@));
            }
            out.append(to);
            i = i + m;
        } else {
            let one = s.substring_char(i, i + 1);
            proof {
                if m <= n - i {
                    assert(rest.subrange(0, m as int) =~= s@.subrange(i as int, i + m));
                }
                assert(rest.drop_first() =~= s@.subrange(i + 1, n as int));
                assert(one@ =~= seq![rest[0]]);
                if rest.len() >= m {
                    assert(out@ + (seq![rest[0]] + replaced(rest.drop_first(), from@, to@)) =~= (
                    out@ + one@) + replaced(s@.subrange(i + 1, n as int), from@, to@));
                } else {
                    lemma_replaced_short(rest, from@, to@);
                    lemma_replaced_short(rest.drop_first(), from@, to@);
                    assert(out@ + rest =~= (out@ + one@) + rest.drop_first());
                }
            }
            out.append(one);
            i = i + 1;
        }
    }
    proof {
        assert(s@.subrange(n as int, n as int) =~= Seq::<char>::empty());
        assert(out@ + Seq::<char>::empty() =~= out@);
    }
    out
}

/// A string shorter than the pattern holds no occurrence of it.
pub proof fn lemma_replaced_short(s: Seq<char>, from: Seq<char>, to: Seq<char>)
    requires
        s.len() < from.len(),
    ensures
        replaced(s, from, to) == s,
{
}

/// Whether two strings hold the same characters.
pub fn str_eq(a: &str, b: &str) -> (r: bool)
    ensures
        r == (a@ == b@),
{
    let w = chars_of(a);
    word_is(&w, b)
}

/// Whether `s` ends with `suffix`.
pub open spec fn ends_with(s: Seq<char>, suffix: Seq<char>) -> bool {
    s.len() >= suffix.len() && s.subrange(s.len() - suffix.len(), s.len() as int) == suffix
}

/// Whether the characters `w` end with the string `suffix`.
pub fn word_ends_with(w: &Vec<char>, suffix: &str) -> (r: bool)
    ensures
        r == ends_with(w@, suffix@),
{
    let n: usize = suffix.unicode_len();
    let m: usize = w.len();
    if m < n {
        return false;
    }
    let start: usize = m - n;
    let mut i: usize = 0;
    while i < n
        invariant
            n == suffix@.len(),
            m == w@.len(),
            start + n == m,
            i <= n,
            forall|j: int| 0 <= j < i ==> w@[start + j] == suffix@[j],
        decreases n - i,
    {
        if w[start + i] != suffix.get_char(i) {
            assert(w@.subrange(start as int, m as int)[i as int] == w@[start + i]);
            return false;
        }
        i = i + 1;
    }
    assert(w@.subrange(start as int, m as int) =~= suffix@);
    true
}

} // verus!
