//! The shortcut grammar: modifier and key names joined by `+`.
//!
//! A string is cut into segments at every `+`. Each segment, with the blanks
//! around it removed, names a modifier or a key, without regard to case. A
//! shortcut has at least one modifier and exactly one key.

use vstd::prelude::*;
use vstd::string::*;
use crate::errors::{GrammarError, GrammarFault};
use crate::keys::{
    code_name, code_of_alias, code_to_string, modifier_of_word, string_to_code, word_to_modifier,
    Code, Modifier, Modifiers,
};
use crate::text::{fold, folded_chars, is_blank, is_blank_exec, replace_all, replaced};

verus! {

/// A shortcut by structure: a set of modifiers and one key. Two shortcuts are
/// equal when both parts are, however they were written.
#[derive(Clone, Copy, Debug, PartialEq, Eq, Hash, Structural)]
pub struct Shortcut {
    pub modifiers: Modifiers,
    pub key: Code,
}

impl Shortcut {
    /// A shortcut that can be registered holds at least one modifier.
    pub open spec fn is_valid(self) -> bool {
        !self.modifiers.spec_is_empty()
    }
}

/// What has been read of a shortcut so far.
#[derive(Clone, Copy, Debug, PartialEq, Eq, Structural)]
pub struct Scan {
    pub modifiers: Modifiers,
    pub key: Option<Code>,
}

/// The segments of `s` between its `+` separators, in order. A string without
/// a separator is one segment; two separators in a row hold an empty one.
pub open spec fn segments(s: Seq<char>) -> Seq<Seq<char>>
    decreases s.len(),
{
    if s.len() == 0 {
        seq![Seq::<char>::empty()]
    } else {
        let before = segments(s.drop_last());
        if s.last() == '+' {
            before.push(Seq::<char>::empty())
        } else {
            before.update(before.len() - 1, before.last().push(s.last()))
        }
    }
}

/// `t` without the blanks at its two ends.
pub open spec fn trim(t: Seq<char>) -> Seq<char>
    decreases t.len(),
{
    if t.len() == 0 {
        t
    } else if is_blank(t[0]) {
        trim(t.drop_first())
    } else if is_blank(t.last()) {
        trim(t.drop_last())
    } else {
        t
    }
}

/// Reading one more segment: a modifier joins the set, the first key is
/// kept, and anything else is an error.
pub open spec fn scan_token(acc: Scan, segment: Seq<char>) -> Result<Scan, GrammarFault> {
    let token = trim(segment);
    if token.len() == 0 {
        Err(GrammarFault::EmptyToken)
    } else {
        match modifier_of_word(fold(token)) {
            Some(m) => Ok(Scan { modifiers: acc.modifiers.spec_with(m), key: acc.key }),
            None => if acc.key is Some {
                Err(GrammarFault::DuplicateKey)
            } else {
                match code_of_alias(token) {
                    Some(c) => Ok(Scan { modifiers: acc.modifiers, key: Some(c) }),
                    None => Err(GrammarFault::UnknownKey(token)),
                }
            },
        }
    }
}

/// Reading the segments from left to right; the first error ends it.
pub open spec fn scan(tokens: Seq<Seq<char>>) -> Result<Scan, GrammarFault>
    decreases tokens.len(),
{
    if tokens.len() == 0 {
        Ok(Scan { modifiers: Modifiers::spec_empty(), key: None })
    } else {
        match scan(tokens.drop_last()) {
            Ok(acc) => scan_token(acc, tokens.last()),
            Err(e) => Err(e),
        }
    }
}

/// The shortcut that `s` spells, or why it spells none.
pub open spec fn parse(s: Seq<char>) -> Result<Shortcut, GrammarFault> {
    match scan(segments(s)) {
        Err(e) => Err(e),
        Ok(acc) => match acc.key {
            None => Err(GrammarFault::MissingKey),
            Some(key) => if acc.modifiers.spec_is_empty() {
                Err(GrammarFault::MissingModifier)
            } else {
                Ok(Shortcut { modifiers: acc.modifiers, key })
            },
        },
    }
}

/// The names of the modifiers in `m`, in the fixed order Cmd, Shift, Alt,
/// Ctrl, each followed by the separator.
pub open spec fn modifier_prefix(m: Modifiers) -> Seq<char> {
    (if m.cmd { "Cmd+"@ } else { Seq::<char>::empty() })
        + (if m.shift { "Shift+"@ } else { Seq::<char>::empty() })
        + (if m.alt { "Alt+"@ } else { Seq::<char>::empty() })
        + (if m.ctrl { "Ctrl+"@ } else { Seq::<char>::empty() })
}

/// The canonical string of a shortcut: its modifiers in the fixed order, then
/// the canonical name of its key, joined by `+`.
pub open spec fn canonical(sc: Shortcut) -> Seq<char> {
    modifier_prefix(sc.modifiers) + code_name(sc.key)
}

/// The canonical string of what `s` spells.
pub open spec fn normalize(s: Seq<char>) -> Result<Seq<char>, GrammarFault> {
    match parse(s) {
        Ok(sc) => Ok(canonical(sc)),
        Err(e) => Err(e),
    }
}

/// A scan result over plain values.
pub open spec fn scan_view(r: Result<Scan, GrammarError>) -> Result<Scan, GrammarFault> {
    match r {
        Ok(acc) => Ok(acc),
        Err(e) => Err(e@),
    }
}

/// A parse result over plain values.
pub open spec fn parse_view(r: Result<Shortcut, GrammarError>) -> Result<Shortcut, GrammarFault> {
    match r {
        Ok(sc) => Ok(sc),
        Err(e) => Err(e@),
    }
}

/// With the blanks before `a` and from `b` on, and none at `a` and before
/// `b`, what is left of `t` is what lies between the two.
pub proof fn lemma_trim_bounds(t: Seq<char>, a: int, b: int)
    requires
        0 <= a <= b <= t.len(),
        forall|j: int| 0 <= j < a ==> is_blank(t[j]),
        forall|j: int| b <= j < t.len() ==> is_blank(t[j]),
        a < b ==> !is_blank(t[a]) && !is_blank(t[b - 1]),
    ensures
        trim(t) == t.subrange(a, b),
    decreases t.len(),
{
    if t.len() == 0 {
        assert(t.subrange(a, b) =~= t);
    } else if is_blank(t[0]) {
        let u = t.drop_first();
        if a > 0 {
            assert forall|j: int| 0 <= j < a - 1 implies is_blank(u[j]) by {
                assert(u[j] == t[j + 1]);
            }
            assert forall|j: int| b - 1 <= j < u.len() implies is_blank(u[j]) by {
                assert(u[j] == t[j + 1]);
            }
            lemma_trim_bounds(u, a - 1, b - 1);
            assert(u.subrange(a - 1, b - 1) =~= t.subrange(a, b));
        } else {
            assert(a == b);
            assert forall|j: int| 0 <= j < u.len() implies is_blank(u[j]) by {
                assert(u[j] == t[j + 1]);
            }
            lemma_trim_bounds(u, 0, 0);
            assert(u.subrange(0, 0) =~= t.subrange(a, b));
        }
    } else {
        assert(a == 0);
        assert(a < b);
        if is_blank(t.last()) {
            let u = t.drop_last();
            assert(b < t.len());
            assert forall|j: int| b <= j < u.len() implies is_blank(u[j]) by {
                assert(u[j] == t[j]);
            }
            lemma_trim_bounds(u, a, b);
            assert(u.subrange(a, b) =~= t.subrange(a, b));
        } else {
            assert(b == t.len());
            assert(t.subrange(a, b) =~= t);
        }
    }
}

/// Reads the segment of `s` from `start` up to `end` into `acc`.
fn take_token(s: &str, start: usize, end: usize, acc: Scan) -> (r: Result<Scan, GrammarError>)
    requires
        start <= end <= s@.len(),
    ensures
        scan_view(r) == scan_token(acc, s@.subrange(start as int, end as int)),
{
    let ghost seg = s@.subrange(start as int, end as int);
    let mut a: usize = start;
    while a < end && is_blank_exec(s.get_char(a))
        invariant
            start <= a <= end <= s@.len(),
            forall|j: int| start <= j < a ==> is_blank(s@[j]),
        decreases end - a,
    {
        a = a + 1;
    }
    let mut b: usize = end;
    while b > a && is_blank_exec(s.get_char(b - 1))
        invariant
            a <= b <= end <= s@.len(),
            forall|j: int| b <= j < end ==> is_blank(s@[j]),
        decreases b,
    {
        b = b - 1;
    }
    let token = s.substring_char(a, b);
    proof {
        lemma_trim_bounds(seg, a - start, b - start);
        assert(seg.subrange(a - start, b - start) =~= s@.subrange(a as int, b as int));
    }
    if a == b {
        return Err(GrammarError::EmptyToken);
    }
    let w = folded_chars(token);
    match word_to_modifier(&w) {
        Some(m) => {
            let mut modifiers = acc.modifiers;
            modifiers.insert(m);
            Ok(Scan { modifiers, key: acc.key })
        },
        None => {
            if acc.key.is_some() {
                return Err(GrammarError::DuplicateKey);
            }
            match string_to_code(token) {
                Ok(c) => Ok(Scan { modifiers: acc.modifiers, key: Some(c) }),
                Err(e) => Err(e),
            }
        },
    }
}

/// Parses a shortcut string.
///
/// The segments are read from left to right, and the first error found is the
/// one reported: a blank segment, a second key, an unknown key. A string
/// that reads to its end is then refused if it names no key, or no modifier.
pub fn parse_shortcut_parts(shortcut_str: &str) -> (r: Result<Shortcut, GrammarError>)
    ensures
        parse_view(r) == parse(shortcut_str@),
{
    let s = shortcut_str;
    let n: usize = s.unicode_len();
    let mut outcome: Result<Scan, GrammarError> = Ok(
        Scan { modifiers: Modifiers::empty(), key: None },
    );
    let ghost mut done: Seq<Seq<char>> = Seq::empty();
    let mut start: usize = 0;
    let mut i: usize = 0;
    proof {
        assert(s@.subrange(0, 0) =~= Seq::<char>::empty());
        assert(segments(s@.subrange(0, 0)) =~= done.push(s@.subrange(0, 0)));
    }
    while i < n
        invariant
            n == s@.len(),
            start <= i <= n,
            segments(s@.subrange(0, i as int)) == done.push(s@.subrange(start as int, i as int)),
            scan(done) == scan_view(outcome),
        decreases n - i,
    {
        let ghost prefix = s@.subrange(0, i as int);
        let ghost next = s@.subrange(0, i + 1);
        proof {
            assert(next.drop_last() =~= prefix);
            assert(next.last() == s@[i as int]);
        }
        if s.get_char(i) == '+' {
            let ghost seg = s@.subrange(start as int, i as int);
            outcome = match outcome {
                Ok(acc) => take_token(s, start, i, acc),
                Err(e) => Err(e),
            };
            proof {
                assert(done.push(seg).drop_last() =~= done);
                done = done.push(seg);
                assert(s@.subrange(i + 1, i + 1) =~= Seq::<char>::empty());
            }
            start = i + 1;
        } else {
            proof {
                let before = segments(prefix);
                assert(before.update(before.len() - 1, before.last().push(s@[i as int]))
                    =~= done.push(s@.subrange(start as int, i + 1))) by {
                    assert(s@.subrange(start as int, i as int).push(s@[i as int])
                        =~= s@.subrange(start as int, i + 1));
                }
            }
        }
        i = i + 1;
    }
    let ghost seg = s@.subrange(start as int, n as int);
    outcome = match outcome {
        Ok(acc) => take_token(s, start, n, acc),
        Err(e) => Err(e),
    };
    proof {
        assert(s@.subrange(0, n as int) =~= s@);
        assert(done.push(seg).drop_last() =~= done);
    }
    match outcome {
        Err(e) => Err(e),
        Ok(acc) => match acc.key {
            None => Err(GrammarError::MissingKey),
            Some(key) => {
                if acc.modifiers.is_empty() {
                    Err(GrammarError::MissingModifier)
                } else {
                    Ok(Shortcut { modifiers: acc.modifiers, key })
                }
            },
        },
    }
}

/// Writes a shortcut in its canonical form.
pub fn shortcut_parts_to_string(parts: &Shortcut) -> (r: String)
    ensures
        r@ == canonical(*parts),
{
    let mut out = String::new();
    if parts.modifiers.contains(Modifier::Cmd) {
        out.append("Cmd+");
    }
    if parts.modifiers.contains(Modifier::Shift) {
        out.append("Shift+");
    }
    if parts.modifiers.contains(Modifier::Alt) {
        out.append("Alt+");
    }
    if parts.modifiers.contains(Modifier::Ctrl) {
        out.append("Ctrl+");
    }
    let name = code_to_string(parts.key);
    out.append(name.as_str());
    assert(out@ =~= canonical(*parts));
    out
}

/// Parses a shortcut string into the shortcut that is registered.
pub fn parse_shortcut(shortcut_str: &str) -> (r: Result<Shortcut, GrammarError>)
    ensures
        parse_view(r) == parse(shortcut_str@),
{
    parse_shortcut_parts(shortcut_str)
}

/// Rewrites a shortcut string in its canonical form.
pub fn normalize_shortcut_string(shortcut_str: &str) -> (r: Result<String, GrammarError>)
    ensures
        match normalize(shortcut_str@) {
            Ok(text) => r is Ok && r->Ok_0@ == text,
            Err(f) => r is Err && r->Err_0@ == f,
        },
{
    match parse_shortcut_parts(shortcut_str) {
        Ok(parts) => Ok(shortcut_parts_to_string(&parts)),
        Err(e) => Err(e),
    }
}

/// Parses a shortcut string and hands back its canonical form with it.
pub fn normalize_and_parse(shortcut_str: &str) -> (r: Result<(String, Shortcut), GrammarError>)
    ensures
        match parse(shortcut_str@) {
            Ok(sc) => r is Ok && r->Ok_0.0@ == canonical(sc) && r->Ok_0.1 == sc,
            Err(f) => r is Err && r->Err_0@ == f,
        },
{
    match parse_shortcut_parts(shortcut_str) {
        Ok(parts) => Ok((shortcut_parts_to_string(&parts), parts)),
        Err(e) => Err(e),
    }
}

/// The glyphs of the modifiers in `m`, in the fixed order.
pub open spec fn modifier_glyphs(m: Modifiers) -> Seq<char> {
    (if m.cmd { "\u{2318}"@ } else { Seq::<char>::empty() })
        + (if m.shift { "\u{21E7}"@ } else { Seq::<char>::empty() })
        + (if m.alt { "\u{2325}"@ } else { Seq::<char>::empty() })
        + (if m.ctrl { "\u{2303}"@ } else { Seq::<char>::empty() })
}

/// How a shortcut is shown: the glyphs of its modifiers and the name of its
/// key, with nothing between them. It is for the eye only; nothing is
/// compared or stored in this form.
pub open spec fn display(sc: Shortcut) -> Seq<char> {
    modifier_glyphs(sc.modifiers) + code_name(sc.key)
}

/// How a string that is no shortcut is shown: the modifier names in it give
/// way to their glyphs, and the separators are dropped.
pub open spec fn display_raw(s: Seq<char>) -> Seq<char> {
    let a = replaced(s, "Cmd"@, "\u{2318}"@);
    let b = replaced(a, "Shift"@, "\u{21E7}"@);
    let c = replaced(b, "Alt"@, "\u{2325}"@);
    let d = replaced(c, "Ctrl"@, "\u{2303}"@);
    replaced(d, "+"@, ""@)
}

/// How a shortcut string is shown.
pub open spec fn display_text(s: Seq<char>) -> Seq<char> {
    match parse(s) {
        Ok(sc) => display(sc),
        Err(_) => display_raw(s),
    }
}

/// Shows a shortcut.
pub fn shortcut_display(parts: &Shortcut) -> (r: String)
    ensures
        r@ == display(*parts),
{
    let mut out = String::new();
    if parts.modifiers.contains(Modifier::Cmd) {
        out.append("\u{2318}");
    }
    if parts.modifiers.contains(Modifier::Shift) {
        out.append("\u{21E7}");
    }
    if parts.modifiers.contains(Modifier::Alt) {
        out.append("\u{2325}");
    }
    if parts.modifiers.contains(Modifier::Ctrl) {
        out.append("\u{2303}");
    }
    let name = code_to_string(parts.key);
    out.append(name.as_str());
    assert(out@ =~= display(*parts));
    out
}

/// Shows a shortcut string: as the shortcut that it spells where it spells
/// one, and with its modifier names and separators replaced where it does not.
pub fn shortcut_to_display(shortcut_str: &str) -> (r: String)
    ensures
        r@ == display_text(shortcut_str@),
{
    match parse_shortcut_parts(shortcut_str) {
        Ok(parts) => shortcut_display(&parts),
        Err(_) => {
            let a = replace_all(shortcut_str, "Cmd", "\u{2318}");
            let b = replace_all(a.as_str(), "Shift", "\u{21E7}");
            let c = replace_all(b.as_str(), "Alt", "\u{2325}");
            let d = replace_all(c.as_str(), "Ctrl", "\u{2303}");
            replace_all(d.as_str(), "+", "")
        },
    }
}

} // verus!
