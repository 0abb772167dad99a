//! Reading back what was written: the canonical string of a shortcut parses
//! to that shortcut again.

use vstd::prelude::*;
use vstd::string::*;
use crate::errors::GrammarFault;
use crate::grammar::{canonical, normalize, parse, scan, scan_token, segments, Scan, Shortcut};
use crate::keys::{
    code_name, code_of_alias, modifier_name, modifier_of_word, Code, Modifier, Modifiers,
};
use crate::text::{fold, fold_char, is_blank};

verus! {

/// A name that stands as one token of a canonical string: not empty, without
/// a separator in it and without a blank at either end.
pub open spec fn is_plain_token(t: Seq<char>) -> bool {
    &&& t.len() > 0
    &&& forall|j: int| 0 <= j < t.len() ==> t[j] != '+'
    &&& !is_blank(t[0])
    &&& !is_blank(t.last())
}

/// The canonical name of a key stands as one token, names no modifier, and
/// is read as that key.
pub open spec fn key_token_reads(code: Code) -> bool {
    let k = code_name(code);
    &&& is_plain_token(k)
    &&& modifier_of_word(fold(k)) is None
    &&& code_of_alias(k) == Some(code)
}

proof fn reveal_modifier_words()
    ensures
        "cmd"@.len() == 3,
        "cmd"@[0] == 'c',
        "cmd"@[1] == 'm',
        "command"@.len() == 7,
        "command"@[0] == 'c',
        "command"@[1] == 'o',
        "super"@.len() == 5,
        "super"@[0] == 's',
        "super"@[1] == 'u',
        "meta"@.len() == 4,
        "meta"@[0] == 'm',
        "meta"@[1] == 'e',
        "shift"@.len() == 5,
        "shift"@[0] == 's',
        "shift"@[1] == 'h',
        "alt"@.len() == 3,
        "alt"@[0] == 'a',
        "alt"@[1] == 'l',
        "option"@.len() == 6,
        "option"@[0] == 'o',
        "option"@[1] == 'p',
        "ctrl"@.len() == 4,
        "ctrl"@[0] == 'c',
        "ctrl"@[1] == 't',
        "control"@.len() == 7,
        "control"@[0] == 'c',
        "control"@[1] == 'o',
{
    reveal_strlit("cmd");
    reveal_strlit("command");
    reveal_strlit("super");
    reveal_strlit("meta");
    reveal_strlit("shift");
    reveal_strlit("alt");
    reveal_strlit("option");
    reveal_strlit("ctrl");
    reveal_strlit("control");
}

proof fn lemma_key_tokens_digits(code: Code)
    requires
        code == Code::Digit0 || code == Code::Digit1 || code == Code::Digit2 || code == Code::Digit3 || code == Code::Digit4 || code == Code::Digit5 || code == Code::Digit6 || code == Code::Digit7 || code == Code::Digit8 || code == Code::Digit9,
    ensures
        key_token_reads(code),
{
    reveal_modifier_words();
    reveal_strlit("0");
    reveal_strlit("1");
    reveal_strlit("2");
    reveal_strlit("3");
    reveal_strlit("4");
    reveal_strlit("5");
    reveal_strlit("6");
    reveal_strlit("7");
    reveal_strlit("8");
    reveal_strlit("9");
    let k = code_name(code);
    assert(k.len() == 1);
    assert(fold(k).len() == 1);
    assert(fold(k)[0] == fold_char(k[0]));
}

proof fn lemma_key_tokens_letters_a(code: Code)
    requires
        code == Code::KeyA || code == Code::KeyB || code == Code::KeyC || code == Code::KeyD || code == Code::KeyE || code == Code::KeyF || code == Code::KeyG || code == Code::KeyH || code == Code::KeyI || code == Code::KeyJ || code == Code::KeyK || code == Code::KeyL || code == Code::KeyM,
    ensures
        key_token_reads(code),
{
    reveal_modifier_words();
    reveal_strlit("A");
    reveal_strlit("B");
    reveal_strlit("C");
    reveal_strlit("D");
    reveal_strlit("E");
    reveal_strlit("F");
    reveal_strlit("G");
    reveal_strlit("H");
    reveal_strlit("I");
    reveal_strlit("J");
    reveal_strlit("K");
    reveal_strlit("L");
    reveal_strlit("M");
    let k = code_name(code);
    assert(k.len() == 1);
    assert(fold(k).len() == 1);
    assert(fold(k)[0] == fold_char(k[0]));
}

proof fn lemma_key_tokens_letters_n(code: Code)
    requires
        code == Code::KeyN || code == Code::KeyO || code == Code::KeyP || code == Code::KeyQ || code == Code::KeyR || code == Code::KeyS || code == Code::KeyT || code == Code::KeyU || code == Code::KeyV || code == Code::KeyW || code == Code::KeyX || code == Code::KeyY || code == Code::KeyZ,
    ensures
        key_token_reads(code),
{
    reveal_modifier_words();
    reveal_strlit("N");
    reveal_strlit("O");
    reveal_strlit("P");
    reveal_strlit("Q");
    reveal_strlit("R");
    reveal_strlit("S");
    reveal_strlit("T");
    reveal_strlit("U");
    reveal_strlit("V");
    reveal_strlit("W");
    reveal_strlit("X");
    reveal_strlit("Y");
    reveal_strlit("Z");
    let k = code_name(code);
    assert(k.len() == 1);
    assert(fold(k).len() == 1);
    assert(fold(k)[0] == fold_char(k[0]));
}

proof fn lemma_key_tokens_marks(code: Code)
    requires
        code == Code::Minus || code == Code::Equal || code == Code::BracketLeft || code == Code::BracketRight || code == Code::Semicolon || code == Code::Quote || code == Code::Comma || code == Code::Period || code == Code::Slash || code == Code::Backslash || code == Code::Backquote,
    ensures
        key_token_reads(code),
{
    reveal_modifier_words();
    reveal_strlit("-");
    reveal_strlit("=");
    reveal_strlit("[");
    reveal_strlit("]");
    reveal_strlit(";");
    reveal_strlit("'");
    reveal_strlit(",");
    reveal_strlit(".");
    reveal_strlit("/");
    reveal_strlit("\\");
    reveal_strlit("\\");
    reveal_strlit("`");
    let k = code_name(code);
    assert(k.len() == 1);
    assert(fold(k).len() == 1);
    assert(fold(k)[0] == fold_char(k[0]));
}

proof fn reveal_key_words()
    ensures
        "f1"@.len() == 2,
        "f1"@[0] == 'f',
        "f1"@[1] == '1',
        "f2"@.len() == 2,
        "f2"@[0] == 'f',
        "f2"@[1] == '2',
        "f3"@.len() == 2,
        "f3"@[0] == 'f',
        "f3"@[1] == '3',
        "f4"@.len() == 2,
        "f4"@[0] == 'f',
        "f4"@[1] == '4',
        "f5"@.len() == 2,
        "f5"@[0] == 'f',
        "f5"@[1] == '5',
        "f6"@.len() == 2,
        "f6"@[0] == 'f',
        "f6"@[1] == '6',
        "f7"@.len() == 2,
        "f7"@[0] == 'f',
        "f7"@[1] == '7',
        "f8"@.len() == 2,
        "f8"@[0] == 'f',
        "f8"@[1] == '8',
        "f9"@.len() == 2,
        "f9"@[0] == 'f',
        "f9"@[1] == '9',
        "f10"@.len() == 3,
        "f10"@[0] == 'f',
        "f10"@[1] == '1',
        "f10"@[2] == '0',
        "f11"@.len() == 3,
        "f11"@[0] == 'f',
        "f11"@[1] == '1',
        "f11"@[2] == '1',
        "f12"@.len() == 3,
        "f12"@[0] == 'f',
        "f12"@[1] == '1',
        "f12"@[2] == '2',
        "space"@.len() == 5,
        "space"@[0] == 's',
        "space"@[1] == 'p',
        "space"@[2] == 'a',
        "space"@[3] == 'c',
        "space"@[4] == 'e',
        "enter"@.len() == 5,
        "enter"@[0] == 'e',
        "enter"@[1] == 'n',
        "enter"@[2] == 't',
        "enter"@[3] == 'e',
        "enter"@[4] == 'r',
        "tab"@.len() == 3,
        "tab"@[0] == 't',
        "tab"@[1] == 'a',
        "tab"@[2] == 'b',
        "escape"@.len() == 6,
        "escape"@[0] == 'e',
        "escape"@[1] == 's',
        "escape"@[2] == 'c',
        "escape"@[3] == 'a',
        "escape"@[4] == 'p',
        "escape"@[5] == 'e',
        "esc"@.len() == 3,
        "esc"@[0] == 'e',
        "esc"@[1] == 's',
        "esc"@[2] == 'c',
        "backspace"@.len() == 9,
        "backspace"@[0] == 'b',
        "backspace"@[1] == 'a',
        "backspace"@[2] == 'c',
        "backspace"@[3] == 'k',
        "backspace"@[4] == 's',
        "backspace"@[5] == 'p',
        "backspace"@[6] == 'a',
        "backspace"@[7] == 'c',
        "backspace"@[8] == 'e',
{
    reveal_strlit("f1");
    reveal_strlit("f2");
    reveal_strlit("f3");
    reveal_strlit("f4");
    reveal_strlit("f5");
    reveal_strlit("f6");
    reveal_strlit("f7");
    reveal_strlit("f8");
    reveal_strlit("f9");
    reveal_strlit("f10");
    reveal_strlit("f11");
    reveal_strlit("f12");
    reveal_strlit("space");
    reveal_strlit("enter");
    reveal_strlit("tab");
    reveal_strlit("escape");
    reveal_strlit("esc");
    reveal_strlit("backspace");
}

proof fn lemma_key_tokens_function(code: Code)
    requires
        code == Code::F1 || code == Code::F2 || code == Code::F3 || code == Code::F4 || code == Code::F5 || code == Code::F6 || code == Code::F7 || code == Code::F8 || code == Code::F9 || code == Code::F10 || code == Code::F11 || code == Code::F12,
    ensures
        key_token_reads(code),
{
    reveal_modifier_words();
    reveal_key_words();
    reveal_strlit("f1");
    reveal_strlit("f2");
    reveal_strlit("f3");
    reveal_strlit("f4");
    reveal_strlit("f5");
    reveal_strlit("f6");
    reveal_strlit("f7");
    reveal_strlit("f8");
    reveal_strlit("f9");
    reveal_strlit("f10");
    reveal_strlit("f11");
    reveal_strlit("f12");
    reveal_strlit("space");
    reveal_strlit("enter");
    reveal_strlit("tab");
    reveal_strlit("escape");
    reveal_strlit("esc");
    reveal_strlit("backspace");
    reveal_strlit("F1");
    reveal_strlit("F2");
    reveal_strlit("F3");
    reveal_strlit("F4");
    reveal_strlit("F5");
    reveal_strlit("F6");
    reveal_strlit("F7");
    reveal_strlit("F8");
    reveal_strlit("F9");
    reveal_strlit("F10");
    reveal_strlit("F11");
    reveal_strlit("F12");
    let k = code_name(code);
    match code {
        Code::F1 => {
            assert(fold(k) =~= "f1"@);
        },
        Code::F2 => {
            assert(fold(k) =~= "f2"@);
        },
        Code::F3 => {
            assert(fold(k) =~= "f3"@);
        },
        Code::F4 => {
            assert(fold(k) =~= "f4"@);
        },
        Code::F5 => {
            assert(fold(k) =~= "f5"@);
        },
        Code::F6 => {
            assert(fold(k) =~= "f6"@);
        },
        Code::F7 => {
            assert(fold(k) =~= "f7"@);
        },
        Code::F8 => {
            assert(fold(k) =~= "f8"@);
        },
        Code::F9 => {
            assert(fold(k) =~= "f9"@);
        },
        Code::F10 => {
            assert(fold(k) =~= "f10"@);
        },
        Code::F11 => {
            assert(fold(k) =~= "f11"@);
        },
        Code::F12 => {
            assert(fold(k) =~= "f12"@);
        },
        _ => {},
    }
}

proof fn lemma_key_tokens_named(code: Code)
    requires
        code == Code::Space || code == Code::Enter || code == Code::Tab || code == Code::Escape || code == Code::Backspace,
    ensures
        key_token_reads(code),
{
    reveal_modifier_words();
    reveal_key_words();
    reveal_strlit("f1");
    reveal_strlit("f2");
    reveal_strlit("f3");
    reveal_strlit("f4");
    reveal_strlit("f5");
    reveal_strlit("f6");
    reveal_strlit("f7");
    reveal_strlit("f8");
    reveal_strlit("f9");
    reveal_strlit("f10");
    reveal_strlit("f11");
    reveal_strlit("f12");
    reveal_strlit("space");
    reveal_strlit("enter");
    reveal_strlit("tab");
    reveal_strlit("escape");
    reveal_strlit("esc");
    reveal_strlit("backspace");
    reveal_strlit("Space");
    reveal_strlit("Enter");
    reveal_strlit("Tab");
    reveal_strlit("Escape");
    reveal_strlit("Backspace");
    let k = code_name(code);
    match code {
        Code::Space => {
            assert(fold(k) =~= "space"@);
        },
        Code::Enter => {
            assert(fold(k) =~= "enter"@);
        },
        Code::Tab => {
            assert(fold(k) =~= "tab"@);
        },
        Code::Escape => {
            assert(fold(k) =~= "escape"@);
        },
        Code::Backspace => {
            assert(fold(k) =~= "backspace"@);
        },
        _ => {},
    }
}

proof fn lemma_key_token_intl()
    ensures
        key_token_reads(Code::IntlBackslash),
{
    reveal_modifier_words();
    reveal_key_words();
    reveal_strlit("minus");
    reveal_strlit("equal");
    reveal_strlit("equals");
    reveal_strlit("bracketleft");
    reveal_strlit("lbracket");
    reveal_strlit("bracketright");
    reveal_strlit("rbracket");
    reveal_strlit("semicolon");
    reveal_strlit("quote");
    reveal_strlit("comma");
    reveal_strlit("period");
    reveal_strlit("slash");
    reveal_strlit("backslash");
    reveal_strlit("intlbackslash");
    reveal_strlit("IntlBackslash");
    assert("minus"@.len() == 5);
    assert("equal"@.len() == 5);
    assert("equals"@.len() == 6);
    assert("bracketleft"@.len() == 11);
    assert("lbracket"@.len() == 8);
    assert("bracketright"@.len() == 12);
    assert("rbracket"@.len() == 8);
    assert("semicolon"@.len() == 9);
    assert("quote"@.len() == 5);
    assert("comma"@.len() == 5);
    assert("period"@.len() == 6);
    assert("slash"@.len() == 5);
    assert("backslash"@.len() == 9);
    let k = code_name(Code::IntlBackslash);
    assert(k.len() == 13);
    assert(fold(k) =~= "intlbackslash"@);
}

/// Every key's canonical name is read as that key again.
pub proof fn lemma_key_token(code: Code)
    ensures
        key_token_reads(code),
{
    match code {
        Code::Digit0 | Code::Digit1 | Code::Digit2 | Code::Digit3 | Code::Digit4 | Code::Digit5 | Code::Digit6 | Code::Digit7 | Code::Digit8 | Code::Digit9 => {
            lemma_key_tokens_digits(code);
        },
        Code::KeyA | Code::KeyB | Code::KeyC | Code::KeyD | Code::KeyE | Code::KeyF | Code::KeyG | Code::KeyH | Code::KeyI | Code::KeyJ | Code::KeyK | Code::KeyL | Code::KeyM => {
            lemma_key_tokens_letters_a(code);
        },
        Code::KeyN | Code::KeyO | Code::KeyP | Code::KeyQ | Code::KeyR | Code::KeyS | Code::KeyT | Code::KeyU | Code::KeyV | Code::KeyW | Code::KeyX | Code::KeyY | Code::KeyZ => {
            lemma_key_tokens_letters_n(code);
        },
        Code::Minus | Code::Equal | Code::BracketLeft | Code::BracketRight | Code::Semicolon | Code::Quote | Code::Comma | Code::Period | Code::Slash | Code::Backslash | Code::Backquote => {
            lemma_key_tokens_marks(code);
        },
        Code::IntlBackslash => {
            lemma_key_token_intl();
        },
        Code::F1 | Code::F2 | Code::F3 | Code::F4 | Code::F5 | Code::F6 | Code::F7 | Code::F8 | Code::F9 | Code::F10 | Code::F11 | Code::F12 => {
            lemma_key_tokens_function(code);
        },
        Code::Space | Code::Enter | Code::Tab | Code::Escape | Code::Backspace => {
            lemma_key_tokens_named(code);
        },
    }
}

/// A string always has at least one segment.
pub proof fn lemma_segments_nonempty(s: Seq<char>)
    ensures
        segments(s).len() >= 1,
    decreases s.len(),
{
    if s.len() > 0 {
        lemma_segments_nonempty(s.drop_last());
    }
}

/// A string without a separator is its own single segment.
pub proof fn lemma_segments_plain(t: Seq<char>)
    requires
        forall|j: int| 0 <= j < t.len() ==> t[j] != '+',
    ensures
        segments(t) == seq![t],
    decreases t.len(),
{
    if t.len() == 0 {
        assert(t =~= Seq::<char>::empty());
    } else {
        let u = t.drop_last();
        lemma_segments_plain(u);
        assert(u.push(t.last()) =~= t);
        assert(seq![u].update(0, u.push(t.last())) =~= seq![t]);
    }
}

/// The segments of two strings joined by a separator are those of the first
/// followed by those of the second.
pub proof fn lemma_segments_join(a: Seq<char>, b: Seq<char>)
    ensures
        segments(a + seq!['+'] + b) == segments(a) + segments(b),
    decreases b.len(),
{
    let x = a + seq!['+'] + b;
    if b.len() == 0 {
        assert(x.drop_last() =~= a);
        assert(x.last() == '+');
        assert(segments(b) =~= seq![Seq::<char>::empty()]);
        assert(segments(a).push(Seq::<char>::empty()) =~= segments(a) + segments(b));
    } else {
        let c = b.drop_last();
        lemma_segments_join(a, c);
        lemma_segments_nonempty(c);
        assert(x.drop_last() =~= a + seq!['+'] + c);
        assert(x.last() == b.last());
        let before = segments(a) + segments(c);
        if b.last() == '+' {
            assert(before.push(Seq::<char>::empty()) =~= segments(a) + segments(b));
        } else {
            assert(before.last() == segments(c).last());
            assert(before.update(before.len() - 1, before.last().push(b.last()))
                =~= segments(a) + segments(b));
        }
    }
}

/// The canonical names of the modifiers in `m`, in the fixed order.
pub open spec fn modifier_tokens(m: Modifiers) -> Seq<Seq<char>> {
    let t0 = Seq::<Seq<char>>::empty();
    let t1 = if m.cmd { t0.push("Cmd"@) } else { t0 };
    let t2 = if m.shift { t1.push("Shift"@) } else { t1 };
    let t3 = if m.alt { t2.push("Alt"@) } else { t2 };
    if m.ctrl { t3.push("Ctrl"@) } else { t3 }
}

/// The canonical name of a modifier is read as that modifier.
pub proof fn lemma_modifier_token(m: Modifier, acc: Scan)
    ensures
        is_plain_token(modifier_name(m)),
        scan_token(acc, modifier_name(m)) == Ok::<Scan, GrammarFault>(
            Scan { modifiers: acc.modifiers.spec_with(m), key: acc.key },
        ),
{
    reveal_modifier_words();
    reveal_strlit("Cmd");
    reveal_strlit("Shift");
    reveal_strlit("Alt");
    reveal_strlit("Ctrl");
    reveal_strlit("cmd");
    reveal_strlit("shift");
    reveal_strlit("alt");
    reveal_strlit("ctrl");
    let name = modifier_name(m);
    match m {
        Modifier::Cmd => {
            assert(fold(name) =~= "cmd"@);
        },
        Modifier::Shift => {
            assert(fold(name) =~= "shift"@);
        },
        Modifier::Alt => {
            assert(fold(name) =~= "alt"@);
        },
        Modifier::Ctrl => {
            assert(fold(name) =~= "ctrl"@);
        },
    }
}

proof fn lemma_prefix_segments(name_plus: Seq<char>, name: Seq<char>, rest: Seq<char>)
    requires
        name_plus == name + seq!['+'],
        is_plain_token(name),
    ensures
        segments(name_plus + rest) == seq![name] + segments(rest),
{
    lemma_segments_join(name, rest);
    lemma_segments_plain(name);
    assert(name_plus + rest =~= name + seq!['+'] + rest);
}

/// The segments of a canonical string are the names of its modifiers and
/// then the name of its key.
pub proof fn lemma_canonical_segments(sc: Shortcut)
    ensures
        segments(canonical(sc)) == modifier_tokens(sc.modifiers).push(code_name(sc.key)),
{
    let m = sc.modifiers;
    let k = code_name(sc.key);
    let acc = Scan { modifiers: Modifiers::spec_empty(), key: None };
    lemma_key_token(sc.key);
    lemma_modifier_token(Modifier::Cmd, acc);
    lemma_modifier_token(Modifier::Shift, acc);
    lemma_modifier_token(Modifier::Alt, acc);
    lemma_modifier_token(Modifier::Ctrl, acc);
    reveal_strlit("Cmd");
    reveal_strlit("Shift");
    reveal_strlit("Alt");
    reveal_strlit("Ctrl");
    reveal_strlit("Cmd+");
    reveal_strlit("Shift+");
    reveal_strlit("Alt+");
    reveal_strlit("Ctrl+");
    assert("Cmd+"@ =~= "Cmd"@ + seq!['+']);
    assert("Shift+"@ =~= "Shift"@ + seq!['+']);
    assert("Alt+"@ =~= "Alt"@ + seq!['+']);
    assert("Ctrl+"@ =~= "Ctrl"@ + seq!['+']);
    let none = Seq::<char>::empty();
    let r4 = (if m.ctrl { "Ctrl+"@ } else { none }) + k;
    let r3 = (if m.alt { "Alt+"@ } else { none }) + r4;
    let r2 = (if m.shift { "Shift+"@ } else { none }) + r3;
    let r1 = (if m.cmd { "Cmd+"@ } else { none }) + r2;
    let e = Seq::<Seq<char>>::empty();
    lemma_segments_plain(k);
    assert(none + k =~= k);
    assert(none + r4 =~= r4);
    assert(none + r3 =~= r3);
    assert(none + r2 =~= r2);
    let s4 = (if m.ctrl { seq!["Ctrl"@] } else { e }) + seq![k];
    assert(segments(r4) == s4) by {
        if m.ctrl {
            lemma_prefix_segments("Ctrl+"@, "Ctrl"@, k);
        } else {
            assert(e + seq![k] =~= seq![k]);
        }
    }
    let s3 = (if m.alt { seq!["Alt"@] } else { e }) + s4;
    assert(segments(r3) == s3) by {
        if m.alt {
            lemma_prefix_segments("Alt+"@, "Alt"@, r4);
        } else {
            assert(e + s4 =~= s4);
        }
    }
    let s2 = (if m.shift { seq!["Shift"@] } else { e }) + s3;
    assert(segments(r2) == s2) by {
        if m.shift {
            lemma_prefix_segments("Shift+"@, "Shift"@, r3);
        } else {
            assert(e + s3 =~= s3);
        }
    }
    let s1 = (if m.cmd { seq!["Cmd"@] } else { e }) + s2;
    assert(segments(r1) == s1) by {
        if m.cmd {
            lemma_prefix_segments("Cmd+"@, "Cmd"@, r2);
        } else {
            assert(e + s2 =~= s2);
        }
    }
    assert(r1 =~= canonical(sc));
    assert(s1 =~= modifier_tokens(m).push(k));
}

proof fn lemma_scan_push(t: Seq<Seq<char>>, x: Seq<char>)
    ensures
        scan(t.push(x)) == match scan(t) {
            Ok(acc) => scan_token(acc, x),
            Err(e) => Err(e),
        },
{
    assert(t.push(x).drop_last() =~= t);
}

/// Reading the names of the modifiers in `m` gives `m` and no key.
pub proof fn lemma_scan_modifier_tokens(m: Modifiers)
    ensures
        scan(modifier_tokens(m)) == Ok::<Scan, GrammarFault>(Scan { modifiers: m, key: None }),
{
    let t0 = Seq::<Seq<char>>::empty();
    let a0 = Scan { modifiers: Modifiers::spec_empty(), key: None };
    assert(scan(t0) == Ok::<Scan, GrammarFault>(a0));
    let t1 = if m.cmd { t0.push("Cmd"@) } else { t0 };
    let a1 = Scan { modifiers: Modifiers { cmd: m.cmd, ..a0.modifiers }, key: None };
    assert(scan(t1) == Ok::<Scan, GrammarFault>(a1)) by {
        if m.cmd {
            lemma_scan_push(t0, "Cmd"@);
            lemma_modifier_token(Modifier::Cmd, a0);
        }
    }
    let t2 = if m.shift { t1.push("Shift"@) } else { t1 };
    let a2 = Scan { modifiers: Modifiers { shift: m.shift, ..a1.modifiers }, key: None };
    assert(scan(t2) == Ok::<Scan, GrammarFault>(a2)) by {
        if m.shift {
            lemma_scan_push(t1, "Shift"@);
            lemma_modifier_token(Modifier::Shift, a1);
        }
    }
    let t3 = if m.alt { t2.push("Alt"@) } else { t2 };
    let a3 = Scan { modifiers: Modifiers { alt: m.alt, ..a2.modifiers }, key: None };
    assert(scan(t3) == Ok::<Scan, GrammarFault>(a3)) by {
        if m.alt {
            lemma_scan_push(t2, "Alt"@);
            lemma_modifier_token(Modifier::Alt, a2);
        }
    }
    let t4 = if m.ctrl { t3.push("Ctrl"@) } else { t3 };
    let a4 = Scan { modifiers: Modifiers { ctrl: m.ctrl, ..a3.modifiers }, key: None };
    assert(scan(t4) == Ok::<Scan, GrammarFault>(a4)) by {
        if m.ctrl {
            lemma_scan_push(t3, "Ctrl"@);
            lemma_modifier_token(Modifier::Ctrl, a3);
        }
    }
    assert(a4.modifiers == m);
}

/// Writing a shortcut and reading it back gives the same shortcut: for every
/// shortcut with at least one modifier, the canonical string parses to it.
pub proof fn parse_inverts_canonical(sc: Shortcut)
    requires
        sc.is_valid(),
    ensures
        parse(canonical(sc)) == Ok::<Shortcut, GrammarFault>(sc),
{
    let k = code_name(sc.key);
    let t = modifier_tokens(sc.modifiers);
    lemma_canonical_segments(sc);
    lemma_scan_modifier_tokens(sc.modifiers);
    lemma_scan_push(t, k);
    lemma_key_token(sc.key);
}

/// The round trip: for every string that parses, the canonical string of
/// what it parses to parses to the same shortcut.
pub proof fn parse_round_trip(s: Seq<char>)
    requires
        parse(s) is Ok,
    ensures
        parse(canonical(parse(s)->Ok_0)) == parse(s),
{
    parse_inverts_canonical(parse(s)->Ok_0);
}

/// A canonical string is its own canonical form: normalizing what was
/// written changes nothing, for every shortcut with at least one modifier.
pub proof fn canonical_is_fixed(sc: Shortcut)
    requires
        sc.is_valid(),
    ensures
        normalize(canonical(sc)) == Ok::<Seq<char>, GrammarFault>(canonical(sc)),
{
    parse_inverts_canonical(sc);
}

/// Normalizing twice gives what normalizing once gives.
pub proof fn normalize_is_idempotent(s: Seq<char>)
    requires
        normalize(s) is Ok,
    ensures
        normalize(normalize(s)->Ok_0) == normalize(s),
{
    canonical_is_fixed(parse(s)->Ok_0);
}

/// Two shortcuts with the same canonical string are the same shortcut.
pub proof fn canonical_is_injective(a: Shortcut, b: Shortcut)
    requires
        a.is_valid(),
        b.is_valid(),
        canonical(a) == canonical(b),
    ensures
        a == b,
{
    parse_inverts_canonical(a);
    parse_inverts_canonical(b);
}

/// The canonical name of a key is an alias of that key and of no other.
pub proof fn name_reads_as_its_key(code: Code)
    ensures
        code_of_alias(code_name(code)) == Some(code),
{
    lemma_key_token(code);
}

/// No two keys share a canonical name.
pub proof fn names_are_distinct(a: Code, b: Code)
    requires
        a != b,
    ensures
        code_name(a) != code_name(b),
{
    lemma_key_token(a);
    lemma_key_token(b);
}

} // verus!
