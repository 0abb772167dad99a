//! The closed set of keys and modifiers that a shortcut can name, with the
//! aliases accepted on input and the one canonical name written on output.

use vstd::prelude::*;
use vstd::string::*;
use crate::errors::{GrammarError, GrammarFault};
use crate::text::{fold, folded_chars, word_is, word_is_prefixed};

verus! {

/// A key of the keyboard, by position.
#[derive(Clone, Copy, Debug, PartialEq, Eq, Hash, Structural)]
pub enum Code {
    Digit0,
    Digit1,
    Digit2,
    Digit3,
    Digit4,
    Digit5,
    Digit6,
    Digit7,
    Digit8,
    Digit9,
    KeyA,
    KeyB,
    KeyC,
    KeyD,
    KeyE,
    KeyF,
    KeyG,
    KeyH,
    KeyI,
    KeyJ,
    KeyK,
    KeyL,
    KeyM,
    KeyN,
    KeyO,
    KeyP,
    KeyQ,
    KeyR,
    KeyS,
    KeyT,
    KeyU,
    KeyV,
    KeyW,
    KeyX,
    KeyY,
    KeyZ,
    F1,
    F2,
    F3,
    F4,
    F5,
    F6,
    F7,
    F8,
    F9,
    F10,
    F11,
    F12,
    Space,
    Enter,
    Tab,
    Escape,
    Backspace,
    Minus,
    Equal,
    BracketLeft,
    BracketRight,
    Semicolon,
    Quote,
    Comma,
    Period,
    Slash,
    Backslash,
    IntlBackslash,
    Backquote,
}

/// One of the four modifier keys.
#[derive(Clone, Copy, Debug, PartialEq, Eq, Hash, Structural)]
pub enum Modifier {
    Cmd,
    Shift,
    Alt,
    Ctrl,
}

/// A set of modifier keys.
#[derive(Clone, Copy, Debug, PartialEq, Eq, Hash, Structural)]
pub struct Modifiers {
    pub cmd: bool,
    pub shift: bool,
    pub alt: bool,
    pub ctrl: bool,
}

impl Modifiers {
    /// The set without any modifier.
    pub open spec fn spec_empty() -> Modifiers {
        Modifiers { cmd: false, shift: false, alt: false, ctrl: false }
    }

    /// Whether the set holds no modifier.
    pub open spec fn spec_is_empty(self) -> bool {
        !self.cmd && !self.shift && !self.alt && !self.ctrl
    }

    /// Whether the set holds `m`.
    pub open spec fn spec_contains(self, m: Modifier) -> bool {
        match m {
            Modifier::Cmd => self.cmd,
            Modifier::Shift => self.shift,
            Modifier::Alt => self.alt,
            Modifier::Ctrl => self.ctrl,
        }
    }

    /// The set with `m` added.
    pub open spec fn spec_with(self, m: Modifier) -> Modifiers {
        match m {
            Modifier::Cmd => Modifiers { cmd: true, ..self },
            Modifier::Shift => Modifiers { shift: true, ..self },
            Modifier::Alt => Modifiers { alt: true, ..self },
            Modifier::Ctrl => Modifiers { ctrl: true, ..self },
        }
    }

    #[verifier::when_used_as_spec(spec_empty)]
    pub fn empty() -> (r: Modifiers)
        ensures
            r == Modifiers::spec_empty(),
    {
        Modifiers { cmd: false, shift: false, alt: false, ctrl: false }
    }

    #[verifier::when_used_as_spec(spec_is_empty)]
    pub fn is_empty(self) -> (r: bool)
        ensures
            r == self.spec_is_empty(),
    {
        !self.cmd && !self.shift && !self.alt && !self.ctrl
    }

    #[verifier::when_used_as_spec(spec_contains)]
    pub fn contains(self, m: Modifier) -> (r: bool)
        ensures
            r == self.spec_contains(m),
    {
        match m {
            Modifier::Cmd => self.cmd,
            Modifier::Shift => self.shift,
            Modifier::Alt => self.alt,
            Modifier::Ctrl => self.ctrl,
        }
    }

    /// Adds `m` to the set; the other modifiers stay as they are.
    pub fn insert(&mut self, m: Modifier)
        ensures
            *final(self) == old(self).spec_with(m),
    {
        match m {
            Modifier::Cmd => { self.cmd = true; },
            Modifier::Shift => { self.shift = true; },
            Modifier::Alt => { self.alt = true; },
            Modifier::Ctrl => { self.ctrl = true; },
        }
    }
}

/// The modifier that a lower-case word names, if it names one.
pub open spec fn modifier_of_word(w: Seq<char>) -> Option<Modifier> {
    if w == "cmd"@ || w == "command"@ || w == "super"@ || w == "meta"@ {
        Some(Modifier::Cmd)
    } else if w == "shift"@ {
        Some(Modifier::Shift)
    } else if w == "alt"@ || w == "option"@ {
        Some(Modifier::Alt)
    } else if w == "ctrl"@ || w == "control"@ {
        Some(Modifier::Ctrl)
    } else {
        None
    }
}

/// The canonical name of a modifier.
pub open spec fn modifier_name(m: Modifier) -> Seq<char> {
    match m {
        Modifier::Cmd => "Cmd"@,
        Modifier::Shift => "Shift"@,
        Modifier::Alt => "Alt"@,
        Modifier::Ctrl => "Ctrl"@,
    }
}

/// The key that a lower-case character names by itself, if it names one.
pub open spec fn code_of_char(c: char) -> Option<Code> {
    match c {
        '0' => Some(Code::Digit0),
        '1' => Some(Code::Digit1),
        '2' => Some(Code::Digit2),
        '3' => Some(Code::Digit3),
        '4' => Some(Code::Digit4),
        '5' => Some(Code::Digit5),
        '6' => Some(Code::Digit6),
        '7' => Some(Code::Digit7),
        '8' => Some(Code::Digit8),
        '9' => Some(Code::Digit9),
        'a' => Some(Code::KeyA),
        'b' => Some(Code::KeyB),
        'c' => Some(Code::KeyC),
        'd' => Some(Code::KeyD),
        'e' => Some(Code::KeyE),
        'f' => Some(Code::KeyF),
        'g' => Some(Code::KeyG),
        'h' => Some(Code::KeyH),
        'i' => Some(Code::KeyI),
        'j' => Some(Code::KeyJ),
        'k' => Some(Code::KeyK),
        'l' => Some(Code::KeyL),
        'm' => Some(Code::KeyM),
        'n' => Some(Code::KeyN),
        'o' => Some(Code::KeyO),
        'p' => Some(Code::KeyP),
        'q' => Some(Code::KeyQ),
        'r' => Some(Code::KeyR),
        's' => Some(Code::KeyS),
        't' => Some(Code::KeyT),
        'u' => Some(Code::KeyU),
        'v' => Some(Code::KeyV),
        'w' => Some(Code::KeyW),
        'x' => Some(Code::KeyX),
        'y' => Some(Code::KeyY),
        'z' => Some(Code::KeyZ),
        '-' => Some(Code::Minus),
        '=' => Some(Code::Equal),
        '[' => Some(Code::BracketLeft),
        ']' => Some(Code::BracketRight),
        ';' => Some(Code::Semicolon),
        '\'' => Some(Code::Quote),
        ',' => Some(Code::Comma),
        '.' => Some(Code::Period),
        '/' => Some(Code::Slash),
        '\\' => Some(Code::Backslash),
        '`' => Some(Code::Backquote),
        _ => None,
    }
}

/// Whether `c` is a decimal digit.
pub open spec fn is_digit(c: char) -> bool {
    '0' <= c && c <= '9'
}

/// Whether `c` is a lower-case ASCII letter.
pub open spec fn is_lower_letter(c: char) -> bool {
    'a' <= c && c <= 'z'
}

/// The key that a lower-case word of two or more characters names, if it
/// names one: a function key, a named key, the long name of a punctuation key,
/// `digit` followed by a digit, or `key` followed by a letter.
pub open spec fn code_of_word(w: Seq<char>) -> Option<Code> {
    if w == "f1"@ {
        Some(Code::F1)
    } else if w == "f2"@ {
        Some(Code::F2)
    } else if w == "f3"@ {
        Some(Code::F3)
    } else if w == "f4"@ {
        Some(Code::F4)
    } else if w == "f5"@ {
        Some(Code::F5)
    } else if w == "f6"@ {
        Some(Code::F6)
    } else if w == "f7"@ {
        Some(Code::F7)
    } else if w == "f8"@ {
        Some(Code::F8)
    } else if w == "f9"@ {
        Some(Code::F9)
    } else if w == "f10"@ {
        Some(Code::F10)
    } else if w == "f11"@ {
        Some(Code::F11)
    } else if w == "f12"@ {
        Some(Code::F12)
    } else if w == "space"@ {
        Some(Code::Space)
    } else if w == "enter"@ {
        Some(Code::Enter)
    } else if w == "tab"@ {
        Some(Code::Tab)
    } else if w == "escape"@ || w == "esc"@ {
        Some(Code::Escape)
    } else if w == "backspace"@ {
        Some(Code::Backspace)
    } else if w == "minus"@ {
        Some(Code::Minus)
    } else if w == "equal"@ || w == "equals"@ {
        Some(Code::Equal)
    } else if w == "bracketleft"@ || w == "lbracket"@ {
        Some(Code::BracketLeft)
    } else if w == "bracketright"@ || w == "rbracket"@ {
        Some(Code::BracketRight)
    } else if w == "semicolon"@ {
        Some(Code::Semicolon)
    } else if w == "quote"@ {
        Some(Code::Quote)
    } else if w == "comma"@ {
        Some(Code::Comma)
    } else if w == "period"@ {
        Some(Code::Period)
    } else if w == "slash"@ {
        Some(Code::Slash)
    } else if w == "backslash"@ {
        Some(Code::Backslash)
    } else if w == "intlbackslash"@ {
        Some(Code::IntlBackslash)
    } else if w == "backquote"@ || w == "grave"@ {
        Some(Code::Backquote)
    } else if w.len() == 6 && w.subrange(0, 5) == "digit"@ && is_digit(w[5]) {
        code_of_char(w[5])
    } else if w.len() == 4 && w.subrange(0, 3) == "key"@ && is_lower_letter(w[3]) {
        code_of_char(w[3])
    } else {
        None
    }
}

/// The key that a token names, without regard to case.
pub open spec fn code_of_alias(token: Seq<char>) -> Option<Code> {
    let w = fold(token);
    if w.len() == 1 {
        code_of_char(w[0])
    } else {
        code_of_word(w)
    }
}

/// The canonical name of a key.
pub open spec fn code_name(code: Code) -> Seq<char> {
    match code {
        Code::Digit0 => "0"@,
        Code::Digit1 => "1"@,
        Code::Digit2 => "2"@,
        Code::Digit3 => "3"@,
        Code::Digit4 => "4"@,
        Code::Digit5 => "5"@,
        Code::Digit6 => "6"@,
        Code::Digit7 => "7"@,
        Code::Digit8 => "8"@,
        Code::Digit9 => "9"@,
        Code::KeyA => "A"@,
        Code::KeyB => "B"@,
        Code::KeyC => "C"@,
        Code::KeyD => "D"@,
        Code::KeyE => "E"@,
        Code::KeyF => "F"@,
        Code::KeyG => "G"@,
        Code::KeyH => "H"@,
        Code::KeyI => "I"@,
        Code::KeyJ => "J"@,
        Code::KeyK => "K"@,
        Code::KeyL => "L"@,
        Code::KeyM => "M"@,
        Code::KeyN => "N"@,
        Code::KeyO => "O"@,
        Code::KeyP => "P"@,
        Code::KeyQ => "Q"@,
        Code::KeyR => "R"@,
        Code::KeyS => "S"@,
        Code::KeyT => "T"@,
        Code::KeyU => "U"@,
        Code::KeyV => "V"@,
        Code::KeyW => "W"@,
        Code::KeyX => "X"@,
        Code::KeyY => "Y"@,
        Code::KeyZ => "Z"@,
        Code::F1 => "F1"@,
        Code::F2 => "F2"@,
        Code::F3 => "F3"@,
        Code::F4 => "F4"@,
        Code::F5 => "F5"@,
        Code::F6 => "F6"@,
        Code::F7 => "F7"@,
        Code::F8 => "F8"@,
        Code::F9 => "F9"@,
        Code::F10 => "F10"@,
        Code::F11 => "F11"@,
        Code::F12 => "F12"@,
        Code::Space => "Space"@,
        Code::Enter => "Enter"@,
        Code::Tab => "Tab"@,
        Code::Escape => "Escape"@,
        Code::Backspace => "Backspace"@,
        Code::Minus => "-"@,
        Code::Equal => "="@,
        Code::BracketLeft => "["@,
        Code::BracketRight => "]"@,
        Code::Semicolon => ";"@,
        Code::Quote => "'"@,
        Code::Comma => ","@,
        Code::Period => "."@,
        Code::Slash => "/"@,
        Code::Backslash => "\\"@,
        Code::IntlBackslash => "IntlBackslash"@,
        Code::Backquote => "`"@,
    }
}

/// Executable [`modifier_of_word`].
pub fn word_to_modifier(w: &Vec<char>) -> (r: Option<Modifier>)
    ensures
        r == modifier_of_word(w@),
{
    if word_is(w, "cmd") || word_is(w, "command") || word_is(w, "super") || word_is(w, "meta") {
        Some(Modifier::Cmd)
    } else if word_is(w, "shift") {
        Some(Modifier::Shift)
    } else if word_is(w, "alt") || word_is(w, "option") {
        Some(Modifier::Alt)
    } else if word_is(w, "ctrl") || word_is(w, "control") {
        Some(Modifier::Ctrl)
    } else {
        None
    }
}

/// Executable [`code_of_char`].
pub fn char_to_code(c: char) -> (r: Option<Code>)
    ensures
        r == code_of_char(c),
{
    match c {
        '0' => Some(Code::Digit0),
        '1' => Some(Code::Digit1),
        '2' => Some(Code::Digit2),
        '3' => Some(Code::Digit3),
        '4' => Some(Code::Digit4),
        '5' => Some(Code::Digit5),
        '6' => Some(Code::Digit6),
        '7' => Some(Code::Digit7),
        '8' => Some(Code::Digit8),
        '9' => Some(Code::Digit9),
        'a' => Some(Code::KeyA),
        'b' => Some(Code::KeyB),
        'c' => Some(Code::KeyC),
        'd' => Some(Code::KeyD),
        'e' => Some(Code::KeyE),
        'f' => Some(Code::KeyF),
        'g' => Some(Code::KeyG),
        'h' => Some(Code::KeyH),
        'i' => Some(Code::KeyI),
        'j' => Some(Code::KeyJ),
        'k' => Some(Code::KeyK),
        'l' => Some(Code::KeyL),
        'm' => Some(Code::KeyM),
        'n' => Some(Code::KeyN),
        'o' => Some(Code::KeyO),
        'p' => Some(Code::KeyP),
        'q' => Some(Code::KeyQ),
        'r' => Some(Code::KeyR),
        's' => Some(Code::KeyS),
        't' => Some(Code::KeyT),
        'u' => Some(Code::KeyU),
        'v' => Some(Code::KeyV),
        'w' => Some(Code::KeyW),
        'x' => Some(Code::KeyX),
        'y' => Some(Code::KeyY),
        'z' => Some(Code::KeyZ),
        '-' => Some(Code::Minus),
        '=' => Some(Code::Equal),
        '[' => Some(Code::BracketLeft),
        ']' => Some(Code::BracketRight),
        ';' => Some(Code::Semicolon),
        '\'' => Some(Code::Quote),
        ',' => Some(Code::Comma),
        '.' => Some(Code::Period),
        '/' => Some(Code::Slash),
        '\\' => Some(Code::Backslash),
        '`' => Some(Code::Backquote),
        _ => None,
    }
}

/// Executable [`code_of_word`].
pub fn word_to_code(w: &Vec<char>) -> (r: Option<Code>)
    ensures
        r == code_of_word(w@),
{
    proof {
        reveal_strlit("digit");
        reveal_strlit("key");
    }
    if word_is(w, "f1") {
        Some(Code::F1)
    } else if word_is(w, "f2") {
        Some(Code::F2)
    } else if word_is(w, "f3") {
        Some(Code::F3)
    } else if word_is(w, "f4") {
        Some(Code::F4)
    } else if word_is(w, "f5") {
        Some(Code::F5)
    } else if word_is(w, "f6") {
        Some(Code::F6)
    } else if word_is(w, "f7") {
        Some(Code::F7)
    } else if word_is(w, "f8") {
        Some(Code::F8)
    } else if word_is(w, "f9") {
        Some(Code::F9)
    } else if word_is(w, "f10") {
        Some(Code::F10)
    } else if word_is(w, "f11") {
        Some(Code::F11)
    } else if word_is(w, "f12") {
        Some(Code::F12)
    } else if word_is(w, "space") {
        Some(Code::Space)
    } else if word_is(w, "enter") {
        Some(Code::Enter)
    } else if word_is(w, "tab") {
        Some(Code::Tab)
    } else if word_is(w, "escape") || word_is(w, "esc") {
        Some(Code::Escape)
    } else if word_is(w, "backspace") {
        Some(Code::Backspace)
    } else if word_is(w, "minus") {
        Some(Code::Minus)
    } else if word_is(w, "equal") || word_is(w, "equals") {
        Some(Code::Equal)
    } else if word_is(w, "bracketleft") || word_is(w, "lbracket") {
        Some(Code::BracketLeft)
    } else if word_is(w, "bracketright") || word_is(w, "rbracket") {
        Some(Code::BracketRight)
    } else if word_is(w, "semicolon") {
        Some(Code::Semicolon)
    } else if word_is(w, "quote") {
        Some(Code::Quote)
    } else if word_is(w, "comma") {
        Some(Code::Comma)
    } else if word_is(w, "period") {
        Some(Code::Period)
    } else if word_is(w, "slash") {
        Some(Code::Slash)
    } else if word_is(w, "backslash") {
        Some(Code::Backslash)
    } else if word_is(w, "intlbackslash") {
        Some(Code::IntlBackslash)
    } else if word_is(w, "backquote") || word_is(w, "grave") {
        Some(Code::Backquote)
    } else if word_is_prefixed(w, "digit") && '0' <= w[5] && w[5] <= '9' {
        char_to_code(w[5])
    } else if word_is_prefixed(w, "key") && 'a' <= w[3] && w[3] <= 'z' {
        char_to_code(w[3])
    } else {
        None
    }
}

/// Looks a token up in the table of key aliases, without regard to case.
/// A token that is no alias is handed back in the error as it was written.
pub fn string_to_code(s: &str) -> (r: Result<Code, GrammarError>)
    ensures
        match code_of_alias(s@) {
            Some(c) => r == Ok::<Code, GrammarError>(c),
            None => r is Err && r->Err_0@ == GrammarFault::UnknownKey(s@),
        },
{
    let w = folded_chars(s);
    let found = if w.len() == 1 {
        char_to_code(w[0])
    } else {
        word_to_code(&w)
    };
    match found {
        Some(c) => Ok(c),
        None => Err(GrammarError::UnknownKey(String::from_str(s))),
    }
}

/// The canonical name of a key.
pub fn code_to_string(code: Code) -> (r: String)
    ensures
        r@ == code_name(code),
{
    match code {
        Code::Digit0 => String::from_str("0"),
        Code::Digit1 => String::from_str("1"),
        Code::Digit2 => String::from_str("2"),
        Code::Digit3 => String::from_str("3"),
        Code::Digit4 => String::from_str("4"),
        Code::Digit5 => String::from_str("5"),
        Code::Digit6 => String::from_str("6"),
        Code::Digit7 => String::from_str("7"),
        Code::Digit8 => String::from_str("8"),
        Code::Digit9 => String::from_str("9"),
        Code::KeyA => String::from_str("A"),
        Code::KeyB => String::from_str("B"),
        Code::KeyC => String::from_str("C"),
        Code::KeyD => String::from_str("D"),
        Code::KeyE => String::from_str("E"),
        Code::KeyF => String::from_str("F"),
        Code::KeyG => String::from_str("G"),
        Code::KeyH => String::from_str("H"),
        Code::KeyI => String::from_str("I"),
        Code::KeyJ => String::from_str("J"),
        Code::KeyK => String::from_str("K"),
        Code::KeyL => String::from_str("L"),
        Code::KeyM => String::from_str("M"),
        Code::KeyN => String::from_str("N"),
        Code::KeyO => String::from_str("O"),
        Code::KeyP => String::from_str("P"),
        Code::KeyQ => String::from_str("Q"),
        Code::KeyR => String::from_str("R"),
        Code::KeyS => String::from_str("S"),
        Code::KeyT => String::from_str("T"),
        Code::KeyU => String::from_str("U"),
        Code::KeyV => String::from_str("V"),
        Code::KeyW => String::from_str("W"),
        Code::KeyX => String::from_str("X"),
        Code::KeyY => String::from_str("Y"),
        Code::KeyZ => String::from_str("Z"),
        Code::F1 => String::from_str("F1"),
        Code::F2 => String::from_str("F2"),
        Code::F3 => String::from_str("F3"),
        Code::F4 => String::from_str("F4"),
        Code::F5 => String::from_str("F5"),
        Code::F6 => String::from_str("F6"),
        Code::F7 => String::from_str("F7"),
        Code::F8 => String::from_str("F8"),
        Code::F9 => String::from_str("F9"),
        Code::F10 => String::from_str("F10"),
        Code::F11 => String::from_str("F11"),
        Code::F12 => String::from_str("F12"),
        Code::Space => String::from_str("Space"),
        Code::Enter => String::from_str("Enter"),
        Code::Tab => String::from_str("Tab"),
        Code::Escape => String::from_str("Escape"),
        Code::Backspace => String::from_str("Backspace"),
        Code::Minus => String::from_str("-"),
        Code::Equal => String::from_str("="),
        Code::BracketLeft => String::from_str("["),
        Code::BracketRight => String::from_str("]"),
        Code::Semicolon => String::from_str(";"),
        Code::Quote => String::from_str("'"),
        Code::Comma => String::from_str(","),
        Code::Period => String::from_str("."),
        Code::Slash => String::from_str("/"),
        Code::Backslash => String::from_str("\\"),
        Code::IntlBackslash => String::from_str("IntlBackslash"),
        Code::Backquote => String::from_str("`"),
    }
}

/// The canonical name of a modifier.
pub fn modifier_to_string(m: Modifier) -> (r: String)
    ensures
        r@ == modifier_name(m),
{
    match m {
        Modifier::Cmd => String::from_str("Cmd"),
        Modifier::Shift => String::from_str("Shift"),
        Modifier::Alt => String::from_str("Alt"),
        Modifier::Ctrl => String::from_str("Ctrl"),
    }
}

} // verus!
