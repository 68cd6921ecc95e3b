//! Keys as the keyboard reports them, and the tokens they become on their way
//! to the line.

use vstd::prelude::*;
use crate::utils::{get_ascii_byte, is_ascii_char};

verus! {

/// A key press as the terminal library reports it, one variant for each key
/// that it tells apart.
#[derive(Clone, Debug, PartialEq, Eq)]
pub enum Key {
    Unknown,
    /// An unrecognised sequence: the characters that followed Esc.
    UnknownEscSeq(Vec<char>),
    ArrowLeft,
    ArrowRight,
    ArrowUp,
    ArrowDown,
    Enter,
    Escape,
    Backspace,
    Home,
    End,
    Tab,
    BackTab,
    Alt,
    Del,
    Shift,
    Insert,
    PageUp,
    PageDown,
    Char(char),
    CtrlC,
}

/// The platform whose key conventions apply.
#[derive(Clone, Copy, Debug, PartialEq, Eq, Structural)]
pub enum Platform {
    /// Home and End are sent as the control bytes 1 and 5.
    Unix,
    /// Home and End are sent as escape sequences.
    Windows,
}

/// An escape sequence, by its meaning.
#[derive(Debug, Clone, PartialEq, Eq)]
pub enum EscapeSequence {
    /// A malformed sequence.
    Invalid,
    /// A well-formed sequence without a name of its own, with all its bytes.
    UnknownSeq(Vec<u8>),
    ArrowLeft,
    ArrowRight,
    ArrowUp,
    ArrowDown,
    BackTab,
    Tab,
    Alt,
    Home,
    End,
    Del,
    Insert,
    PageUp,
    PageDown,
}

/// The mathematical value of an [`EscapeSequence`].
pub enum EscapeSequenceView {
    Invalid,
    UnknownSeq(Seq<u8>),
    ArrowLeft,
    ArrowRight,
    ArrowUp,
    ArrowDown,
    BackTab,
    Tab,
    Alt,
    Home,
    End,
    Del,
    Insert,
    PageUp,
    PageDown,
}

impl View for EscapeSequence {
    type V = EscapeSequenceView;

    open spec fn view(&self) -> EscapeSequenceView {
        match *self {
            EscapeSequence::Invalid => EscapeSequenceView::Invalid,
            EscapeSequence::UnknownSeq(bytes) => EscapeSequenceView::UnknownSeq(bytes@),
            EscapeSequence::ArrowLeft => EscapeSequenceView::ArrowLeft,
            EscapeSequence::ArrowRight => EscapeSequenceView::ArrowRight,
            EscapeSequence::ArrowUp => EscapeSequenceView::ArrowUp,
            EscapeSequence::ArrowDown => EscapeSequenceView::ArrowDown,
            EscapeSequence::BackTab => EscapeSequenceView::BackTab,
            EscapeSequence::Tab => EscapeSequenceView::Tab,
            EscapeSequence::Alt => EscapeSequenceView::Alt,
            EscapeSequence::Home => EscapeSequenceView::Home,
            EscapeSequence::End => EscapeSequenceView::End,
            EscapeSequence::Del => EscapeSequenceView::Del,
            EscapeSequence::Insert => EscapeSequenceView::Insert,
            EscapeSequence::PageUp => EscapeSequenceView::PageUp,
            EscapeSequence::PageDown => EscapeSequenceView::PageDown,
        }
    }
}

/// One unit of data: a key on its way to the line, or what was read from the
/// line.
#[derive(Debug, Clone, PartialEq, Eq)]
pub enum KeyIn {
    /// A single byte.
    Char(u8),
    /// Nothing: no data, or a key without effect on the line.
    Nothing,
    /// An escape sequence.
    Escape(EscapeSequence),
}

/// The mathematical value of a [`KeyIn`].
pub enum KeyInView {
    Char(u8),
    Nothing,
    Escape(EscapeSequenceView),
}

impl View for KeyIn {
    type V = KeyInView;

    open spec fn view(&self) -> KeyInView {
        match *self {
            KeyIn::Char(byte) => KeyInView::Char(byte),
            KeyIn::Nothing => KeyInView::Nothing,
            KeyIn::Escape(sequence) => KeyInView::Escape(sequence@),
        }
    }
}

/// Whether every character of `chars` is ASCII.
pub open spec fn all_ascii(chars: Seq<char>) -> bool {
    forall|i: int| 0 <= i < chars.len() ==> is_ascii_char(#[trigger] chars[i])
}

/// The bytes of a string of ASCII characters.
pub open spec fn ascii_bytes(chars: Seq<char>) -> Seq<u8> {
    Seq::new(chars.len(), |i: int| chars[i] as u8)
}

impl EscapeSequenceView {
    /// The escape sequence that a key stands for. A key that is no escape
    /// sequence, and an unrecognised sequence that holds a character outside
    /// ASCII, is `Invalid`.
    pub open spec fn of_key(key: Key) -> EscapeSequenceView {
        match key {
            Key::UnknownEscSeq(chars) => if all_ascii(chars@) {
                EscapeSequenceView::UnknownSeq(ascii_bytes(chars@))
            } else {
                EscapeSequenceView::Invalid
            },
            Key::ArrowLeft => EscapeSequenceView::ArrowLeft,
            Key::ArrowRight => EscapeSequenceView::ArrowRight,
            Key::ArrowUp => EscapeSequenceView::ArrowUp,
            Key::ArrowDown => EscapeSequenceView::ArrowDown,
            Key::BackTab => EscapeSequenceView::BackTab,
            Key::Alt => EscapeSequenceView::Alt,
            Key::Home => EscapeSequenceView::Home,
            Key::End => EscapeSequenceView::End,
            Key::Del => EscapeSequenceView::Del,
            Key::Insert => EscapeSequenceView::Insert,
            Key::PageUp => EscapeSequenceView::PageUp,
            Key::PageDown => EscapeSequenceView::PageDown,
            _ => EscapeSequenceView::Invalid,
        }
    }

    /// The bytes that a terminal sends for this sequence: three or four for a
    /// named key, none for the others.
    pub open spec fn bytes(self) -> Seq<u8> {
        match self {
            EscapeSequenceView::BackTab => seq![27u8, 91u8, 90u8],
            EscapeSequenceView::Alt => seq![27u8, 91u8, 90u8],
            EscapeSequenceView::ArrowLeft => seq![27u8, 91u8, 68u8],
            EscapeSequenceView::ArrowRight => seq![27u8, 91u8, 67u8],
            EscapeSequenceView::ArrowUp => seq![27u8, 91u8, 65u8],
            EscapeSequenceView::ArrowDown => seq![27u8, 91u8, 66u8],
            EscapeSequenceView::Home => seq![27u8, 91u8, 49u8, 126u8],
            EscapeSequenceView::End => seq![27u8, 91u8, 52u8, 126u8],
            EscapeSequenceView::Del => seq![27u8, 91u8, 51u8, 126u8],
            EscapeSequenceView::Insert => seq![27u8, 91u8, 50u8, 126u8],
            EscapeSequenceView::PageUp => seq![27u8, 91u8, 53u8, 126u8],
            EscapeSequenceView::PageDown => seq![27u8, 91u8, 54u8, 126u8],
            _ => Seq::<u8>::empty(),
        }
    }
}

impl KeyInView {
    /// The token that a key becomes. A character outside ASCII has no byte
    /// and becomes `Nothing`. Home and End are control bytes on Unix and
    /// escape sequences on Windows; the other keys do not depend on the
    /// platform.
    pub open spec fn of_key(key: Key, platform: Platform) -> KeyInView {
        match key {
            Key::Char(c) => if is_ascii_char(c) {
                KeyInView::Char(c as u8)
            } else {
                KeyInView::Nothing
            },
            Key::Home => if platform == Platform::Unix {
                KeyInView::Char(1)
            } else {
                KeyInView::Escape(EscapeSequenceView::Home)
            },
            Key::CtrlC => KeyInView::Char(3),
            Key::End => if platform == Platform::Unix {
                KeyInView::Char(5)
            } else {
                KeyInView::Escape(EscapeSequenceView::End)
            },
            Key::Tab => KeyInView::Char(9),
            Key::Enter => KeyInView::Char(13),
            Key::Escape => KeyInView::Char(27),
            Key::Backspace => KeyInView::Char(127),
            other => KeyInView::Escape(EscapeSequenceView::of_key(other)),
        }
    }

    /// The bytes that are written to the line for this token.
    pub open spec fn bytes(self) -> Seq<u8> {
        match self {
            KeyInView::Char(byte) => seq![byte],
            KeyInView::Nothing => Seq::<u8>::empty(),
            KeyInView::Escape(sequence) => sequence.bytes(),
        }
    }
}

/// The bytes of `chars`, if all of them are ASCII.
fn ascii_bytes_of(chars: &Vec<char>) -> (bytes: Option<Vec<u8>>)
    ensures
        all_ascii(chars@) <==> bytes is Some,
        bytes matches Some(b) ==> b@ == ascii_bytes(chars@),
{
    let mut bytes: Vec<u8> = Vec::new();
    let mut i: usize = 0;
    while i < chars.len()
        invariant
            i <= chars.len(),
            bytes@ == ascii_bytes(chars@.take(i as int)),
            all_ascii(chars@.take(i as int)),
        decreases chars.len() - i,
    {
        let c = chars[i];
        if (c as u32) >= 128 {
            assert(!is_ascii_char(chars@[i as int]));
            return None;
        }
        bytes.push(get_ascii_byte(c));
        proof {
            let before = chars@.take(i as int);
            let after = chars@.take(i + 1);
            assert(after == before.push(c));
            assert(bytes@ =~= ascii_bytes(after));
            assert forall|j: int| 0 <= j < after.len() implies is_ascii_char(
                #[trigger] after[j],
            ) by {
                if j < i {
                    assert(after[j] == before[j]);
                }
            }
        }
        i += 1;
    }
    assert(chars@.take(i as int) == chars@);
    Some(bytes)
}

impl EscapeSequence {
    /// The escape sequence that a key stands for.
    pub fn from_console_key(c: &Key) -> (sequence: EscapeSequence)
        ensures
            sequence@ == EscapeSequenceView::of_key(*c),
    {
        match c {
            Key::UnknownEscSeq(s) => match ascii_bytes_of(s) {
                Some(bytes) => EscapeSequence::UnknownSeq(bytes),
                None => EscapeSequence::Invalid,
            },
            Key::ArrowLeft => EscapeSequence::ArrowLeft,
            Key::ArrowRight => EscapeSequence::ArrowRight,
            Key::ArrowUp => EscapeSequence::ArrowUp,
            Key::ArrowDown => EscapeSequence::ArrowDown,
            Key::BackTab => EscapeSequence::BackTab,
            Key::Alt => EscapeSequence::Alt,
            Key::Home => EscapeSequence::Home,
            Key::End => EscapeSequence::End,
            Key::Del => EscapeSequence::Del,
            Key::Insert => EscapeSequence::Insert,
            Key::PageUp => EscapeSequence::PageUp,
            Key::PageDown => EscapeSequence::PageDown,
            _ => EscapeSequence::Invalid,
        }
    }

    /// The bytes that a terminal sends for this sequence.
    pub fn to_bytes(&self) -> (bytes: Vec<u8>)
        ensures
            bytes@ == self@.bytes(),
    {
        match self {
            Self::BackTab => vec![27, 91, 90],
            Self::Alt => vec![27, 91, 90],
            Self::ArrowLeft => vec![27, 91, 68],
            Self::ArrowRight => vec![27, 91, 67],
            Self::ArrowUp => vec![27, 91, 65],
            Self::ArrowDown => vec![27, 91, 66],
            Self::Home => vec![27, 91, 49, 126],
            Self::End => vec![27, 91, 52, 126],
            Self::Del => vec![27, 91, 51, 126],
            Self::Insert => vec![27, 91, 50, 126],
            Self::PageUp => vec![27, 91, 53, 126],
            Self::PageDown => vec![27, 91, 54, 126],
            _ => vec![],
        }
    }
}

impl KeyIn {
    /// The token that a key becomes on the given platform.
    pub fn from_console_key(c: &Key, platform: Platform) -> (token: KeyIn)
        ensures
            token@ == KeyInView::of_key(*c, platform),
    {
        match c {
            Key::Char(c) => if (*c as u32) < 128 {
                KeyIn::Char(get_ascii_byte(*c))
            } else {
                KeyIn::Nothing
            },
            Key::Home => match platform {
                Platform::Unix => KeyIn::Char(1),
                Platform::Windows => KeyIn::Escape(EscapeSequence::Home),
            },
            Key::CtrlC => KeyIn::Char(3),
            Key::End => match platform {
                Platform::Unix => KeyIn::Char(5),
                Platform::Windows => KeyIn::Escape(EscapeSequence::End),
            },
            Key::Tab => KeyIn::Char(9),
            Key::Enter => KeyIn::Char(13),
            Key::Escape => KeyIn::Char(27),
            Key::Backspace => KeyIn::Char(127),
            s => KeyIn::Escape(EscapeSequence::from_console_key(s)),
        }
    }

    /// The bytes that are written to the line for this token.
    pub fn to_bytes(&self) -> (bytes: Vec<u8>)
        ensures
            bytes@ == self@.bytes(),
    {
        match self {
            Self::Char(c) => vec![*c],
            Self::Nothing => vec![],
            Self::Escape(e) => e.to_bytes(),
        }
    }
}

} // verus!
