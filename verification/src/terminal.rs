//! What the program does on the screen, as values, and how data is turned
//! into it.

use vstd::prelude::*;
use crate::escape_handlers;
use crate::key::{KeyIn, KeyInView};
use crate::notice::Notice;
use crate::utils::TABS;

verus! {

/// One thing for the program to do that needs no answer. A list of them is
/// done in order.
#[derive(Clone, Copy, Debug, PartialEq, Eq, Structural)]
pub enum Effect {
    /// Show a message.
    Show(Notice),
    /// Move the cursor up by so many lines.
    CursorUp(usize),
    /// Move the cursor down by so many lines.
    CursorDown(usize),
    /// Move the cursor left by so many columns.
    CursorLeft(usize),
    /// Move the cursor right by so many columns.
    CursorRight(usize),
    /// Clear the screen.
    ClearScreen,
    /// Clear so many characters before the cursor.
    ClearChars(usize),
    /// End the line.
    NewLine,
    /// Write a line feed.
    LineFeed,
    /// Write a character at once.
    Put(char),
    /// Rub out the character before the cursor.
    Erase,
    /// Write out what the terminal has buffered.
    Flush,
    /// Wait for one second.
    Pause,
}

/// Whether `byte` is an ASCII control character.
pub open spec fn is_control(byte: u8) -> bool {
    byte < 32 || byte == 127
}

/// What a control character does on the screen, before the terminal is
/// flushed: a tab moves right, backspace and delete clear one character,
/// carriage return ends the line, a line feed is passed on, and any other is
/// written as it is.
pub open spec fn control_effect(key: u8) -> Effect {
    if key == 9 {
        Effect::CursorRight(TABS)
    } else if key == 127 || key == 8 {
        Effect::ClearChars(1)
    } else if key == 13 {
        Effect::NewLine
    } else if key == 10 {
        Effect::LineFeed
    } else {
        Effect::Put(key as char)
    }
}

/// What a byte does on the screen: a control character acts and flushes, any
/// other byte is written as the character with its number.
pub open spec fn char_effects(key: u8) -> Seq<Effect> {
    if is_control(key) {
        seq![control_effect(key), Effect::Flush]
    } else {
        seq![Effect::Put(key as char)]
    }
}

/// What a unit of data does on the screen.
pub open spec fn data_effects(data: KeyInView) -> Seq<Effect> {
    match data {
        KeyInView::Nothing => Seq::<Effect>::empty(),
        KeyInView::Char(c) => char_effects(c),
        KeyInView::Escape(e) => escape_handlers::escape_effects(e),
    }
}

/// Turns a unit of data into what is done on the screen for it.
pub fn print_data_in(data: &KeyIn) -> (effects: Vec<Effect>)
    ensures
        effects@ == data_effects(data@),
{
    match data {
        KeyIn::Nothing => Vec::new(),
        KeyIn::Char(c) => print_char(*c),
        KeyIn::Escape(e) => escape_handlers::handle_escape(e),
    }
}

/// Turns a byte into what is done on the screen for it: a printable byte is
/// written, a control code acts.
pub fn print_char(key: u8) -> (effects: Vec<Effect>)
    ensures
        effects@ == char_effects(key),
{
    if key < 32 || key == 127 {
        return handle_control_char(key);
    }
    let keychar = key as char;
    let effects = vec![Effect::Put(keychar)];
    assert(effects@ =~= char_effects(key));
    effects
}

/// Turns a control code into its action on the terminal, and a flush.
fn handle_control_char(key: u8) -> (effects: Vec<Effect>)
    requires
        is_control(key),
    ensures
        effects@ == char_effects(key),
{
    let action = match key {
        9 => Effect::CursorRight(TABS),
        127 | 8 => Effect::ClearChars(1),
        13 => Effect::NewLine,
        10 => Effect::LineFeed,
        _ => Effect::Put(key as char),
    };
    let effects = vec![action, Effect::Flush];
    assert(effects@ =~= char_effects(key));
    effects
}

} // verus!
