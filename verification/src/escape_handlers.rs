//! What an escape sequence does on the screen.

use vstd::prelude::*;
use crate::key::{EscapeSequence, EscapeSequenceView};
use crate::terminal::Effect;
use crate::utils::TABS;

verus! {

/// What an escape sequence does on the screen: an arrow moves the cursor by
/// one, Home clears the screen, a back tab moves left by a tab, and every
/// other sequence does nothing.
pub open spec fn escape_effects(parsed: EscapeSequenceView) -> Seq<Effect> {
    match parsed {
        EscapeSequenceView::ArrowDown => seq![Effect::CursorDown(1)],
        EscapeSequenceView::ArrowRight => seq![Effect::CursorRight(1)],
        EscapeSequenceView::ArrowLeft => seq![Effect::CursorLeft(1)],
        EscapeSequenceView::ArrowUp => seq![Effect::CursorUp(1)],
        EscapeSequenceView::Home => seq![Effect::ClearScreen],
        EscapeSequenceView::BackTab => seq![Effect::CursorLeft(TABS)],
        _ => Seq::<Effect>::empty(),
    }
}

/// Turns an escape sequence into its action on the terminal.
pub fn handle_escape(parsed: &EscapeSequence) -> (effects: Vec<Effect>)
    ensures
        effects@ == escape_effects(parsed@),
{
    let effects = match parsed {
        EscapeSequence::ArrowDown => vec![Effect::CursorDown(1)],
        EscapeSequence::ArrowRight => vec![Effect::CursorRight(1)],
        EscapeSequence::ArrowLeft => vec![Effect::CursorLeft(1)],
        EscapeSequence::ArrowUp => vec![Effect::CursorUp(1)],
        EscapeSequence::Home => vec![Effect::ClearScreen],
        EscapeSequence::BackTab => vec![Effect::CursorLeft(TABS)],
        _ => vec![],
    };
    assert(effects@ =~= escape_effects(parsed@));
    effects
}

} // verus!
