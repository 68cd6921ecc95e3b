//! The keyboard side: the worker that passes keys on, and the typing of a
//! line.
//!
//! The worker runs beside the relay and reads the keyboard on its own. What
//! it has to remember between two keys is in [`InputStream`]; the thread and
//! the queue that carry the keys belong to the program.

use vstd::prelude::*;
use crate::key::{KeyIn, KeyInView};
use crate::terminal::Effect;

verus! {

/// The memory of the keyboard worker.
#[derive(Clone, Debug, PartialEq, Eq)]
pub struct InputStream {
    /// The escape code that enters command mode.
    pub escape: u8,
    /// The commands that end the session.
    pub shutdown_vals: Vec<u8>,
    /// Whether the key before was the escape code, arming command mode.
    pub is_escaped: bool,
}

/// The mathematical value of an [`InputStream`].
pub struct InputStreamView {
    pub escape: u8,
    pub shutdown_vals: Seq<u8>,
    pub is_escaped: bool,
}

impl View for InputStream {
    type V = InputStreamView;

    open spec fn view(&self) -> InputStreamView {
        InputStreamView {
            escape: self.escape,
            shutdown_vals: self.shutdown_vals@,
            is_escaped: self.is_escaped,
        }
    }
}

impl InputStreamView {
    /// Whether the worker ends after it has passed `key` on: when the key
    /// before armed command mode and this one is a command that ends the
    /// session.
    pub open spec fn stops_at(self, key: KeyInView) -> bool {
        key matches KeyInView::Char(c) && self.is_escaped && self.shutdown_vals.contains(c)
    }

    /// What the worker remembers after `key`: command mode is armed by the
    /// escape code, unless that key was itself typed in command mode.
    pub open spec fn after(self, key: KeyInView) -> InputStreamView {
        InputStreamView {
            is_escaped: key matches KeyInView::Char(c) && !self.is_escaped && c == self.escape,
            ..self
        }
    }
}

impl InputStream {
    /// The memory of a worker that has not seen a key yet.
    ///
    /// * `escape` - The escape code that enters command mode.
    /// * `shutdown_vals` - The commands that end the session.
    pub fn new(escape: u8, shutdown_vals: Vec<u8>) -> (stream: InputStream)
        ensures
            stream@ == (InputStreamView {
                escape,
                shutdown_vals: shutdown_vals@,
                is_escaped: false,
            }),
    {
        InputStream { escape, shutdown_vals, is_escaped: false }
    }

    /// Takes note of a key that the worker has passed on. The worker ends if
    /// the result is `true`.
    pub fn observe(&mut self, key: &KeyIn) -> (stop: bool)
        ensures
            stop == old(self)@.stops_at(key@),
            !stop ==> final(self)@ == old(self)@.after(key@),
            stop ==> final(self)@ == old(self)@,
    {
        if let KeyIn::Char(c) = key {
            if self.is_escaped && contains(&self.shutdown_vals, *c) {
                return true;
            }
            self.is_escaped = !self.is_escaped && *c == self.escape;
        } else {
            self.is_escaped = false;
        }
        false
    }
}

/// Whether `byte` occurs in `bytes`.
fn contains(bytes: &Vec<u8>, byte: u8) -> (found: bool)
    ensures
        found == bytes@.contains(byte),
{
    let mut i: usize = 0;
    while i < bytes.len()
        invariant
            i <= bytes.len(),
            forall|j: int| 0 <= j < i ==> bytes@[j] != byte,
        decreases bytes.len() - i,
    {
        if bytes[i] == byte {
            return true;
        }
        i += 1;
    }
    false
}

/// What a key does to the line that is being typed.
pub struct Typed {
    /// The line after the key.
    pub line: Seq<char>,
    /// Whether the key ended the line.
    pub done: bool,
    /// What is shown for the key.
    pub echo: Seq<Effect>,
}

/// The typing of a line. Return and line feed end it. Backspace and delete
/// take the last character away, if there is one, and rub it out on the
/// screen. Any other byte is a character of the line and is shown. A key that
/// is no byte does nothing.
pub open spec fn typed(line: Seq<char>, key: KeyInView) -> Typed {
    match key {
        KeyInView::Char(c) => if c == 13 || c == 10 {
            Typed { line, done: true, echo: Seq::empty() }
        } else if c == 127 || c == 8 {
            Typed {
                line: if line.len() > 0 {
                    line.drop_last()
                } else {
                    line
                },
                done: false,
                echo: seq![Effect::Erase],
            }
        } else {
            Typed { line: line.push(c as char), done: false, echo: seq![Effect::Put(c as char)] }
        },
        _ => Typed { line, done: false, echo: Seq::empty() },
    }
}

/// Takes one key of a line that is being typed. `received` is what came from
/// the keyboard: a key, or the news that the keyboard is lost, which is the
/// error. The key's echo is added to `effects`. The result is whether the
/// line is complete.
pub fn get_char_blocking(
    result: &mut Vec<char>,
    effects: &mut Vec<Effect>,
    received: &Result<KeyIn, ()>,
) -> (done: Result<bool, ()>)
    ensures
        received is Err ==> done is Err && final(result)@ == old(result)@ && final(effects)@ == old(
            effects,
        )@,
        received matches Ok(key) ==> done == Ok::<bool, ()>(typed(old(result)@, key@).done)
            && final(result)@ == typed(old(result)@, key@).line && final(effects)@ == old(effects)@
            + typed(old(result)@, key@).echo,
{
    match received {
        Ok(KeyIn::Char(13)) | Ok(KeyIn::Char(10)) => {
            return Ok(true);
        },
        Ok(KeyIn::Char(127)) | Ok(KeyIn::Char(8)) => {
            let _ = result.pop();
            effects.push(Effect::Erase);
        },
        Ok(KeyIn::Char(x)) => {
            result.push(*x as char);
            effects.push(Effect::Put(*x as char));
        },
        Err(_) => {
            return Err(());
        },
        _ => {
            return Ok(false);
        },
    };
    Ok(false)
}

} // verus!
