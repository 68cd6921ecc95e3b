//! The options that the program is started with.

use vstd::prelude::*;
use vstd::string::*;
use crate::line;
use crate::utils::{decimal, push_decimal};

verus! {

/// The start-up options.
#[derive(Clone, Debug, PartialEq, Eq)]
pub struct Args {
    /// The baud rate to set the line to.
    pub baud: u32,
    /// The flow control mode to set the line to.
    pub flow: FlowControl,
    /// The parity mode to set the line to.
    pub parity: Parity,
    /// The number of data bits in every character, 5 to 8.
    pub databits: u8,
    /// The character that, typed with Ctrl, enters command mode.
    pub escape: char,
    /// Open the line without setting it up.
    pub noinit: bool,
    /// Leave the line as it is on exit.
    pub noreset: bool,
    /// Do not lock the device.
    pub nolock: bool,
    /// The name of the serial device.
    pub port: String,
}

/// How a switch of the command line is shown: as whether the program does
/// what the switch turns off.
pub open spec fn does_word(switch: bool) -> Seq<char> {
    if switch {
        "no"@
    } else {
        "yes"@
    }
}

impl Args {
    /// The options as they are shown at start-up, one to a line.
    pub open spec fn shown(&self) -> Seq<char> {
        "port is        : "@ + self.port@ + "\n\rflowcontrol    : "@ + self.flow.spec_show()
            + "\r\nbaudrate is    : "@ + decimal(self.baud as nat) + "\r\nparity is      : "@
            + self.parity.spec_show() + "\r\ndatabits are   : "@ + decimal(self.databits as nat)
            + "\r\nescape is      : C-"@.push(self.escape) + "\r\nnoinit is      : "@ + does_word(
            self.noinit,
        ) + "\r\nnoreset is     : "@ + does_word(self.noreset) + "\r\nnolock is      : "@
            + does_word(self.nolock) + "\r\n\n            "@
    }

    /// Writes the options out as they are shown at start-up.
    pub fn show_state(&self) -> (text: String)
        ensures
            text@ == self.shown(),
    {
        let mut text = String::from_str("port is        : ");
        text.append(self.port.as_str());
        text.append("\n\rflowcontrol    : ");
        text.append(self.flow.show());
        text.append("\r\nbaudrate is    : ");
        push_decimal(&mut text, self.baud);
        text.append("\r\nparity is      : ");
        text.append(self.parity.show());
        text.append("\r\ndatabits are   : ");
        push_decimal(&mut text, self.databits as u32);
        text.append("\r\nescape is      : C-");
        text.push(self.escape);
        text.append("\r\nnoinit is      : ");
        text.append(does(self.noinit));
        text.append("\r\nnoreset is     : ");
        text.append(does(self.noreset));
        text.append("\r\nnolock is      : ");
        text.append(does(self.nolock));
        text.append("\r\n\n            ");
        text
    }
}

/// How a switch of the command line is shown.
fn does(switch: bool) -> (word: &'static str)
    ensures
        word@ == does_word(switch),
{
    if switch {
        "no"
    } else {
        "yes"
    }
}

/// Flow control as it is chosen on the command line.
#[derive(Copy, Clone, Debug, PartialEq, Eq, PartialOrd, Ord, Structural)]
pub enum FlowControl {
    /// xon/xoff (software) mode
    X,
    /// hardware flow control (RTS/CTS)
    H,
    /// no flow control
    N,
}

impl FlowControl {
    /// The line's flow control mode that this option selects.
    pub open spec fn spec_to_serialport(&self) -> line::FlowControl {
        match self {
            FlowControl::H => line::FlowControl::Hardware,
            FlowControl::X => line::FlowControl::Software,
            FlowControl::N => line::FlowControl::Off,
        }
    }

    /// How the option is shown to the user.
    pub open spec fn spec_show(&self) -> Seq<char> {
        match self {
            FlowControl::X => "xon/xoff"@,
            FlowControl::H => "hardware"@,
            FlowControl::N => "none"@,
        }
    }

    /// The letter that selects the option on the command line.
    pub open spec fn letter(&self) -> Seq<char> {
        match self {
            FlowControl::X => "x"@,
            FlowControl::H => "h"@,
            FlowControl::N => "n"@,
        }
    }

    /// The line's flow control mode that this option selects.
    #[verifier::when_used_as_spec(spec_to_serialport)]
    pub fn to_serialport(&self) -> (mode: line::FlowControl)
        ensures
            mode == self.spec_to_serialport(),
    {
        match self {
            FlowControl::H => line::FlowControl::Hardware,
            FlowControl::X => line::FlowControl::Software,
            FlowControl::N => line::FlowControl::Off,
        }
    }

    /// How the option is shown to the user.
    pub fn show(&self) -> (text: &'static str)
        ensures
            text@ == self.spec_show(),
    {
        match self {
            FlowControl::X => "xon/xoff",
            FlowControl::H => "hardware",
            FlowControl::N => "none",
        }
    }

    /// The letter that selects the option on the command line.
    pub fn to_string(&self) -> (text: String)
        ensures
            text@ == self.letter(),
    {
        match self {
            FlowControl::X => "x".to_owned(),
            FlowControl::H => "h".to_owned(),
            FlowControl::N => "n".to_owned(),
        }
    }
}

/// Parity as it is chosen on the command line.
#[derive(Copy, Clone, Debug, PartialEq, Eq, PartialOrd, Ord, Structural)]
pub enum Parity {
    /// odd parity mode
    O,
    /// for even parity mode
    E,
    /// no parity mode
    N,
}

impl Parity {
    /// The line's parity mode that this option selects.
    pub open spec fn spec_to_serialport(&self) -> line::Parity {
        match self {
            Parity::O => line::Parity::Odd,
            Parity::E => line::Parity::Even,
            Parity::N => line::Parity::Off,
        }
    }

    /// How the option is shown to the user.
    pub open spec fn spec_show(&self) -> Seq<char> {
        match self {
            Parity::O => "odd"@,
            Parity::E => "even"@,
            Parity::N => "none"@,
        }
    }

    /// The letter that selects the option on the command line.
    pub open spec fn letter(&self) -> Seq<char> {
        match self {
            Parity::O => "o"@,
            Parity::E => "e"@,
            Parity::N => "n"@,
        }
    }

    /// The line's parity mode that this option selects.
    #[verifier::when_used_as_spec(spec_to_serialport)]
    pub fn to_serialport(&self) -> (mode: line::Parity)
        ensures
            mode == self.spec_to_serialport(),
    {
        match self {
            Parity::O => line::Parity::Odd,
            Parity::E => line::Parity::Even,
            Parity::N => line::Parity::Off,
        }
    }

    /// How the option is shown to the user.
    pub fn show(&self) -> (text: &'static str)
        ensures
            text@ == self.spec_show(),
    {
        match self {
            Parity::O => "odd",
            Parity::E => "even",
            Parity::N => "none",
        }
    }

    /// The letter that selects the option on the command line.
    pub fn to_string(&self) -> (text: String)
        ensures
            text@ == self.letter(),
    {
        match self {
            Parity::O => "o".to_owned(),
            Parity::E => "e".to_owned(),
            Parity::N => "n".to_owned(),
        }
    }
}

} // verus!
