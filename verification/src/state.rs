//! The state of a running session, and how a session is set up from the
//! start-up options.

use vstd::prelude::*;
use vstd::string::*;
use crate::args::Args;
use crate::line::{
    data_bits_name, data_bits_text, flow_control_name, flow_control_text, parity_name,
    parity_text, stop_bits_name, stop_bits_text, DataBits, FlowControl, Parity, StopBits,
};
use crate::notice::level_word;
use crate::utils::{decimal, get_ascii_byte, is_ascii_char, push_decimal};

verus! {

/// Everything about a session that changes while it runs. The handles of the
/// serial device and of the screen are not part of it: the program that does
/// the input and output keeps them.
#[derive(Clone, Debug, PartialEq, Eq)]
pub struct State {
    /// The escape character to enter command mode.
    pub escape: char,
    /// The escape code: the control code of the escape character, 1 for `a`
    /// to 26 for `z`.
    pub escape_code: u8,
    /// The line was opened without setting it up.
    pub noinit: bool,
    /// Do not reset the line on exit.
    pub noreset: bool,
    /// Whether DTR was last raised. The line cannot be asked for it.
    pub dtr: bool,
    /// Whether RTS was last raised. The line cannot be asked for it.
    pub rts: bool,
    /// The flow control that was selected at start-up.
    pub flow: FlowControl,
    /// Whether the escape code was the last key, so that the next key is a
    /// command.
    pub command_mode: bool,
    /// Whether typed characters are shown as they are sent.
    pub local_echo: bool,
    /// Name of the serial device.
    pub port_name: String,
}

/// How the serial device is to be opened.
#[derive(Clone, Debug, PartialEq, Eq)]
pub enum PortSetup {
    /// Open the device and leave its settings and DTR as they are.
    Preserve { port: String, baud: u32 },
    /// Open the device with these settings and raise DTR.
    Configure {
        port: String,
        baud: u32,
        flow: FlowControl,
        parity: Parity,
        data_bits: DataBits,
    },
}

/// Whether `c` is one of the 52 ASCII letters.
pub open spec fn is_ascii_letter(c: char) -> bool {
    ('a' <= c && c <= 'z') || ('A' <= c && c <= 'Z')
}

/// The escape code of an escape character: the ASCII value of its lower-case
/// form minus 96, which is 1 for `a` or `A` to 26 for `z` or `Z`, the control
/// code that is typed as Ctrl and the letter. For an ASCII character that is
/// no letter the difference is counted modulo 256 and is no control code of
/// a letter. A character outside ASCII has no ASCII value and gets 0.
pub open spec fn escape_code_of(c: char) -> u8 {
    if is_ascii_char(c) {
        let lower: int = if 'A' <= c && c <= 'Z' {
            c as u8 + 32
        } else {
            c as u8 as int
        };
        ((lower - 96) % 256) as u8
    } else {
        0
    }
}

/// The character size for a number of data bits: 5, 6 and 7 select their
/// size, every other number selects eight bits.
pub open spec fn data_bits_of(databits: u8) -> DataBits {
    if databits == 5 {
        DataBits::Five
    } else if databits == 6 {
        DataBits::Six
    } else if databits == 7 {
        DataBits::Seven
    } else {
        DataBits::Eight
    }
}

impl State {
    /// Whether the escape code is the control code of a letter. Only then can
    /// command mode be entered.
    pub open spec fn wf(&self) -> bool {
        1 <= self.escape_code <= 26
    }

    /// The state in which a session starts: not in command mode, local echo
    /// off, DTR and RTS taken as down.
    pub open spec fn initial(args: Args) -> State {
        State {
            escape: args.escape,
            escape_code: escape_code_of(args.escape),
            noinit: args.noinit,
            noreset: args.noreset,
            dtr: false,
            rts: false,
            flow: args.flow.to_serialport(),
            command_mode: false,
            local_echo: false,
            port_name: args.port,
        }
    }

    /// The state of a new session with the given options.
    pub fn new_from_args(args: &Args) -> (state: State)
        ensures
            state == State::initial(*args),
            is_ascii_letter(args.escape) <==> state.wf(),
    {
        let c = args.escape;
        let escape_code: u8 = if (c as u32) < 128 {
            let lower: u8 = if 'A' <= c && c <= 'Z' {
                get_ascii_byte(c) + 32
            } else {
                get_ascii_byte(c)
            };
            lower.wrapping_sub(96)
        } else {
            0
        };
        State {
            escape: args.escape,
            escape_code,
            noinit: args.noinit,
            noreset: args.noreset,
            dtr: false,
            rts: false,
            flow: args.flow.to_serialport(),
            command_mode: false,
            local_echo: false,
            port_name: args.port.clone(),
        }
    }
}

/// The settings of the line as a list for the user: what the line reported,
/// and the levels of DTR and RTS that the session keeps.
pub open spec fn settings_listed(
    state: State,
    baud: u32,
    flow: FlowControl,
    parity: Parity,
    data_bits: DataBits,
    stop_bits: StopBits,
) -> Seq<char> {
    "*** baud: "@ + decimal(baud as nat) + "\r\n**** flow: "@ + flow_control_name(flow)
        + "\r\n**** parity: "@ + parity_name(parity) + "\r\n**** databits: "@ + data_bits_name(
        data_bits,
    ) + "\r\n**** stopbits: "@ + stop_bits_name(stop_bits) + "\r\n**** dtr: "@ + level_word(
        state.dtr,
    ) + "\r\n**** rts: "@ + level_word(state.rts) + "\r\n"@
}

impl State {
    /// Writes the settings of the line out as a list for the user. The five
    /// settings are what the line reported.
    pub fn port_settings(
        &self,
        baud: u32,
        flow: FlowControl,
        parity: Parity,
        data_bits: DataBits,
        stop_bits: StopBits,
    ) -> (text: String)
        ensures
            text@ == settings_listed(*self, baud, flow, parity, data_bits, stop_bits),
    {
        let mut text = String::from_str("*** baud: ");
        push_decimal(&mut text, baud);
        text.append("\r\n**** flow: ");
        text.append(flow_control_text(flow).as_str());
        text.append("\r\n**** parity: ");
        text.append(parity_text(parity).as_str());
        text.append("\r\n**** databits: ");
        text.append(data_bits_text(data_bits).as_str());
        text.append("\r\n**** stopbits: ");
        text.append(stop_bits_text(stop_bits).as_str());
        text.append("\r\n**** dtr: ");
        text.append(if self.dtr {
            "up"
        } else {
            "down"
        });
        text.append("\r\n**** rts: ");
        text.append(if self.rts {
            "up"
        } else {
            "down"
        });
        text.append("\r\n");
        text
    }
}

impl PortSetup {
    /// How the options ask for the device to be opened. With `noinit` the
    /// device is only opened; otherwise it gets the flow control, parity and
    /// character size of the options, and DTR is raised.
    pub open spec fn of_args(args: Args) -> PortSetup {
        if args.noinit {
            PortSetup::Preserve { port: args.port, baud: args.baud }
        } else {
            PortSetup::Configure {
                port: args.port,
                baud: args.baud,
                flow: args.flow.to_serialport(),
                parity: args.parity.to_serialport(),
                data_bits: data_bits_of(args.databits),
            }
        }
    }
}

/// Decides how the serial device is opened for the given options.
pub fn get_serial_port(args: &Args) -> (setup: PortSetup)
    ensures
        setup == PortSetup::of_args(*args),
{
    let databits = match args.databits {
        5 => DataBits::Five,
        6 => DataBits::Six,
        7 => DataBits::Seven,
        _ => DataBits::Eight,
    };
    if args.noinit {
        PortSetup::Preserve { port: args.port.clone(), baud: args.baud }
    } else {
        PortSetup::Configure {
            port: args.port.clone(),
            baud: args.baud,
            flow: args.flow.to_serialport(),
            parity: args.parity.to_serialport(),
            data_bits: databits,
        }
    }
}

} // verus!
