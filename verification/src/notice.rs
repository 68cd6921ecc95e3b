//! What the program tells its user, as values. Their wording is in
//! [`Notice::text`].

use vstd::prelude::*;
use vstd::string::*;
use crate::line::{
    data_bits_name, data_bits_text, flow_control_name, flow_control_text, parity_name,
    parity_text, stop_bits_name, stop_bits_text, DataBits, FlowControl, Parity, Setting,
    StopBits, Value,
};
use crate::utils::{decimal, push_decimal};

verus! {

/// A message for the user.
#[derive(Clone, Copy, Debug, PartialEq, Eq, Structural)]
pub enum Notice {
    /// The line took a new value for a setting.
    Changed(Value),
    /// The line could not be asked for a setting.
    ReadFailed(Setting),
    /// The line did not take a new value for a setting.
    WriteFailed(Setting),
    /// DTR is now up (`true`) or down.
    Dtr(bool),
    /// DTR could not be lowered for a pulse.
    DtrLowerFailed,
    /// DTR could not be raised after a pulse.
    DtrRaiseFailed,
    /// DTR could not be toggled.
    DtrToggleFailed,
    /// RTS is now up (`true`) or down.
    Rts(bool),
    /// RTS could not be toggled.
    RtsToggleFailed,
    /// Local echo is now on (`true`) or off.
    LocalEcho(bool),
    /// The settings of the line.
    Settings {
        baud: u32,
        flow: FlowControl,
        parity: Parity,
        data_bits: DataBits,
        stop_bits: StopBits,
        dtr: bool,
        rts: bool,
    },
    /// The list of commands, for the given escape character.
    Help(char),
    /// The prompt for a baud rate.
    BaudPrompt,
    /// What was typed at the prompt is no number.
    InvalidNumber,
    /// The keyboard was lost while a line was typed.
    ConsoleLost,
    /// The keyboard was lost.
    InputLost,
    /// Reading from the line failed.
    PortReadFailed,
    /// Writing to the line failed.
    PortWriteFailed,
}


/// The word for the level of a signal.
pub open spec fn level_word(up: bool) -> Seq<char> {
    if up {
        "up"@
    } else {
        "down"@
    }
}

/// The word for a switch.
pub open spec fn switch_word(on: bool) -> Seq<char> {
    if on {
        "on"@
    } else {
        "off"@
    }
}

/// The line that says that a setting has a new value. A baud rate is written
/// in decimal, every other value with the word that `serialport` prints for
/// it.
pub open spec fn changed_wording(value: Value) -> Seq<char> {
    match value {
        Value::Baud(baud) => "\r\n*** baud: "@ + decimal(baud as nat) + " ***\r\n\n"@,
        Value::DataBits(bits) => "\r\n*** databits: "@ + data_bits_name(bits) + " ***\r\n\n"@,
        Value::StopBits(bits) => "\r\n*** stopbits: "@ + stop_bits_name(bits) + " ***\r\n\n"@,
        Value::FlowControl(flow) => "\r\n*** flow: "@ + flow_control_name(flow) + " ***\r\n\n"@,
        Value::Parity(parity) => "\r\n*** parity: "@ + parity_name(parity) + " ***\r\n\n"@,
    }
}

/// The line that says that a setting could not be read.
pub open spec fn read_failed_wording(setting: Setting) -> Seq<char> {
    match setting {
        Setting::Baud => "\r\n*** Failed to read baud \r\n\n"@,
        Setting::FlowControl => "\r\n*** Failed to read flow control \r\n\n"@,
        Setting::Parity => "\r\n*** Failed to read parity \r\n\n"@,
        Setting::DataBits => "\r\n*** Failed to write data bits \r\n\n"@,
        Setting::StopBits => "\r\n*** Failed to read stop bits \r\n\n"@,
    }
}

/// The line that says that a setting could not be changed.
pub open spec fn write_failed_wording(setting: Setting) -> Seq<char> {
    match setting {
        Setting::Baud => "\r\n*** Failed to set baud \r\n\n"@,
        Setting::FlowControl => "\r\n*** Failed to write flow control \r\n\n"@,
        Setting::Parity => "\r\n*** Failed to write parity \r\n\n"@,
        Setting::DataBits => "\r\n*** Failed to write data bits \r\n\n"@,
        Setting::StopBits => "\r\n*** Failed to write stop bits \r\n\n"@,
    }
}

/// The list of the line's settings.
pub open spec fn settings_wording(
    baud: u32,
    flow: FlowControl,
    parity: Parity,
    data_bits: DataBits,
    stop_bits: StopBits,
    dtr: bool,
    rts: bool,
) -> Seq<char> {
    "\r\n*** baud: "@ + decimal(baud as nat) + "\r\n*** flow: "@ + flow_control_name(flow)
        + "\r\n*** parity: "@ + parity_name(parity) + "\r\n*** databits: "@ + data_bits_name(
        data_bits,
    ) + "\r\n*** stopbits: "@ + stop_bits_name(stop_bits) + "\r\n*** dtr: "@ + level_word(dtr)
        + "\r\n*** rts: "@ + level_word(rts) + "\r\n\n"@
}

/// The list of commands, with the escape character in its heading.
pub open spec fn help_wording(escape: char) -> Seq<char> {
    "\r\n*** nanocom commands (all prefixed by [C-"@.push(escape)
        + "])\r\n\r\n*** [C-x] : Exit nanocom\r\n*** [C-q] : Exit without resetting serial port\r\n*** [C-b] : Set baudrate\r\n*** [C-u] : Increase baudrate (baud-up)\r\n*** [C-d] : Decrease baudrate (baud-down)\r\n*** [C-i] : Change number of databits\r\n*** [C-j] : Change number of stopbits\r\n*** [C-f] : Change flow-control mode\r\n*** [C-y] : Change parity mode\r\n*** [C-p] : Pulse DTR\r\n*** [C-t] : Toggle DTR\r\n*** [C-g] : Toggle RTS\r\n*** [C-c] : Toggle local echo\r\n*** [C-v] : Show port settings\r\n*** [C-h] : Show this message\r\n\n"@
}

impl Notice {
    /// The text of the notice, as it is written to the screen. The two
    /// notices of a failed read and a failed write of the line quote `cause`,
    /// the error's own description; the others do not use it.
    pub open spec fn wording(self, cause: Seq<char>) -> Seq<char> {
        match self {
            Notice::Changed(value) => changed_wording(value),
            Notice::ReadFailed(setting) => read_failed_wording(setting),
            Notice::WriteFailed(setting) => write_failed_wording(setting),
            Notice::Dtr(up) => "\r\n*** dtr: "@ + level_word(up) + " ***\r\n\n"@,
            Notice::DtrLowerFailed => "\r\n*** Failed to lower dtr \r\n\n"@,
            Notice::DtrRaiseFailed => "\r\n*** Failed to raise dtr \r\n\n"@,
            Notice::DtrToggleFailed => "\r\n*** Failed to toggle dtr \r\n\n"@,
            Notice::Rts(up) => "\r\n*** rts: "@ + level_word(up) + " ***\r\n\n"@,
            Notice::RtsToggleFailed => "\r\n*** Failed to toggle rts \r\n\n"@,
            Notice::LocalEcho(on) => "\r\n*** local echo: "@ + switch_word(on) + " ***\r\n\n"@,
            Notice::Settings { baud, flow, parity, data_bits, stop_bits, dtr, rts } => settings_wording(
                baud,
                flow,
                parity,
                data_bits,
                stop_bits,
                dtr,
                rts,
            ),
            Notice::Help(escape) => help_wording(escape),
            Notice::BaudPrompt => "\r\n\r\n*** baud: "@,
            Notice::InvalidNumber => "\r\n*** Please enter a valid number\r\n\n"@,
            Notice::ConsoleLost => "\r\n*** Failed to read from console, exiting. \r\n\n"@,
            Notice::InputLost => "*** Input stream disconnected exiting. \n"@,
            Notice::PortReadFailed => "\r\n*** Failed to read from port, exiting \r\n"@ + cause
                + " \n"@,
            Notice::PortWriteFailed => "\r\n*** Failed to write to port, reason: \r\n"@ + cause
                + "\n"@,
        }
    }

    /// Writes the notice out.
    pub fn text(&self, cause: &str) -> (text: String)
        ensures
            text@ == self.wording(cause@),
    {
        match self {
            Notice::Changed(value) => changed_text(*value),
            Notice::ReadFailed(setting) => match setting {
                Setting::Baud => "\r\n*** Failed to read baud \r\n\n".to_owned(),
                Setting::FlowControl => "\r\n*** Failed to read flow control \r\n\n".to_owned(),
                Setting::Parity => "\r\n*** Failed to read parity \r\n\n".to_owned(),
                Setting::DataBits => "\r\n*** Failed to write data bits \r\n\n".to_owned(),
                Setting::StopBits => "\r\n*** Failed to read stop bits \r\n\n".to_owned(),
            },
            Notice::WriteFailed(setting) => match setting {
                Setting::Baud => "\r\n*** Failed to set baud \r\n\n".to_owned(),
                Setting::FlowControl => "\r\n*** Failed to write flow control \r\n\n".to_owned(),
                Setting::Parity => "\r\n*** Failed to write parity \r\n\n".to_owned(),
                Setting::DataBits => "\r\n*** Failed to write data bits \r\n\n".to_owned(),
                Setting::StopBits => "\r\n*** Failed to write stop bits \r\n\n".to_owned(),
            },
            Notice::Dtr(up) => framed("\r\n*** dtr: ", level(*up), " ***\r\n\n"),
            Notice::DtrLowerFailed => "\r\n*** Failed to lower dtr \r\n\n".to_owned(),
            Notice::DtrRaiseFailed => "\r\n*** Failed to raise dtr \r\n\n".to_owned(),
            Notice::DtrToggleFailed => "\r\n*** Failed to toggle dtr \r\n\n".to_owned(),
            Notice::Rts(up) => framed("\r\n*** rts: ", level(*up), " ***\r\n\n"),
            Notice::RtsToggleFailed => "\r\n*** Failed to toggle rts \r\n\n".to_owned(),
            Notice::LocalEcho(on) => framed(
                "\r\n*** local echo: ",
                if *on {
                    "on"
                } else {
                    "off"
                },
                " ***\r\n\n",
            ),
            Notice::Settings { baud, flow, parity, data_bits, stop_bits, dtr, rts } => {
                let mut text = String::from_str("\r\n*** baud: ");
                push_decimal(&mut text, *baud);
                text.append("\r\n*** flow: ");
                text.append(flow_control_text(*flow).as_str());
                text.append("\r\n*** parity: ");
                text.append(parity_text(*parity).as_str());
                text.append("\r\n*** databits: ");
                text.append(data_bits_text(*data_bits).as_str());
                text.append("\r\n*** stopbits: ");
                text.append(stop_bits_text(*stop_bits).as_str());
                text.append("\r\n*** dtr: ");
                text.append(level(*dtr));
                text.append("\r\n*** rts: ");
                text.append(level(*rts));
                text.append("\r\n\n");
                text
            },
            Notice::Help(escape) => {
                let mut text = String::from_str("\r\n*** nanocom commands (all prefixed by [C-");
                text.push(*escape);
                text.append(
                    "])\r\n\r\n*** [C-x] : Exit nanocom\r\n*** [C-q] : Exit without resetting serial port\r\n*** [C-b] : Set baudrate\r\n*** [C-u] : Increase baudrate (baud-up)\r\n*** [C-d] : Decrease baudrate (baud-down)\r\n*** [C-i] : Change number of databits\r\n*** [C-j] : Change number of stopbits\r\n*** [C-f] : Change flow-control mode\r\n*** [C-y] : Change parity mode\r\n*** [C-p] : Pulse DTR\r\n*** [C-t] : Toggle DTR\r\n*** [C-g] : Toggle RTS\r\n*** [C-c] : Toggle local echo\r\n*** [C-v] : Show port settings\r\n*** [C-h] : Show this message\r\n\n",
                );
                text
            },
            Notice::BaudPrompt => "\r\n\r\n*** baud: ".to_owned(),
            Notice::InvalidNumber => "\r\n*** Please enter a valid number\r\n\n".to_owned(),
            Notice::ConsoleLost => "\r\n*** Failed to read from console, exiting. \r\n\n".to_owned(),
            Notice::InputLost => "*** Input stream disconnected exiting. \n".to_owned(),
            Notice::PortReadFailed => framed(
                "\r\n*** Failed to read from port, exiting \r\n",
                cause,
                " \n",
            ),
            Notice::PortWriteFailed => framed(
                "\r\n*** Failed to write to port, reason: \r\n",
                cause,
                "\n",
            ),
        }
    }
}

/// The word for the level of a signal.
fn level(up: bool) -> (word: &'static str)
    ensures
        word@ == level_word(up),
{
    if up {
        "up"
    } else {
        "down"
    }
}

/// Puts a text between two others.
fn framed(before: &str, middle: &str, after: &str) -> (text: String)
    ensures
        text@ == before@ + middle@ + after@,
{
    let mut text = String::from_str(before);
    text.append(middle);
    text.append(after);
    text
}

/// Writes out that a setting has a new value.
fn changed_text(value: Value) -> (text: String)
    ensures
        text@ == changed_wording(value),
{
    match value {
        Value::Baud(baud) => {
            let mut text = String::from_str("\r\n*** baud: ");
            push_decimal(&mut text, baud);
            text.append(" ***\r\n\n");
            text
        },
        Value::DataBits(bits) => framed(
            "\r\n*** databits: ",
            data_bits_text(bits).as_str(),
            " ***\r\n\n",
        ),
        Value::StopBits(bits) => framed(
            "\r\n*** stopbits: ",
            stop_bits_text(bits).as_str(),
            " ***\r\n\n",
        ),
        Value::FlowControl(flow) => framed(
            "\r\n*** flow: ",
            flow_control_text(flow).as_str(),
            " ***\r\n\n",
        ),
        Value::Parity(parity) => framed(
            "\r\n*** parity: ",
            parity_text(parity).as_str(),
            " ***\r\n\n",
        ),
    }
}

} // verus!
