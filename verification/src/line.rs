//! The settings of the serial line as plain values, and what the machines of
//! this library ask of the line and hear back from it.
//!
//! The device itself is driven by the `serialport` crate in the program around
//! this library, which turns each [`Reply`] it gets into one of these values.

use vstd::prelude::*;

verus! {

/// Number of bits per character.
#[derive(Clone, Copy, Debug, PartialEq, Eq, Structural)]
pub enum DataBits {
    Five,
    Six,
    Seven,
    Eight,
}

/// Parity checking mode.
#[derive(Clone, Copy, Debug, PartialEq, Eq, Structural)]
pub enum Parity {
    /// No parity bit.
    Off,
    Odd,
    Even,
}

/// Number of stop bits.
#[derive(Clone, Copy, Debug, PartialEq, Eq, Structural)]
pub enum StopBits {
    One,
    Two,
}

/// Flow control mode.
#[derive(Clone, Copy, Debug, PartialEq, Eq, Structural)]
pub enum FlowControl {
    /// No flow control.
    Off,
    /// XON/XOFF bytes.
    Software,
    /// RTS/CTS signals.
    Hardware,
}

/// The settings that the line reports and takes.
#[derive(Clone, Copy, Debug, PartialEq, Eq, Structural)]
pub enum Setting {
    Baud,
    DataBits,
    StopBits,
    Parity,
    FlowControl,
}

/// A setting together with a value for it.
#[derive(Clone, Copy, Debug, PartialEq, Eq, Structural)]
pub enum Value {
    Baud(u32),
    DataBits(DataBits),
    StopBits(StopBits),
    Parity(Parity),
    FlowControl(FlowControl),
}

/// What the line answered to a request.
#[derive(Clone, Copy, Debug, PartialEq, Eq, Structural)]
pub enum Reply {
    /// The setting that was asked for.
    Value(Value),
    /// The line took what it was given.
    Done,
    /// The line reported an error.
    Failed,
}

impl Value {
    /// The setting that this is a value of.
    pub open spec fn spec_setting(self) -> Setting {
        match self {
            Value::Baud(_) => Setting::Baud,
            Value::DataBits(_) => Setting::DataBits,
            Value::StopBits(_) => Setting::StopBits,
            Value::Parity(_) => Setting::Parity,
            Value::FlowControl(_) => Setting::FlowControl,
        }
    }

    /// The setting that this is a value of.
    #[verifier::when_used_as_spec(spec_setting)]
    pub fn setting(self) -> (setting: Setting)
        ensures
            setting == self.spec_setting(),
    {
        match self {
            Value::Baud(_) => Setting::Baud,
            Value::DataBits(_) => Setting::DataBits,
            Value::StopBits(_) => Setting::StopBits,
            Value::Parity(_) => Setting::Parity,
            Value::FlowControl(_) => Setting::FlowControl,
        }
    }
}

/// The word that `serialport` prints for a character size.
pub open spec fn data_bits_name(bits: DataBits) -> Seq<char> {
    match bits {
        DataBits::Five => "Five"@,
        DataBits::Six => "Six"@,
        DataBits::Seven => "Seven"@,
        DataBits::Eight => "Eight"@,
    }
}

/// The word that `serialport` prints for a parity mode.
pub open spec fn parity_name(parity: Parity) -> Seq<char> {
    match parity {
        Parity::Off => "None"@,
        Parity::Odd => "Odd"@,
        Parity::Even => "Even"@,
    }
}

/// The word that `serialport` prints for a number of stop bits.
pub open spec fn stop_bits_name(bits: StopBits) -> Seq<char> {
    match bits {
        StopBits::One => "One"@,
        StopBits::Two => "Two"@,
    }
}

/// The word that `serialport` prints for a flow control mode.
pub open spec fn flow_control_name(flow: FlowControl) -> Seq<char> {
    match flow {
        FlowControl::Off => "None"@,
        FlowControl::Software => "Software"@,
        FlowControl::Hardware => "Hardware"@,
    }
}

/// Formats a character size with `serialport::DataBits`'s `Display`, which
/// writes the English word of the number with a capital: "Five" to "Eight".
/// Trusted: the body is not verified.
#[verifier::external_body]
pub(crate) fn data_bits_text(bits: DataBits) -> (text: String)
    ensures
        text@ == data_bits_name(bits),
{
    let outside = match bits {
        DataBits::Five => serialport::DataBits::Five,
        DataBits::Six => serialport::DataBits::Six,
        DataBits::Seven => serialport::DataBits::Seven,
        DataBits::Eight => serialport::DataBits::Eight,
    };
    outside.to_string()
}

/// Formats a parity mode with `serialport::Parity`'s `Display`, which writes
/// the variant's name: "None", "Odd" or "Even". Trusted: the body is not
/// verified.
#[verifier::external_body]
pub(crate) fn parity_text(parity: Parity) -> (text: String)
    ensures
        text@ == parity_name(parity),
{
    let outside = match parity {
        Parity::Off => serialport::Parity::None,
        Parity::Odd => serialport::Parity::Odd,
        Parity::Even => serialport::Parity::Even,
    };
    outside.to_string()
}

/// Formats a number of stop bits with `serialport::StopBits`'s `Display`,
/// which writes "One" or "Two". Trusted: the body is not verified.
#[verifier::external_body]
pub(crate) fn stop_bits_text(bits: StopBits) -> (text: String)
    ensures
        text@ == stop_bits_name(bits),
{
    let outside = match bits {
        StopBits::One => serialport::StopBits::One,
        StopBits::Two => serialport::StopBits::Two,
    };
    outside.to_string()
}

/// Formats a flow control mode with `serialport::FlowControl`'s `Display`,
/// which writes the variant's name: "None", "Software" or "Hardware".
/// Trusted: the body is not verified.
#[verifier::external_body]
pub(crate) fn flow_control_text(flow: FlowControl) -> (text: String)
    ensures
        text@ == flow_control_name(flow),
{
    let outside = match flow {
        FlowControl::Off => serialport::FlowControl::None,
        FlowControl::Software => serialport::FlowControl::Software,
        FlowControl::Hardware => serialport::FlowControl::Hardware,
    };
    outside.to_string()
}

} // verus!
