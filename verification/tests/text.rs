use nanocom::args::{Args, FlowControl as FlowOption, Parity as ParityOption};
use nanocom::line::{DataBits, FlowControl, Parity, Setting, StopBits, Value};
use nanocom::notice::Notice;
use nanocom::state::State;
use nanocom::utils::{parse_u32, push_decimal};

fn options() -> Args {
    Args {
        baud: 9600,
        flow: FlowOption::N,
        parity: ParityOption::N,
        databits: 8,
        escape: 'a',
        noinit: false,
        noreset: false,
        nolock: false,
        port: String::from("/dev/ttyUSB0"),
    }
}

fn decimal(n: u32) -> String {
    let mut text = String::new();
    push_decimal(&mut text, n);
    text
}

#[test]
fn numbers_are_written_in_decimal() {
    for n in [0u32, 1, 9, 10, 11, 99, 100, 101, 9600, 115200, 4000000, 4294967295] {
        assert_eq!(decimal(n), format!("{}", n));
    }
    let mut text = String::from("baud: ");
    push_decimal(&mut text, 50);
    assert_eq!(text, "baud: 50");
}

#[test]
fn numbers_are_read_in_decimal() {
    let read = |line: &str| parse_u32(&line.chars().collect());
    assert_eq!(read("0"), Some(0));
    assert_eq!(read("9600"), Some(9600));
    assert_eq!(read("+9600"), Some(9600));
    assert_eq!(read("0009600"), Some(9600));
    assert_eq!(read("+0"), Some(0));
    assert_eq!(read("4294967295"), Some(4294967295));
    assert_eq!(read("4294967296"), None);
    assert_eq!(read("42949672950"), None);
    assert_eq!(read("99999999999999999999"), None);
    assert_eq!(read(""), None);
    assert_eq!(read("+"), None);
    assert_eq!(read("-"), None);
    assert_eq!(read("-1"), None);
    assert_eq!(read("++1"), None);
    assert_eq!(read("1+"), None);
    assert_eq!(read(" 1"), None);
    assert_eq!(read("1 "), None);
    assert_eq!(read("1_000"), None);
    assert_eq!(read("0x10"), None);
    assert_eq!(read("12a"), None);
    assert_eq!(read("٣"), None);
}

#[test]
fn what_is_written_is_read_back() {
    for n in [0u32, 7, 50, 9600, 1152000, u32::MAX] {
        assert_eq!(parse_u32(&decimal(n).chars().collect()), Some(n));
    }
}

#[test]
fn changed_settings_use_the_words_of_the_serial_library() {
    let cases = [
        (Value::Baud(19200), "\r\n*** baud: 19200 ***\r\n\n"),
        (Value::DataBits(DataBits::Five), "\r\n*** databits: Five ***\r\n\n"),
        (Value::DataBits(DataBits::Six), "\r\n*** databits: Six ***\r\n\n"),
        (Value::DataBits(DataBits::Seven), "\r\n*** databits: Seven ***\r\n\n"),
        (Value::DataBits(DataBits::Eight), "\r\n*** databits: Eight ***\r\n\n"),
        (Value::StopBits(StopBits::One), "\r\n*** stopbits: One ***\r\n\n"),
        (Value::StopBits(StopBits::Two), "\r\n*** stopbits: Two ***\r\n\n"),
        (Value::FlowControl(FlowControl::Off), "\r\n*** flow: None ***\r\n\n"),
        (Value::FlowControl(FlowControl::Software), "\r\n*** flow: Software ***\r\n\n"),
        (Value::FlowControl(FlowControl::Hardware), "\r\n*** flow: Hardware ***\r\n\n"),
        (Value::Parity(Parity::Off), "\r\n*** parity: None ***\r\n\n"),
        (Value::Parity(Parity::Odd), "\r\n*** parity: Odd ***\r\n\n"),
        (Value::Parity(Parity::Even), "\r\n*** parity: Even ***\r\n\n"),
    ];
    for (value, text) in cases {
        assert_eq!(Notice::Changed(value).text(""), text);
    }
}

#[test]
fn failures_of_settings() {
    let cases = [
        (Notice::ReadFailed(Setting::Baud), "\r\n*** Failed to read baud \r\n\n"),
        (Notice::ReadFailed(Setting::FlowControl), "\r\n*** Failed to read flow control \r\n\n"),
        (Notice::ReadFailed(Setting::Parity), "\r\n*** Failed to read parity \r\n\n"),
        (Notice::ReadFailed(Setting::DataBits), "\r\n*** Failed to write data bits \r\n\n"),
        (Notice::ReadFailed(Setting::StopBits), "\r\n*** Failed to read stop bits \r\n\n"),
        (Notice::WriteFailed(Setting::Baud), "\r\n*** Failed to set baud \r\n\n"),
        (Notice::WriteFailed(Setting::FlowControl), "\r\n*** Failed to write flow control \r\n\n"),
        (Notice::WriteFailed(Setting::Parity), "\r\n*** Failed to write parity \r\n\n"),
        (Notice::WriteFailed(Setting::DataBits), "\r\n*** Failed to write data bits \r\n\n"),
        (Notice::WriteFailed(Setting::StopBits), "\r\n*** Failed to write stop bits \r\n\n"),
    ];
    for (notice, text) in cases {
        assert_eq!(notice.text("ignored"), text);
    }
}

#[test]
fn signals_and_local_echo() {
    let cases = [
        (Notice::Dtr(true), "\r\n*** dtr: up ***\r\n\n"),
        (Notice::Dtr(false), "\r\n*** dtr: down ***\r\n\n"),
        (Notice::DtrLowerFailed, "\r\n*** Failed to lower dtr \r\n\n"),
        (Notice::DtrRaiseFailed, "\r\n*** Failed to raise dtr \r\n\n"),
        (Notice::DtrToggleFailed, "\r\n*** Failed to toggle dtr \r\n\n"),
        (Notice::Rts(true), "\r\n*** rts: up ***\r\n\n"),
        (Notice::Rts(false), "\r\n*** rts: down ***\r\n\n"),
        (Notice::RtsToggleFailed, "\r\n*** Failed to toggle rts \r\n\n"),
        (Notice::LocalEcho(true), "\r\n*** local echo: on ***\r\n\n"),
        (Notice::LocalEcho(false), "\r\n*** local echo: off ***\r\n\n"),
    ];
    for (notice, text) in cases {
        assert_eq!(notice.text(""), text);
    }
}

#[test]
fn prompt_and_losses() {
    assert_eq!(Notice::BaudPrompt.text(""), "\r\n\r\n*** baud: ");
    assert_eq!(Notice::InvalidNumber.text(""), "\r\n*** Please enter a valid number\r\n\n");
    assert_eq!(
        Notice::ConsoleLost.text(""),
        "\r\n*** Failed to read from console, exiting. \r\n\n"
    );
    assert_eq!(Notice::InputLost.text("x"), "*** Input stream disconnected exiting. \n");
}

#[test]
fn failures_of_the_line_quote_their_cause() {
    assert_eq!(
        Notice::PortReadFailed.text("device gone"),
        "\r\n*** Failed to read from port, exiting \r\ndevice gone \n"
    );
    assert_eq!(
        Notice::PortWriteFailed.text("broken pipe"),
        "\r\n*** Failed to write to port, reason: \r\nbroken pipe\n"
    );
    assert_eq!(
        Notice::PortWriteFailed.text(""),
        "\r\n*** Failed to write to port, reason: \r\n\n"
    );
}

#[test]
fn settings_list() {
    let notice = Notice::Settings {
        baud: 115200,
        flow: FlowControl::Hardware,
        parity: Parity::Even,
        data_bits: DataBits::Seven,
        stop_bits: StopBits::Two,
        dtr: true,
        rts: false,
    };
    assert_eq!(
        notice.text(""),
        "\r\n*** baud: 115200\r\n*** flow: Hardware\r\n*** parity: Even\r\n*** databits: Seven\r\n*** stopbits: Two\r\n*** dtr: up\r\n*** rts: down\r\n\n"
    );
}

#[test]
fn help_list() {
    let text = Notice::Help('a').text("");
    assert_eq!(
        text,
        "\r\n*** nanocom commands (all prefixed by [C-a])\r\n\
        \r\n\
        *** [C-x] : Exit nanocom\r\n\
        *** [C-q] : Exit without resetting serial port\r\n\
        *** [C-b] : Set baudrate\r\n\
        *** [C-u] : Increase baudrate (baud-up)\r\n\
        *** [C-d] : Decrease baudrate (baud-down)\r\n\
        *** [C-i] : Change number of databits\r\n\
        *** [C-j] : Change number of stopbits\r\n\
        *** [C-f] : Change flow-control mode\r\n\
        *** [C-y] : Change parity mode\r\n\
        *** [C-p] : Pulse DTR\r\n\
        *** [C-t] : Toggle DTR\r\n\
        *** [C-g] : Toggle RTS\r\n\
        *** [C-c] : Toggle local echo\r\n\
        *** [C-v] : Show port settings\r\n\
        *** [C-h] : Show this message\r\n\
        \n"
    );
    assert!(Notice::Help('é').text("").starts_with("\r\n*** nanocom commands (all prefixed by [C-é])"));
}

#[test]
fn options_at_start_up() {
    assert_eq!(
        options().show_state(),
        "port is        : /dev/ttyUSB0\n\r\
        flowcontrol    : none\r\n\
        baudrate is    : 9600\r\n\
        parity is      : none\r\n\
        databits are   : 8\r\n\
        escape is      : C-a\r\n\
        noinit is      : yes\r\n\
        noreset is     : yes\r\n\
        nolock is      : yes\r\n\n            "
    );
    let other = Args {
        baud: 115200,
        flow: FlowOption::X,
        parity: ParityOption::E,
        databits: 5,
        escape: 'q',
        noinit: true,
        noreset: true,
        nolock: true,
        port: String::from("COM3"),
    };
    assert_eq!(
        other.show_state(),
        "port is        : COM3\n\r\
        flowcontrol    : xon/xoff\r\n\
        baudrate is    : 115200\r\n\
        parity is      : even\r\n\
        databits are   : 5\r\n\
        escape is      : C-q\r\n\
        noinit is      : no\r\n\
        noreset is     : no\r\n\
        nolock is      : no\r\n\n            "
    );
}

#[test]
fn option_words_and_letters() {
    assert_eq!(FlowOption::X.show(), "xon/xoff");
    assert_eq!(FlowOption::H.show(), "hardware");
    assert_eq!(FlowOption::N.show(), "none");
    assert_eq!(ParityOption::O.show(), "odd");
    assert_eq!(ParityOption::E.show(), "even");
    assert_eq!(ParityOption::N.show(), "none");
    assert_eq!(FlowOption::X.to_string(), "x");
    assert_eq!(FlowOption::H.to_string(), "h");
    assert_eq!(FlowOption::N.to_string(), "n");
    assert_eq!(ParityOption::O.to_string(), "o");
    assert_eq!(ParityOption::E.to_string(), "e");
    assert_eq!(ParityOption::N.to_string(), "n");
}

#[test]
fn port_settings_list() {
    let mut state = State::new_from_args(&options());
    state.rts = true;
    assert_eq!(
        state.port_settings(
            57600,
            FlowControl::Software,
            Parity::Odd,
            DataBits::Eight,
            StopBits::One
        ),
        "*** baud: 57600\r\n**** flow: Software\r\n**** parity: Odd\r\n**** databits: Eight\r\n**** stopbits: One\r\n**** dtr: down\r\n**** rts: up\r\n"
    );
    state.dtr = true;
    state.rts = false;
    assert_eq!(
        state.port_settings(50, FlowControl::Off, Parity::Off, DataBits::Five, StopBits::Two),
        "*** baud: 50\r\n**** flow: None\r\n**** parity: None\r\n**** databits: Five\r\n**** stopbits: Two\r\n**** dtr: up\r\n**** rts: down\r\n"
    );
}

#[test]
fn numbers_are_read_as_the_standard_parser_reads_them() {
    let lines = [
        "", "+", "-", "0", "+0", "-0", "00", "1", "+1", "-1", "++1", "+-1", "12", "1 2", " 12",
        "12 ", "1e3", "0x1f", "1_000", "9600", "115200", "4294967295", "4294967296",
        "+4294967295", "+4294967296", "04294967295", "18446744073709551616", "٣", "１２", "abc",
        "\t5", "5\n",
    ];
    for line in lines {
        assert_eq!(
            parse_u32(&line.chars().collect()),
            u32::from_str_radix(line, 10).ok(),
            "line {:?}",
            line
        );
    }
}
