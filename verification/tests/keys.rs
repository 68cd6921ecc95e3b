use nanocom::key::{EscapeSequence, Key, KeyIn, Platform};
use nanocom::utils::get_ascii_byte;

#[test]
fn printable_key_is_its_byte() {
    assert_eq!(KeyIn::from_console_key(&Key::Char('a'), Platform::Unix), KeyIn::Char(97));
    assert_eq!(KeyIn::from_console_key(&Key::Char('~'), Platform::Windows), KeyIn::Char(126));
    assert_eq!(KeyIn::from_console_key(&Key::Char('\u{1}'), Platform::Unix), KeyIn::Char(1));
    assert_eq!(KeyIn::from_console_key(&Key::Char('\u{7f}'), Platform::Unix), KeyIn::Char(127));
}

#[test]
fn key_outside_ascii_is_nothing() {
    assert_eq!(KeyIn::from_console_key(&Key::Char('é'), Platform::Unix), KeyIn::Nothing);
    assert_eq!(KeyIn::from_console_key(&Key::Char('\u{80}'), Platform::Windows), KeyIn::Nothing);
    assert_eq!(KeyIn::from_console_key(&Key::Char('\u{10ffff}'), Platform::Unix), KeyIn::Nothing);
}

#[test]
fn editing_keys_are_control_bytes() {
    for platform in [Platform::Unix, Platform::Windows] {
        assert_eq!(KeyIn::from_console_key(&Key::CtrlC, platform), KeyIn::Char(3));
        assert_eq!(KeyIn::from_console_key(&Key::Tab, platform), KeyIn::Char(9));
        assert_eq!(KeyIn::from_console_key(&Key::Enter, platform), KeyIn::Char(13));
        assert_eq!(KeyIn::from_console_key(&Key::Escape, platform), KeyIn::Char(27));
        assert_eq!(KeyIn::from_console_key(&Key::Backspace, platform), KeyIn::Char(127));
    }
}

#[test]
fn home_and_end_depend_on_platform() {
    assert_eq!(KeyIn::from_console_key(&Key::Home, Platform::Unix), KeyIn::Char(1));
    assert_eq!(KeyIn::from_console_key(&Key::End, Platform::Unix), KeyIn::Char(5));
    assert_eq!(
        KeyIn::from_console_key(&Key::Home, Platform::Windows),
        KeyIn::Escape(EscapeSequence::Home)
    );
    assert_eq!(
        KeyIn::from_console_key(&Key::End, Platform::Windows),
        KeyIn::Escape(EscapeSequence::End)
    );
    assert_eq!(
        KeyIn::from_console_key(&Key::Home, Platform::Windows).to_bytes(),
        vec![27, 91, 49, 126]
    );
    assert_eq!(KeyIn::from_console_key(&Key::Home, Platform::Unix).to_bytes(), vec![1]);
}

#[test]
fn named_keys_are_escape_sequences() {
    let cases = [
        (Key::ArrowLeft, EscapeSequence::ArrowLeft),
        (Key::ArrowRight, EscapeSequence::ArrowRight),
        (Key::ArrowUp, EscapeSequence::ArrowUp),
        (Key::ArrowDown, EscapeSequence::ArrowDown),
        (Key::BackTab, EscapeSequence::BackTab),
        (Key::Alt, EscapeSequence::Alt),
        (Key::Home, EscapeSequence::Home),
        (Key::End, EscapeSequence::End),
        (Key::Del, EscapeSequence::Del),
        (Key::Insert, EscapeSequence::Insert),
        (Key::PageUp, EscapeSequence::PageUp),
        (Key::PageDown, EscapeSequence::PageDown),
    ];
    for (key, sequence) in cases {
        assert_eq!(EscapeSequence::from_console_key(&key), sequence);
    }
}

#[test]
fn other_keys_are_invalid_sequences() {
    for key in [
        Key::Unknown,
        Key::Shift,
        Key::Enter,
        Key::Escape,
        Key::Backspace,
        Key::Tab,
        Key::CtrlC,
        Key::Char('x'),
    ] {
        assert_eq!(EscapeSequence::from_console_key(&key), EscapeSequence::Invalid);
    }
    assert_eq!(
        KeyIn::from_console_key(&Key::Unknown, Platform::Unix),
        KeyIn::Escape(EscapeSequence::Invalid)
    );
    assert_eq!(
        KeyIn::from_console_key(&Key::Shift, Platform::Windows),
        KeyIn::Escape(EscapeSequence::Invalid)
    );
}

#[test]
fn unknown_sequence_keeps_its_bytes() {
    let key = Key::UnknownEscSeq(vec!['[', '1', '5', '~']);
    assert_eq!(
        EscapeSequence::from_console_key(&key),
        EscapeSequence::UnknownSeq(vec![91, 49, 53, 126])
    );
    assert_eq!(
        KeyIn::from_console_key(&key, Platform::Unix),
        KeyIn::Escape(EscapeSequence::UnknownSeq(vec![91, 49, 53, 126]))
    );
    assert_eq!(
        EscapeSequence::from_console_key(&Key::UnknownEscSeq(vec![])),
        EscapeSequence::UnknownSeq(vec![])
    );
}

#[test]
fn unknown_sequence_outside_ascii_is_invalid() {
    let key = Key::UnknownEscSeq(vec!['[', 'é']);
    assert_eq!(EscapeSequence::from_console_key(&key), EscapeSequence::Invalid);
    let key = Key::UnknownEscSeq(vec!['\u{80}']);
    assert_eq!(EscapeSequence::from_console_key(&key), EscapeSequence::Invalid);
}

#[test]
fn escape_sequences_have_their_terminal_bytes() {
    assert_eq!(EscapeSequence::ArrowLeft.to_bytes(), vec![27, 91, 68]);
    assert_eq!(EscapeSequence::ArrowRight.to_bytes(), vec![27, 91, 67]);
    assert_eq!(EscapeSequence::ArrowUp.to_bytes(), vec![27, 91, 65]);
    assert_eq!(EscapeSequence::ArrowDown.to_bytes(), vec![27, 91, 66]);
    assert_eq!(EscapeSequence::BackTab.to_bytes(), vec![27, 91, 90]);
    assert_eq!(EscapeSequence::Alt.to_bytes(), vec![27, 91, 90]);
    assert_eq!(EscapeSequence::Home.to_bytes(), vec![27, 91, 49, 126]);
    assert_eq!(EscapeSequence::End.to_bytes(), vec![27, 91, 52, 126]);
    assert_eq!(EscapeSequence::Del.to_bytes(), vec![27, 91, 51, 126]);
    assert_eq!(EscapeSequence::Insert.to_bytes(), vec![27, 91, 50, 126]);
    assert_eq!(EscapeSequence::PageUp.to_bytes(), vec![27, 91, 53, 126]);
    assert_eq!(EscapeSequence::PageDown.to_bytes(), vec![27, 91, 54, 126]);
}

#[test]
fn sequences_without_a_name_have_no_bytes() {
    assert_eq!(EscapeSequence::Invalid.to_bytes(), Vec::<u8>::new());
    assert_eq!(EscapeSequence::Tab.to_bytes(), Vec::<u8>::new());
    assert_eq!(EscapeSequence::UnknownSeq(vec![27, 91, 57, 64]).to_bytes(), Vec::<u8>::new());
}

#[test]
fn token_bytes() {
    assert_eq!(KeyIn::Char(0).to_bytes(), vec![0]);
    assert_eq!(KeyIn::Char(13).to_bytes(), vec![13]);
    assert_eq!(KeyIn::Char(255).to_bytes(), vec![255]);
    assert_eq!(KeyIn::Nothing.to_bytes(), Vec::<u8>::new());
    assert_eq!(KeyIn::Escape(EscapeSequence::ArrowLeft).to_bytes(), vec![27, 91, 68]);
    assert_eq!(KeyIn::Escape(EscapeSequence::Invalid).to_bytes(), Vec::<u8>::new());
}

#[test]
fn backspace_is_del_and_enter_is_cr() {
    assert_eq!(KeyIn::from_console_key(&Key::Backspace, Platform::Unix).to_bytes(), vec![127]);
    assert_eq!(KeyIn::from_console_key(&Key::Enter, Platform::Unix).to_bytes(), vec![13]);
    assert_eq!(
        KeyIn::from_console_key(&Key::ArrowLeft, Platform::Unix).to_bytes(),
        vec![27, 91, 68]
    );
}

#[test]
fn ascii_byte_of_a_character() {
    assert_eq!(get_ascii_byte('\0'), 0);
    assert_eq!(get_ascii_byte('A'), 65);
    assert_eq!(get_ascii_byte('a'), 97);
    assert_eq!(get_ascii_byte('\u{7f}'), 127);
}
