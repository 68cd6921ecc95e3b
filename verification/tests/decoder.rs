use nanocom::key::{EscapeSequence, KeyIn};
use nanocom::serial_in::{
    handle_csi, handle_escape, handle_nf, handle_os, handle_single, match_csi,
    poll_port_parse_data, try_get_char, Parse, ReadOutcome,
};

fn feed(bytes: &[u8]) -> (Vec<KeyIn>, Vec<u8>) {
    let mut partial = vec![];
    let mut units = vec![];
    for byte in bytes {
        let outcome = ReadOutcome::Read { count: 1, first: *byte };
        match poll_port_parse_data(outcome, &mut partial).unwrap() {
            KeyIn::Nothing => {}
            unit => units.push(unit),
        }
    }
    (units, partial)
}

fn one(bytes: &[u8]) -> KeyIn {
    let (mut units, partial) = feed(bytes);
    assert_eq!(partial, Vec::<u8>::new());
    assert_eq!(units.len(), 1);
    units.remove(0)
}

#[test]
fn read_outcomes() {
    assert_eq!(try_get_char(ReadOutcome::Read { count: 0, first: 65 }), Ok(None));
    assert_eq!(try_get_char(ReadOutcome::Read { count: 1, first: 65 }), Ok(Some(65)));
    assert_eq!(try_get_char(ReadOutcome::Read { count: 7, first: 0 }), Ok(Some(0)));
    assert_eq!(try_get_char(ReadOutcome::TimedOut), Ok(None));
    assert_eq!(try_get_char(ReadOutcome::Eof), Ok(None));
    assert_eq!(try_get_char(ReadOutcome::Failed), Err(()));
}

#[test]
fn arrows_are_named() {
    assert_eq!(one(&[0x1B, b'[', b'A']), KeyIn::Escape(EscapeSequence::ArrowUp));
    assert_eq!(one(&[0x1B, b'[', b'B']), KeyIn::Escape(EscapeSequence::ArrowDown));
    assert_eq!(one(&[0x1B, b'[', b'C']), KeyIn::Escape(EscapeSequence::ArrowRight));
    assert_eq!(one(&[0x1B, b'[', b'D']), KeyIn::Escape(EscapeSequence::ArrowLeft));
    assert_eq!(one(&[0x1B, b'[', b'Z']), KeyIn::Escape(EscapeSequence::BackTab));
}

#[test]
fn editing_keys_are_named() {
    assert_eq!(one(&[0x1B, b'[', b'1', b'~']), KeyIn::Escape(EscapeSequence::Home));
    assert_eq!(one(&[0x1B, b'[', b'2', b'~']), KeyIn::Escape(EscapeSequence::Insert));
    assert_eq!(one(&[0x1B, b'[', b'3', b'~']), KeyIn::Escape(EscapeSequence::Del));
    assert_eq!(one(&[0x1B, b'[', b'4', b'~']), KeyIn::Escape(EscapeSequence::End));
    assert_eq!(one(&[0x1B, b'[', b'5', b'~']), KeyIn::Escape(EscapeSequence::PageUp));
    assert_eq!(one(&[0x1B, b'[', b'6', b'~']), KeyIn::Escape(EscapeSequence::PageDown));
}

#[test]
fn control_sequence_goes_on_until_its_final_byte() {
    let (units, partial) = feed(&[0x1B, b'[', b'9', b'9']);
    assert_eq!(units, vec![]);
    assert_eq!(partial, vec![0x1B, 0x5B, 0x39, 0x39]);
}

#[test]
fn control_sequences_off_the_table_are_unknown() {
    assert_eq!(
        one(&[0x1B, b'[', b'H']),
        KeyIn::Escape(EscapeSequence::UnknownSeq(vec![0x1B, 0x5B, 0x48]))
    );
    assert_eq!(
        one(&[0x1B, b'[', b'9', b'~']),
        KeyIn::Escape(EscapeSequence::UnknownSeq(vec![0x1B, 0x5B, 0x39, 0x7E]))
    );
    assert_eq!(
        one(&[0x1B, b'[', b'1', b'@']),
        KeyIn::Escape(EscapeSequence::UnknownSeq(vec![0x1B, 0x5B, 0x31, 0x40]))
    );
}

#[test]
fn control_sequences_of_other_lengths_are_not_looked_up() {
    assert_eq!(one(&[0x1B, b'[', b'1', b'2', b'3', b'@']), KeyIn::Escape(EscapeSequence::End));
    assert_eq!(one(&[0x1B, b'[', b'1', b'0', b'~']), KeyIn::Escape(EscapeSequence::End));
    assert_eq!(one(&[0x1B, b'[', b'1', b';', b'5', b'A']), KeyIn::Escape(EscapeSequence::End));
}

#[test]
fn csi_table() {
    assert_eq!(match_csi(vec![0x1B, 0x5B, 0x44]), EscapeSequence::ArrowLeft);
    assert_eq!(match_csi(vec![0x1B, 0x5B, 0x43]), EscapeSequence::ArrowRight);
    assert_eq!(match_csi(vec![0x1B, 0x5B, 0x41]), EscapeSequence::ArrowUp);
    assert_eq!(match_csi(vec![0x1B, 0x5B, 0x42]), EscapeSequence::ArrowDown);
    assert_eq!(match_csi(vec![0x1B, 0x5B, 0x5A]), EscapeSequence::BackTab);
    assert_eq!(match_csi(vec![0x1B, 0x5B, 0x31, 0x7E]), EscapeSequence::Home);
    assert_eq!(match_csi(vec![0x1B, 0x5B, 0x34, 0x7E]), EscapeSequence::End);
    assert_eq!(match_csi(vec![0x1B, 0x5B, 0x33, 0x7E]), EscapeSequence::Del);
    assert_eq!(match_csi(vec![0x1B, 0x5B, 0x32, 0x7E]), EscapeSequence::Insert);
    assert_eq!(match_csi(vec![0x1B, 0x5B, 0x35, 0x7E]), EscapeSequence::PageUp);
    assert_eq!(match_csi(vec![0x1B, 0x5B, 0x36, 0x7E]), EscapeSequence::PageDown);
}

#[test]
fn csi_table_misses() {
    assert_eq!(match_csi(vec![]), EscapeSequence::End);
    assert_eq!(match_csi(vec![0x1B, 0x5B]), EscapeSequence::End);
    assert_eq!(match_csi(vec![0x1B, 0x5B, 0x31, 0x32, 0x7E]), EscapeSequence::End);
    assert_eq!(
        match_csi(vec![0x1B, 0x5B, 0x45]),
        EscapeSequence::UnknownSeq(vec![0x1B, 0x5B, 0x45])
    );
    assert_eq!(
        match_csi(vec![0x1B, 0x5B, 0x31, 0x7D]),
        EscapeSequence::UnknownSeq(vec![0x1B, 0x5B, 0x31, 0x7D])
    );
    assert_eq!(
        match_csi(vec![0x1B, 0x5B, 0x37, 0x7E]),
        EscapeSequence::UnknownSeq(vec![0x1B, 0x5B, 0x37, 0x7E])
    );
    assert_eq!(
        match_csi(vec![0x1A, 0x5B, 0x44]),
        EscapeSequence::UnknownSeq(vec![0x1A, 0x5B, 0x44])
    );
    assert_eq!(
        match_csi(vec![0x1B, 0x5C, 0x31, 0x7E]),
        EscapeSequence::UnknownSeq(vec![0x1B, 0x5C, 0x31, 0x7E])
    );
    assert_eq!(match_csi(vec![1, 2, 3]), EscapeSequence::UnknownSeq(vec![1, 2, 3]));
}

#[test]
fn nf_sequences_are_unknown() {
    assert_eq!(
        one(&[0x1B, b' ', b'F']),
        KeyIn::Escape(EscapeSequence::UnknownSeq(vec![0x1B, 0x20, 0x46]))
    );
    assert_eq!(
        one(&[0x1B, b'(', b'#', b'/', b'0']),
        KeyIn::Escape(EscapeSequence::UnknownSeq(vec![0x1B, 0x28, 0x23, 0x2F, 0x30]))
    );
    assert_eq!(
        one(&[0x1B, 0x2F, 0x7F, 0x7E]),
        KeyIn::Escape(EscapeSequence::UnknownSeq(vec![0x1B, 0x2F, 0x7F, 0x7E]))
    );
}

#[test]
fn os_commands_end_in_three_ways() {
    assert_eq!(
        one(&[0x1B, b']', b'0', b';', b'x', 0x07]),
        KeyIn::Escape(EscapeSequence::UnknownSeq(vec![0x1B, 0x5D, 0x30, 0x3B, 0x78, 0x07]))
    );
    assert_eq!(
        one(&[0x1B, b']', b'x', 0x9C]),
        KeyIn::Escape(EscapeSequence::UnknownSeq(vec![0x1B, 0x5D, 0x78, 0x9C]))
    );
    assert_eq!(
        one(&[0x1B, b']', b'x', 0x1B, 0x5C]),
        KeyIn::Escape(EscapeSequence::UnknownSeq(vec![0x1B, 0x5D, 0x78, 0x1B, 0x5C]))
    );
    assert_eq!(
        one(&[0x1B, b']', 0x07]),
        KeyIn::Escape(EscapeSequence::UnknownSeq(vec![0x1B, 0x5D, 0x07]))
    );
}

#[test]
fn os_command_goes_on_over_a_lone_backslash_or_escape() {
    let (units, partial) = feed(&[0x1B, b']', 0x5C, 0x1B, b'x', 0x5C]);
    assert_eq!(units, vec![]);
    assert_eq!(partial, vec![0x1B, 0x5D, 0x5C, 0x1B, 0x78, 0x5C]);
    assert_eq!(
        one(&[0x1B, b']', 0x5C, 0x1B, b'x', 0x5C, 0x1B, 0x5C]),
        KeyIn::Escape(EscapeSequence::UnknownSeq(vec![
            0x1B, 0x5D, 0x5C, 0x1B, 0x78, 0x5C, 0x1B, 0x5C
        ]))
    );
}

#[test]
fn escape_and_one_byte() {
    assert_eq!(one(&[0x1B, b'c']), KeyIn::Escape(EscapeSequence::UnknownSeq(vec![0x1B, 0x63])));
    assert_eq!(one(&[0x1B, b'0']), KeyIn::Escape(EscapeSequence::UnknownSeq(vec![0x1B, 0x30])));
    assert_eq!(one(&[0x1B, b'~']), KeyIn::Escape(EscapeSequence::UnknownSeq(vec![0x1B, 0x7E])));
    assert_eq!(one(&[0x1B, b'\\']), KeyIn::Escape(EscapeSequence::UnknownSeq(vec![0x1B, 0x5C])));
    assert_eq!(
        handle_single(0x63, vec![0x1B]),
        Ok(EscapeSequence::UnknownSeq(vec![0x1B, 0x63]))
    );
    assert_eq!(handle_single(7, vec![]), Ok(EscapeSequence::UnknownSeq(vec![7])));
}

#[test]
fn escape_and_anything_else_is_invalid() {
    for byte in [0x00u8, 0x07, 0x1B, 0x1F, 0x7F, 0x80, 0x9C, 0xFF] {
        assert_eq!(one(&[0x1B, byte]), KeyIn::Escape(EscapeSequence::Invalid));
        assert_eq!(handle_escape(byte), Parse::Done(EscapeSequence::Invalid));
    }
}

#[test]
fn byte_after_escape_decides_the_form() {
    assert_eq!(handle_escape(0x20), Parse::More(vec![0x1B, 0x20]));
    assert_eq!(handle_escape(0x2F), Parse::More(vec![0x1B, 0x2F]));
    assert_eq!(handle_escape(0x5B), Parse::More(vec![0x1B, 0x5B]));
    assert_eq!(handle_escape(0x5D), Parse::More(vec![0x1B, 0x5D]));
    assert_eq!(handle_escape(0x30), Parse::Done(EscapeSequence::UnknownSeq(vec![0x1B, 0x30])));
    assert_eq!(handle_escape(0x5C), Parse::Done(EscapeSequence::UnknownSeq(vec![0x1B, 0x5C])));
    assert_eq!(handle_escape(0x7E), Parse::Done(EscapeSequence::UnknownSeq(vec![0x1B, 0x7E])));
}

#[test]
fn steps_of_the_three_long_forms() {
    assert_eq!(handle_nf(0x2F, vec![0x1B, 0x20]), Parse::More(vec![0x1B, 0x20, 0x2F]));
    assert_eq!(handle_nf(0x7F, vec![0x1B, 0x20]), Parse::More(vec![0x1B, 0x20, 0x7F]));
    assert_eq!(
        handle_nf(0x30, vec![0x1B, 0x20]),
        Parse::Done(EscapeSequence::UnknownSeq(vec![0x1B, 0x20, 0x30]))
    );
    assert_eq!(
        handle_nf(0x7E, vec![0x1B, 0x20]),
        Parse::Done(EscapeSequence::UnknownSeq(vec![0x1B, 0x20, 0x7E]))
    );
    assert_eq!(handle_csi(0x3F, vec![0x1B, 0x5B]), Parse::More(vec![0x1B, 0x5B, 0x3F]));
    assert_eq!(handle_csi(0x7F, vec![0x1B, 0x5B]), Parse::More(vec![0x1B, 0x5B, 0x7F]));
    assert_eq!(
        handle_csi(0x40, vec![0x1B, 0x5B]),
        Parse::Done(EscapeSequence::UnknownSeq(vec![0x1B, 0x5B, 0x40]))
    );
    assert_eq!(handle_csi(0x7E, vec![0x1B, 0x5B, 0x31]), Parse::Done(EscapeSequence::Home));
    assert_eq!(handle_os(0x41, vec![0x1B, 0x5D]), Parse::More(vec![0x1B, 0x5D, 0x41]));
    assert_eq!(handle_os(0x5C, vec![0x1B, 0x5D]), Parse::More(vec![0x1B, 0x5D, 0x5C]));
    assert_eq!(
        handle_os(0x5C, vec![0x1B, 0x5D, 0x1B]),
        Parse::Done(EscapeSequence::UnknownSeq(vec![0x1B, 0x5D, 0x1B, 0x5C]))
    );
}

#[test]
fn plain_bytes_come_out_in_order() {
    let (units, partial) = feed(&[72, 105]);
    assert_eq!(units, vec![KeyIn::Char(72), KeyIn::Char(105)]);
    assert_eq!(partial, Vec::<u8>::new());
    let (units, _) = feed(&[0, 13, 10, 127, 255]);
    assert_eq!(
        units,
        vec![KeyIn::Char(0), KeyIn::Char(13), KeyIn::Char(10), KeyIn::Char(127), KeyIn::Char(255)]
    );
}

#[test]
fn sequences_and_plain_bytes_mix() {
    let (units, partial) = feed(&[b'a', 0x1B, b'[', b'A', b'b', 0x1B, b'c', 0x1B]);
    assert_eq!(
        units,
        vec![
            KeyIn::Char(97),
            KeyIn::Escape(EscapeSequence::ArrowUp),
            KeyIn::Char(98),
            KeyIn::Escape(EscapeSequence::UnknownSeq(vec![0x1B, 0x63])),
        ]
    );
    assert_eq!(partial, vec![0x1B]);
}

#[test]
fn a_read_without_a_byte_changes_nothing() {
    let mut partial = vec![0x1B, 0x5B];
    for outcome in [ReadOutcome::TimedOut, ReadOutcome::Eof, ReadOutcome::Read { count: 0, first: 65 }] {
        assert_eq!(poll_port_parse_data(outcome, &mut partial), Ok(KeyIn::Nothing));
        assert_eq!(partial, vec![0x1B, 0x5B]);
    }
    let mut idle = vec![];
    assert_eq!(poll_port_parse_data(ReadOutcome::TimedOut, &mut idle), Ok(KeyIn::Nothing));
    assert_eq!(idle, Vec::<u8>::new());
}

#[test]
fn a_failed_read_is_an_error() {
    let mut partial = vec![0x1B, 0x5B];
    assert_eq!(poll_port_parse_data(ReadOutcome::Failed, &mut partial), Err(()));
    assert_eq!(partial, vec![0x1B, 0x5B]);
}

#[test]
fn what_keys_send_is_what_the_decoder_names() {
    for sequence in [
        EscapeSequence::ArrowLeft,
        EscapeSequence::ArrowRight,
        EscapeSequence::ArrowUp,
        EscapeSequence::ArrowDown,
        EscapeSequence::BackTab,
        EscapeSequence::Home,
        EscapeSequence::End,
        EscapeSequence::Del,
        EscapeSequence::Insert,
        EscapeSequence::PageUp,
        EscapeSequence::PageDown,
    ] {
        assert_eq!(one(&sequence.to_bytes()), KeyIn::Escape(sequence.clone()));
        assert_eq!(match_csi(sequence.to_bytes()), sequence);
    }
}
