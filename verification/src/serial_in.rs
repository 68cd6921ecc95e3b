//! The line side: what a read from the line brought, and the decoding of the
//! escape sequences among the bytes.
//!
//! An escape sequence starts with Esc, and the byte after Esc says of which
//! form it is:
//!
//! - `0x20` to `0x2F`: an nF sequence, which ends with the first byte from
//!   `0x30` to `0x7E`;
//! - `[`: a control sequence, which ends with the first byte from `0x40` to
//!   `0x7E`;
//! - `]`: an operating system command, which ends with a bell, with `0x9C`,
//!   or with Esc and a backslash;
//! - any other byte from `0x30` to `0x7E`: a sequence of these two bytes;
//! - anything else: no sequence.
//!
//! The bytes come one at a time. Between two of them the decoder keeps the
//! bytes of the sequence that has begun.

use vstd::prelude::*;
use crate::key::{EscapeSequence, EscapeSequenceView, KeyIn, KeyInView};

verus! {

/// The byte that starts an escape sequence.
pub const ESC: u8 = 0x1B;

/// How an attempt to read one byte from the line ended.
#[derive(Clone, Copy, Debug, PartialEq, Eq, Structural)]
pub enum ReadOutcome {
    /// The read returned: the number of bytes it brought, and the first byte
    /// of the buffer.
    Read { count: usize, first: u8 },
    /// Nothing came in time.
    TimedOut,
    /// The line is at its end.
    Eof,
    /// Any other error.
    Failed,
}

/// The byte that a read brought, if any. Running out of time and reaching the
/// end bring none; any other error is the error.
pub open spec fn byte_read(outcome: ReadOutcome) -> Result<Option<u8>, ()> {
    match outcome {
        ReadOutcome::Read { count, first } => if count == 0 {
            Ok(None)
        } else {
            Ok(Some(first))
        },
        ReadOutcome::TimedOut => Ok(None),
        ReadOutcome::Eof => Ok(None),
        ReadOutcome::Failed => Err(()),
    }
}

/// Takes the byte, if there is one, out of what a read brought.
pub fn try_get_char(outcome: ReadOutcome) -> (byte: Result<Option<u8>, ()>)
    ensures
        byte == byte_read(outcome),
{
    match outcome {
        ReadOutcome::Read { count, first } => if count == 0 {
            Ok(None)
        } else {
            Ok(Some(first))
        },
        ReadOutcome::Eof => Ok(None),
        ReadOutcome::TimedOut => Ok(None),
        ReadOutcome::Failed => Err(()),
    }
}

/// Where the decoding of a sequence stands after a byte.
#[derive(Debug, Clone, PartialEq, Eq)]
pub enum Parse {
    /// The sequence is complete.
    Done(EscapeSequence),
    /// The sequence goes on: its bytes so far.
    More(Vec<u8>),
}

/// The mathematical value of a [`Parse`].
pub enum ParseView {
    Done(EscapeSequenceView),
    More(Seq<u8>),
}

impl View for Parse {
    type V = ParseView;

    open spec fn view(&self) -> ParseView {
        match *self {
            Parse::Done(sequence) => ParseView::Done(sequence@),
            Parse::More(bytes) => ParseView::More(bytes@),
        }
    }
}

/// Whether `byte` introduces an nF sequence when it follows Esc.
pub open spec fn is_nf_intro(byte: u8) -> bool {
    0x20 <= byte <= 0x2F
}

/// Whether `byte` ends an nF sequence.
pub open spec fn is_nf_final(byte: u8) -> bool {
    0x30 <= byte <= 0x7E
}

/// Whether `byte` ends a control sequence.
pub open spec fn is_csi_final(byte: u8) -> bool {
    0x40 <= byte <= 0x7E
}

/// Whether the bytes end as an operating system command does: with a bell,
/// with `0x9C`, or with Esc and a backslash.
pub open spec fn is_osc_end(seq: Seq<u8>) -> bool {
    seq.len() >= 1 && (seq.last() == 0x07 || seq.last() == 0x9C || (seq.len() >= 2 && seq[seq.len()
        - 2] == 0x1B && seq.last() == 0x5C))
}

/// Whether `seq` is made of these three bytes.
pub open spec fn is_three(seq: Seq<u8>, a: u8, b: u8, c: u8) -> bool {
    seq.len() == 3 && seq[0] == a && seq[1] == b && seq[2] == c
}

/// Whether `seq` is made of these four bytes.
pub open spec fn is_four(seq: Seq<u8>, a: u8, b: u8, c: u8, d: u8) -> bool {
    seq.len() == 4 && seq[0] == a && seq[1] == b && seq[2] == c && seq[3] == d
}

/// The meaning of a complete control sequence. Only sequences of three or
/// four bytes are looked up in the table of keys: one that is not in the
/// table is unknown, and one of any other length is reported as `End`.
pub open spec fn csi_meaning(seq: Seq<u8>) -> EscapeSequenceView {
    if seq.len() != 3 && seq.len() != 4 {
        EscapeSequenceView::End
    } else if is_three(seq, 0x1B, 0x5B, 0x44) {
        EscapeSequenceView::ArrowLeft
    } else if is_three(seq, 0x1B, 0x5B, 0x43) {
        EscapeSequenceView::ArrowRight
    } else if is_three(seq, 0x1B, 0x5B, 0x41) {
        EscapeSequenceView::ArrowUp
    } else if is_three(seq, 0x1B, 0x5B, 0x42) {
        EscapeSequenceView::ArrowDown
    } else if is_three(seq, 0x1B, 0x5B, 0x5A) {
        EscapeSequenceView::BackTab
    } else if is_four(seq, 0x1B, 0x5B, 0x31, 0x7E) {
        EscapeSequenceView::Home
    } else if is_four(seq, 0x1B, 0x5B, 0x34, 0x7E) {
        EscapeSequenceView::End
    } else if is_four(seq, 0x1B, 0x5B, 0x33, 0x7E) {
        EscapeSequenceView::Del
    } else if is_four(seq, 0x1B, 0x5B, 0x32, 0x7E) {
        EscapeSequenceView::Insert
    } else if is_four(seq, 0x1B, 0x5B, 0x35, 0x7E) {
        EscapeSequenceView::PageUp
    } else if is_four(seq, 0x1B, 0x5B, 0x36, 0x7E) {
        EscapeSequenceView::PageDown
    } else {
        EscapeSequenceView::UnknownSeq(seq)
    }
}

/// The step after Esc: the byte `v` either opens a longer sequence, or makes
/// a sequence of two bytes with Esc, or is no sequence at all.
pub open spec fn begun(v: u8) -> ParseView {
    if is_nf_intro(v) || v == 0x5B || v == 0x5D {
        ParseView::More(seq![ESC, v])
    } else if 0x30 <= v <= 0x7E {
        ParseView::Done(EscapeSequenceView::UnknownSeq(seq![ESC, v]))
    } else {
        ParseView::Done(EscapeSequenceView::Invalid)
    }
}

/// One more byte of an nF sequence.
pub open spec fn nf_step(seq: Seq<u8>, byte: u8) -> ParseView {
    if is_nf_final(byte) {
        ParseView::Done(EscapeSequenceView::UnknownSeq(seq.push(byte)))
    } else {
        ParseView::More(seq.push(byte))
    }
}

/// One more byte of a control sequence.
pub open spec fn csi_step(seq: Seq<u8>, byte: u8) -> ParseView {
    if is_csi_final(byte) {
        ParseView::Done(csi_meaning(seq.push(byte)))
    } else {
        ParseView::More(seq.push(byte))
    }
}

/// One more byte of an operating system command.
pub open spec fn osc_step(seq: Seq<u8>, byte: u8) -> ParseView {
    if is_osc_end(seq.push(byte)) {
        ParseView::Done(EscapeSequenceView::UnknownSeq(seq.push(byte)))
    } else {
        ParseView::More(seq.push(byte))
    }
}

/// One more byte of the sequence whose bytes so far are `partial`, which is
/// not empty. The byte after Esc decides the form. Bytes that do not start as
/// a sequence does are no sequence.
pub open spec fn sequence_step(partial: Seq<u8>, byte: u8) -> ParseView {
    if partial.len() == 1 {
        begun(byte)
    } else if is_nf_intro(partial[1]) {
        nf_step(partial, byte)
    } else if partial[1] == 0x5B {
        csi_step(partial, byte)
    } else if partial[1] == 0x5D {
        osc_step(partial, byte)
    } else {
        ParseView::Done(EscapeSequenceView::Invalid)
    }
}

/// What one byte from the line is, given the bytes of the sequence that has
/// begun: the bytes kept after it, and the unit of data that it completes.
/// Outside a sequence, Esc begins one and any other byte is a unit by itself.
pub open spec fn received(partial: Seq<u8>, byte: u8) -> (Seq<u8>, KeyInView) {
    if partial.len() == 0 {
        if byte == ESC {
            (seq![ESC], KeyInView::Nothing)
        } else {
            (Seq::empty(), KeyInView::Char(byte))
        }
    } else {
        match sequence_step(partial, byte) {
            ParseView::Done(sequence) => (Seq::empty(), KeyInView::Escape(sequence)),
            ParseView::More(bytes) => (bytes, KeyInView::Nothing),
        }
    }
}

/// What one read from the line brings. A read without a byte changes nothing
/// and brings nothing; a failed read is the error.
pub open spec fn polled(partial: Seq<u8>, outcome: ReadOutcome) -> Result<
    (Seq<u8>, KeyInView),
    (),
> {
    match byte_read(outcome) {
        Ok(Some(byte)) => Ok(received(partial, byte)),
        Ok(None) => Ok((partial, KeyInView::Nothing)),
        Err(_) => Err(()),
    }
}

/// Takes one read from the line: `partial` holds the bytes of the escape
/// sequence that has begun, and the result is the unit of data that the read
/// completes, `Nothing` if it completes none.
pub fn poll_port_parse_data(outcome: ReadOutcome, partial: &mut Vec<u8>) -> (data: Result<
    KeyIn,
    (),
>)
    ensures
        polled(old(partial)@, outcome) is Err ==> data is Err && final(partial)@ == old(partial)@,
        polled(old(partial)@, outcome) matches Ok(step) ==> final(partial)@ == step.0 && (
        data matches Ok(unit) && unit@ == step.1),
{
    let v = match try_get_char(outcome)? {
        Some(c) => c,
        None => {
            return Ok(KeyIn::Nothing);
        },
    };
    if partial.len() == 0 {
        if v == ESC {
            partial.push(ESC);
            assert(partial@ =~= seq![ESC]);
            return Ok(KeyIn::Nothing);
        }
        return Ok(KeyIn::Char(v));
    }
    let mut seq: Vec<u8> = Vec::new();
    core::mem::swap(partial, &mut seq);
    let parse = if seq.len() == 1 {
        handle_escape(v)
    } else if 0x20 <= seq[1] && seq[1] <= 0x2F {
        handle_nf(v, seq)
    } else if seq[1] == 0x5B {
        handle_csi(v, seq)
    } else if seq[1] == 0x5D {
        handle_os(v, seq)
    } else {
        Parse::Done(EscapeSequence::Invalid)
    };
    match parse {
        Parse::Done(sequence) => Ok(KeyIn::Escape(sequence)),
        Parse::More(bytes) => {
            *partial = bytes;
            Ok(KeyIn::Nothing)
        },
    }
}

/// Decides, by the byte `v` that follows Esc, how the sequence goes on.
pub fn handle_escape(v: u8) -> (parse: Parse)
    ensures
        parse@ == begun(v),
{
    let mut seq: Vec<u8> = Vec::new();
    seq.push(ESC);
    assert(seq@ =~= seq![ESC]);
    if (0x20 <= v && v <= 0x2F) || v == 0x5B || v == 0x5D {
        seq.push(v);
        assert(seq@ =~= seq![ESC, v]);
        Parse::More(seq)
    } else if 0x30 <= v && v <= 0x7E {
        match handle_single(v, seq) {
            Ok(sequence) => {
                assert(seq![ESC].push(v) =~= seq![ESC, v]);
                Parse::Done(sequence)
            },
            Err(_) => Parse::Done(EscapeSequence::Invalid),
        }
    } else {
        Parse::Done(EscapeSequence::Invalid)
    }
}

/// Ends a sequence of Esc and one byte.
pub fn handle_single(byte: u8, seq: Vec<u8>) -> (sequence: Result<EscapeSequence, ()>)
    ensures
        sequence matches Ok(found) && found@ == EscapeSequenceView::UnknownSeq(seq@.push(byte)),
{
    let mut seq = seq;
    seq.push(byte);
    return Ok(EscapeSequence::UnknownSeq(seq));
}

/// Takes one more byte of an operating system command.
pub fn handle_os(byte: u8, seq: Vec<u8>) -> (parse: Parse)
    ensures
        parse@ == osc_step(seq@, byte),
{
    let mut seq = seq;
    seq.push(byte);
    let n = seq.len();
    if byte == 0x07 || byte == 0x9C || (byte == 0x5C && n >= 2 && seq[n - 2] == 0x1B) {
        Parse::Done(EscapeSequence::UnknownSeq(seq))
    } else {
        Parse::More(seq)
    }
}

/// Takes one more byte of a control sequence.
pub fn handle_csi(byte: u8, seq: Vec<u8>) -> (parse: Parse)
    ensures
        parse@ == csi_step(seq@, byte),
{
    let mut seq = seq;
    seq.push(byte);
    if 0x40 <= byte && byte <= 0x7E {
        Parse::Done(match_csi(seq))
    } else {
        Parse::More(seq)
    }
}

/// Gives the meaning of a complete control sequence.
pub fn match_csi(seq: Vec<u8>) -> (sequence: EscapeSequence)
    ensures
        sequence@ == csi_meaning(seq@),
{
    let len = seq.len();
    if len != 3 && len != 4 {
        return EscapeSequence::End;
    }
    if seq[0] != 0x1B || seq[1] != 0x5B {
        return EscapeSequence::UnknownSeq(seq);
    }
    if len == 3 {
        match seq[2] {
            0x44 => EscapeSequence::ArrowLeft,
            0x43 => EscapeSequence::ArrowRight,
            0x41 => EscapeSequence::ArrowUp,
            0x42 => EscapeSequence::ArrowDown,
            0x5A => EscapeSequence::BackTab,
            _ => EscapeSequence::UnknownSeq(seq),
        }
    } else if seq[3] == 0x7E {
        match seq[2] {
            0x31 => EscapeSequence::Home,
            0x34 => EscapeSequence::End,
            0x33 => EscapeSequence::Del,
            0x32 => EscapeSequence::Insert,
            0x35 => EscapeSequence::PageUp,
            0x36 => EscapeSequence::PageDown,
            _ => EscapeSequence::UnknownSeq(seq),
        }
    } else {
        EscapeSequence::UnknownSeq(seq)
    }
}

/// Takes one more byte of an nF sequence.
pub fn handle_nf(byte: u8, seq: Vec<u8>) -> (parse: Parse)
    ensures
        parse@ == nf_step(seq@, byte),
{
    let mut seq = seq;
    seq.push(byte);
    if 0x30 <= byte && byte <= 0x7E {
        Parse::Done(EscapeSequence::UnknownSeq(seq))
    } else {
        Parse::More(seq)
    }
}


/// The forms of escape sequences.
pub enum Form {
    /// Esc, a byte from `0x20` to `0x2F`, and more.
    Nf,
    /// Esc, `[`, and more.
    Csi,
    /// Esc, `]`, and more.
    Osc,
    /// Esc and one byte.
    Single,
    /// No sequence.
    Invalid,
}

/// The form that the byte after Esc announces.
pub open spec fn form_of(v: u8) -> Form {
    if is_nf_intro(v) {
        Form::Nf
    } else if v == 0x5B {
        Form::Csi
    } else if v == 0x5D {
        Form::Osc
    } else if 0x30 <= v <= 0x7E {
        Form::Single
    } else {
        Form::Invalid
    }
}

/// Whether `seq`, of two bytes or more, ends where a sequence of its form
/// ends.
pub open spec fn is_end(seq: Seq<u8>) -> bool {
    match form_of(seq[1]) {
        Form::Nf => seq.len() >= 3 && is_nf_final(seq.last()),
        Form::Csi => seq.len() >= 3 && is_csi_final(seq.last()),
        Form::Osc => seq.len() >= 3 && is_osc_end(seq),
        Form::Single => true,
        Form::Invalid => true,
    }
}

/// Whether `seq` is one whole escape sequence: it starts with Esc, it ends
/// where its form ends, and it does not end before.
pub open spec fn is_sequence(seq: Seq<u8>) -> bool {
    &&& seq.len() >= 2
    &&& seq[0] == ESC
    &&& is_end(seq)
    &&& forall|n: int| 2 <= n < seq.len() ==> !is_end(#[trigger] seq.take(n))
}

/// What a whole escape sequence means. Only control sequences have names;
/// Esc with a byte that opens nothing is invalid; all others are unknown.
pub open spec fn meaning(seq: Seq<u8>) -> EscapeSequenceView {
    match form_of(seq[1]) {
        Form::Csi => csi_meaning(seq),
        Form::Invalid => EscapeSequenceView::Invalid,
        _ => EscapeSequenceView::UnknownSeq(seq),
    }
}

/// What a run of bytes from the line is, one byte after the other: the bytes
/// kept at the end, and the units of data in the order in which they were
/// completed.
pub open spec fn decoded(partial: Seq<u8>, bytes: Seq<u8>) -> (Seq<u8>, Seq<KeyInView>)
    decreases bytes.len(),
{
    if bytes.len() == 0 {
        (partial, Seq::empty())
    } else {
        let (kept, unit) = received(partial, bytes[0]);
        let (last, units) = decoded(kept, bytes.drop_first());
        (
            last,
            if unit is Nothing {
                units
            } else {
                seq![unit] + units
            },
        )
    }
}

/// Once the first `k` bytes of a whole sequence are kept, the rest of it
/// completes the sequence.
proof fn lemma_sequence_tail(seq: Seq<u8>, k: int)
    requires
        is_sequence(seq),
        1 <= k <= seq.len(),
    ensures
        k < seq.len() ==> decoded(seq.take(k), seq.skip(k)) == (
            Seq::<u8>::empty(),
            seq![KeyInView::Escape(meaning(seq))],
        ),
    decreases seq.len() - k,
{
    if k < seq.len() {
        let partial = seq.take(k);
        let rest = seq.skip(k);
        let byte = seq[k];
        assert(rest[0] == byte);
        assert(rest.drop_first() == seq.skip(k + 1));
        assert(partial.push(byte) == seq.take(k + 1));
        assert(seq.take(seq.len() as int) == seq);
        if k + 1 < seq.len() {
            assert(!is_end(seq.take(k + 1)));
            assert(seq.take(k + 1)[1] == seq[1]);
            assert(seq.take(k + 1).last() == byte);
            if k == 1 {
                assert(seq.take(2) == seq![ESC, byte]);
            } else {
                assert(partial[1] == seq[1]);
            }
            assert(received(partial, byte) == (seq.take(k + 1), KeyInView::Nothing));
            lemma_sequence_tail(seq, k + 1);
        } else {
            assert(seq.take(k + 1) == seq);
            assert(seq.last() == byte);
            if k == 1 {
                assert(seq == seq![ESC, byte]);
            } else {
                assert(partial[1] == seq[1]);
                if seq.len() > 2 {
                    assert(!is_end(seq.take(2)));
                    assert(seq.take(2)[1] == seq[1]);
                }
            }
            assert(received(partial, byte) == (
                Seq::<u8>::empty(),
                KeyInView::Escape(meaning(seq)),
            ));
            assert(decoded(Seq::<u8>::empty(), seq.skip(k + 1)) == (
                Seq::<u8>::empty(),
                Seq::<KeyInView>::empty(),
            ));
            assert(seq![KeyInView::Escape(meaning(seq))] + Seq::<KeyInView>::empty() == seq![
                KeyInView::Escape(meaning(seq)),
            ]);
        }
    }
}

/// A whole escape sequence, fed to an idle decoder byte by byte, comes out as
/// one unit of data with the meaning of the sequence, and leaves the decoder
/// idle.
pub proof fn lemma_decodes_sequence(seq: Seq<u8>)
    requires
        is_sequence(seq),
    ensures
        decoded(Seq::empty(), seq) == (Seq::<u8>::empty(), seq![KeyInView::Escape(meaning(seq))]),
{
    assert(received(Seq::empty(), seq[0]) == (seq![ESC], KeyInView::Nothing));
    assert(seq.take(1) == seq![ESC]);
    assert(seq.drop_first() == seq.skip(1));
    lemma_sequence_tail(seq, 1);
}

/// Bytes without Esc come out one unit each, in their order, and leave the
/// decoder idle.
pub proof fn lemma_decodes_plain(bytes: Seq<u8>)
    requires
        forall|i: int| 0 <= i < bytes.len() ==> bytes[i] != ESC,
    ensures
        decoded(Seq::empty(), bytes) == (
            Seq::<u8>::empty(),
            Seq::new(bytes.len(), |i: int| KeyInView::Char(bytes[i])),
        ),
    decreases bytes.len(),
{
    if bytes.len() > 0 {
        let rest = bytes.drop_first();
        lemma_decodes_plain(rest);
        assert(received(Seq::empty(), bytes[0]) == (Seq::<u8>::empty(), KeyInView::Char(bytes[0])));
        assert(seq![KeyInView::Char(bytes[0])] + Seq::new(
            rest.len(),
            |i: int| KeyInView::Char(rest[i]),
        ) == Seq::new(bytes.len(), |i: int| KeyInView::Char(bytes[i])));
    } else {
        assert(Seq::<KeyInView>::empty() == Seq::new(
            bytes.len(),
            |i: int| KeyInView::Char(bytes[i]),
        ));
    }
}

/// Decoding a run of bytes in two parts gives what decoding it at once gives:
/// the second part goes on where the first ended, and its units follow those
/// of the first.
pub proof fn lemma_decoded_in_parts(partial: Seq<u8>, first: Seq<u8>, second: Seq<u8>)
    ensures
        decoded(partial, first + second) == (
            decoded(decoded(partial, first).0, second).0,
            decoded(partial, first).1 + decoded(decoded(partial, first).0, second).1,
        ),
    decreases first.len(),
{
    if first.len() == 0 {
        assert(first + second == second);
        assert(Seq::<KeyInView>::empty() + decoded(partial, second).1 == decoded(partial, second).1);
    } else {
        let (kept, unit) = received(partial, first[0]);
        assert((first + second)[0] == first[0]);
        assert((first + second).drop_first() == first.drop_first() + second);
        lemma_decoded_in_parts(kept, first.drop_first(), second);
        let head = decoded(kept, first.drop_first());
        let tail = decoded(head.0, second);
        assert((seq![unit] + head.1) + tail.1 == seq![unit] + (head.1 + tail.1));
    }
}


/// What a terminal sends for a named key is one whole control sequence, and
/// the decoder gives it the name of the key. Alt is the one exception: it is
/// sent as a back tab.
pub proof fn lemma_named_keys_are_decoded(key: EscapeSequenceView)
    requires
        key.bytes().len() > 0,
    ensures
        is_sequence(key.bytes()),
        meaning(key.bytes()) == if key is Alt {
            EscapeSequenceView::BackTab
        } else {
            key
        },
{
    let bytes = key.bytes();
    assert(bytes.len() == 3 || bytes.len() == 4);
    assert forall|n: int| 2 <= n < bytes.len() implies !is_end(#[trigger] bytes.take(n)) by {
        if n == 3 {
            assert(bytes.take(3).last() == bytes[2]);
        }
    }
}

} // verus!
