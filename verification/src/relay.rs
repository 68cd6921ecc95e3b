//! The relay: one machine that takes turns between the keyboard and the line.
//!
//! The relay does no input or output. It says what it needs next (a
//! [`Request`]), the program does that and hands back what came of it (an
//! [`Event`]), and the relay answers with what is to be done on the screen.
//! A round looks at the keyboard once, without waiting, and then reads the
//! line once, with the line's short timeout. A command, and an escape
//! sequence from the line, are seen through to their end before the round
//! goes on.

use vstd::prelude::*;
use crate::commands::{
    baud_typed, command_of, escape_step, handle_command, handle_escape, handle_reply,
    lemma_started_keeps_mode, resumed, set_baudrate, started, DispatchResult, Escaped, Pending,
    Progress, Turn, TurnView,
};
use crate::inputstream::{InputStream, InputStreamView};
use crate::key::{KeyIn, KeyInView};
use crate::line::{Reply, Setting, Value};
use crate::notice::Notice;
use crate::serial_in::{byte_read, poll_port_parse_data, polled, ReadOutcome, ESC};
use crate::state::State;
use crate::terminal::{char_effects, data_effects, is_control, print_data_in, Effect};

verus! {

/// What the relay needs the program to do next.
#[derive(Clone, Debug, PartialEq, Eq)]
pub enum Request {
    /// Look whether a key has come, without waiting. Answered by
    /// [`Event::Key`].
    PollKey,
    /// Wait for the next key. Answered by [`Event::Key`].
    WaitKey,
    /// Try once to read a byte from the line. Answered by [`Event::Read`].
    ReadByte,
    /// Write these bytes to the line. Answered by [`Event::Line`].
    Write(Vec<u8>),
    /// Ask the line for a setting. Answered by [`Event::Line`].
    Query(Setting),
    /// Give the line a value for a setting. Answered by [`Event::Line`].
    Change(Value),
    /// Raise (`true`) or lower DTR. Answered by [`Event::Line`].
    SetDtr(bool),
    /// Raise (`true`) or lower RTS. Answered by [`Event::Line`].
    SetRts(bool),
    /// Leave the loop, after resetting the line if `reset` is set.
    Stop { reset: bool },
}

/// The mathematical value of a [`Request`].
pub enum RequestView {
    PollKey,
    WaitKey,
    ReadByte,
    Write(Seq<u8>),
    Query(Setting),
    Change(Value),
    SetDtr(bool),
    SetRts(bool),
    Stop { reset: bool },
}

impl View for Request {
    type V = RequestView;

    open spec fn view(&self) -> RequestView {
        match *self {
            Request::PollKey => RequestView::PollKey,
            Request::WaitKey => RequestView::WaitKey,
            Request::ReadByte => RequestView::ReadByte,
            Request::Write(bytes) => RequestView::Write(bytes@),
            Request::Query(setting) => RequestView::Query(setting),
            Request::Change(value) => RequestView::Change(value),
            Request::SetDtr(level) => RequestView::SetDtr(level),
            Request::SetRts(level) => RequestView::SetRts(level),
            Request::Stop { reset } => RequestView::Stop { reset },
        }
    }
}

/// What came of a request.
#[derive(Clone, Debug, PartialEq, Eq)]
pub enum Event {
    /// From the keyboard: no key, a key, or the news that the keyboard is
    /// lost, which is the error.
    Key(Option<Result<KeyIn, ()>>),
    /// From a read of the line.
    Read(ReadOutcome),
    /// The line's answer to anything else.
    Line(Reply),
}

/// What the relay is waiting for.
#[derive(Clone, Copy, Debug, PartialEq, Eq, Structural)]
pub enum Phase {
    /// A look at the keyboard.
    Keys,
    /// A read of the line.
    Line,
    /// The line to take the bytes of a key.
    Forward,
    /// What a command in progress waits for.
    Command(Pending),
    /// Nothing: the session is over.
    Stopped,
}

/// The relay.
#[derive(Clone, Debug, PartialEq, Eq)]
pub struct Relay {
    /// The state of the session.
    pub state: State,
    /// What the relay is waiting for.
    pub phase: Phase,
    /// The line typed so far at the baud prompt.
    pub entry: Vec<char>,
    /// The bytes of the escape sequence from the line that has begun.
    pub partial: Vec<u8>,
    /// The bytes of the key that is on its way to the line.
    pub outgoing: Vec<u8>,
}

/// The mathematical value of a [`Relay`].
pub struct RelayView {
    pub state: State,
    pub phase: Phase,
    pub entry: Seq<char>,
    pub partial: Seq<u8>,
    pub outgoing: Seq<u8>,
}

impl View for Relay {
    type V = RelayView;

    open spec fn view(&self) -> RelayView {
        RelayView {
            state: self.state,
            phase: self.phase,
            entry: self.entry@,
            partial: self.partial@,
            outgoing: self.outgoing@,
        }
    }
}

impl Pending {
    /// What is asked of the program while a command waits.
    pub open spec fn request(self, state: State) -> RequestView {
        match self {
            Pending::BaudUp => RequestView::Query(Setting::Baud),
            Pending::BaudDown => RequestView::Query(Setting::Baud),
            Pending::BaudEntry => RequestView::WaitKey,
            Pending::DataBits => RequestView::Query(Setting::DataBits),
            Pending::StopBits => RequestView::Query(Setting::StopBits),
            Pending::Flow => RequestView::Query(Setting::FlowControl),
            Pending::Parity => RequestView::Query(Setting::Parity),
            Pending::Apply(value) => RequestView::Change(value),
            Pending::PulseLow => RequestView::SetDtr(false),
            Pending::PulseHigh => RequestView::SetDtr(true),
            Pending::ToggleDtr => RequestView::SetDtr(!state.dtr),
            Pending::ToggleRts => RequestView::SetRts(!state.rts),
            Pending::ShowBaud => RequestView::Query(Setting::Baud),
            Pending::ShowFlow(_) => RequestView::Query(Setting::FlowControl),
            Pending::ShowParity(_, _) => RequestView::Query(Setting::Parity),
            Pending::ShowDataBits(_, _, _) => RequestView::Query(Setting::DataBits),
            Pending::ShowStopBits(_, _, _, _) => RequestView::Query(Setting::StopBits),
            Pending::Literal => RequestView::Write(seq![state.escape_code]),
        }
    }
}

impl RelayView {
    /// The relay at the start of a session.
    pub open spec fn initial(state: State) -> RelayView {
        RelayView {
            state,
            phase: Phase::Keys,
            entry: Seq::empty(),
            partial: Seq::empty(),
            outgoing: Seq::empty(),
        }
    }

    /// The memory of the keyboard worker that goes with this session, before
    /// its first key.
    pub open spec fn worker(self) -> InputStreamView {
        InputStreamView {
            escape: self.state.escape_code,
            shutdown_vals: seq![24u8, 17u8],
            is_escaped: false,
        }
    }

    /// What the relay needs next. A stopped relay asks for the line to be
    /// reset unless the session is not to reset it.
    pub open spec fn request(self) -> RequestView {
        match self.phase {
            Phase::Keys => RequestView::PollKey,
            Phase::Line => RequestView::ReadByte,
            Phase::Forward => RequestView::Write(self.outgoing),
            Phase::Command(pending) => pending.request(self.state),
            Phase::Stopped => RequestView::Stop { reset: !self.state.noreset },
        }
    }

    /// The relay after one step of a command. A command that waits keeps the
    /// relay waiting with it. One that is over hands the turn to the line; if
    /// it failed, its notice is shown after what it had to show. One that
    /// ends the session stops the relay.
    pub open spec fn settled(self, state: State, turn: TurnView) -> (RelayView, Seq<Effect>) {
        match turn.progress {
            Progress::Waiting(pending) => (
                RelayView { state, phase: Phase::Command(pending), ..self },
                turn.effects,
            ),
            Progress::Finished(DispatchResult::Continue) => (
                RelayView { state, phase: Phase::Line, ..self },
                turn.effects,
            ),
            Progress::Finished(DispatchResult::Recoverable(notice)) => (
                RelayView { state, phase: Phase::Line, ..self },
                turn.effects.push(Effect::Show(notice)),
            ),
            Progress::Finished(DispatchResult::Shutdown) => (
                RelayView { state, phase: Phase::Stopped, ..self },
                turn.effects,
            ),
        }
    }

    /// What a key does. A key without bytes does nothing. The other keys go
    /// through the command-mode machine:
    ///
    /// - the escape code that arms command mode is used up;
    /// - a command begins, with an empty line for what it may prompt for;
    /// - any other key is sent to the line, after it was shown if local echo
    ///   is on.
    ///
    /// Then it is the line's turn, unless a command waits or has ended the
    /// session.
    pub open spec fn input(self, key: KeyInView) -> (RelayView, Seq<Effect>) {
        if key.bytes().len() == 0 {
            (RelayView { phase: Phase::Line, ..self }, Seq::empty())
        } else {
            let (state, escaped) = escape_step(key.bytes(), self.state);
            match escaped {
                Escaped::Consumed => (RelayView { state, phase: Phase::Line, ..self }, Seq::empty()),
                Escaped::Command(command) => {
                    let (after, turn) = started(command_of(command, state.escape_code), state);
                    (RelayView { entry: Seq::empty(), ..self }).settled(after, turn)
                },
                Escaped::Forward => (
                    RelayView { state, phase: Phase::Forward, outgoing: key.bytes(), ..self },
                    if state.local_echo {
                        data_effects(key)
                    } else {
                        Seq::empty()
                    },
                ),
            }
        }
    }

    /// What a look at the keyboard does. Without a key it is the line's turn.
    /// If the keyboard is lost, the user is told and the session is over.
    pub open spec fn keyed(self, key: Option<Result<KeyIn, ()>>) -> (RelayView, Seq<Effect>) {
        match key {
            None => (RelayView { phase: Phase::Line, ..self }, Seq::empty()),
            Some(Err(_)) => (
                RelayView { phase: Phase::Stopped, ..self },
                seq![Effect::Show(Notice::InputLost)],
            ),
            Some(Ok(key)) => self.input(key@),
        }
    }

    /// What a read of the line does. The unit of data that it completes is
    /// shown. While an escape sequence is incomplete the line is read again;
    /// otherwise it is the keyboard's turn. If the read failed, the user is
    /// told and the session is over.
    pub open spec fn read(self, outcome: ReadOutcome) -> (RelayView, Seq<Effect>) {
        match polled(self.partial, outcome) {
            Ok((partial, unit)) => (
                RelayView {
                    partial,
                    phase: if partial.len() == 0 {
                        Phase::Keys
                    } else {
                        Phase::Line
                    },
                    ..self
                },
                data_effects(unit),
            ),
            Err(_) => (
                RelayView { phase: Phase::Stopped, ..self },
                seq![Effect::Show(Notice::PortReadFailed)],
            ),
        }
    }

    /// What the line's answer to the bytes of a key does. If the line took
    /// them it is read next. If not, the user is told and the session is
    /// over.
    pub open spec fn forwarded(self, reply: Reply) -> (RelayView, Seq<Effect>) {
        if reply == Reply::Done {
            (RelayView { phase: Phase::Line, ..self }, Seq::empty())
        } else {
            (RelayView { phase: Phase::Stopped, ..self }, seq![Effect::Show(Notice::PortWriteFailed)])
        }
    }

    /// One step of the relay: the relay after the event, and what is to be
    /// done on the screen. An event that does not answer what the relay waits
    /// for changes nothing.
    pub open spec fn step(self, event: Event) -> (RelayView, Seq<Effect>) {
        match (self.phase, event) {
            (Phase::Keys, Event::Key(key)) => self.keyed(key),
            (Phase::Line, Event::Read(outcome)) => self.read(outcome),
            (Phase::Forward, Event::Line(reply)) => self.forwarded(reply),
            (Phase::Command(Pending::BaudEntry), Event::Key(key)) => {
                let (entry, turn) = baud_typed(key, self.entry);
                (RelayView { entry, ..self }).settled(self.state, turn)
            },
            (Phase::Command(pending), Event::Line(reply)) => {
                let (state, turn) = resumed(pending, reply, self.state);
                self.settled(state, turn)
            },
            _ => (self, Seq::empty()),
        }
    }
}

impl Pending {
    /// What is asked of the program while a command waits.
    pub fn ask(self, state: &State) -> (request: Request)
        ensures
            request@ == self.request(*state),
    {
        match self {
            Pending::BaudUp => Request::Query(Setting::Baud),
            Pending::BaudDown => Request::Query(Setting::Baud),
            Pending::BaudEntry => Request::WaitKey,
            Pending::DataBits => Request::Query(Setting::DataBits),
            Pending::StopBits => Request::Query(Setting::StopBits),
            Pending::Flow => Request::Query(Setting::FlowControl),
            Pending::Parity => Request::Query(Setting::Parity),
            Pending::Apply(value) => Request::Change(value),
            Pending::PulseLow => Request::SetDtr(false),
            Pending::PulseHigh => Request::SetDtr(true),
            Pending::ToggleDtr => Request::SetDtr(!state.dtr),
            Pending::ToggleRts => Request::SetRts(!state.rts),
            Pending::ShowBaud => Request::Query(Setting::Baud),
            Pending::ShowFlow(_) => Request::Query(Setting::FlowControl),
            Pending::ShowParity(_, _) => Request::Query(Setting::Parity),
            Pending::ShowDataBits(_, _, _) => Request::Query(Setting::DataBits),
            Pending::ShowStopBits(_, _, _, _) => Request::Query(Setting::StopBits),
            Pending::Literal => {
                let bytes = vec![state.escape_code];
                assert(bytes@ =~= seq![state.escape_code]);
                Request::Write(bytes)
            },
        }
    }
}

impl Relay {
    /// The relay at the start of a session.
    pub fn new(state: State) -> (relay: Relay)
        ensures
            relay@ == RelayView::initial(state),
    {
        Relay {
            state,
            phase: Phase::Keys,
            entry: Vec::new(),
            partial: Vec::new(),
            outgoing: Vec::new(),
        }
    }

    /// The memory of the keyboard worker that goes with this session: it
    /// knows the session's escape code, and the exit and quit commands as
    /// those that end the session.
    pub fn worker(&self) -> (worker: InputStream)
        ensures
            worker@ == self@.worker(),
    {
        let shutdown_vals = vec![24, 17];
        assert(shutdown_vals@ =~= seq![24u8, 17u8]);
        InputStream::new(self.state.escape_code, shutdown_vals)
    }

    /// What the relay needs next.
    pub fn request(&self) -> (request: Request)
        ensures
            request@ == self@.request(),
    {
        match self.phase {
            Phase::Keys => Request::PollKey,
            Phase::Line => Request::ReadByte,
            Phase::Forward => Request::Write(self.outgoing.clone()),
            Phase::Command(pending) => pending.ask(&self.state),
            Phase::Stopped => Request::Stop { reset: !self.state.noreset },
        }
    }

    /// Takes a step of a command into the relay.
    fn settle(&mut self, turn: Turn) -> (effects: Vec<Effect>)
        ensures
            (final(self)@, effects@) == old(self)@.settled(old(self).state, turn@),
    {
        let mut effects = turn.effects;
        match turn.progress {
            Progress::Waiting(pending) => {
                self.phase = Phase::Command(pending);
            },
            Progress::Finished(DispatchResult::Continue) => {
                self.phase = Phase::Line;
            },
            Progress::Finished(DispatchResult::Recoverable(notice)) => {
                effects.push(Effect::Show(notice));
                self.phase = Phase::Line;
            },
            Progress::Finished(DispatchResult::Shutdown) => {
                self.phase = Phase::Stopped;
            },
        }
        effects
    }

    /// Handles a key that came from the keyboard.
    pub fn handle_input(&mut self, key: &KeyIn) -> (effects: Vec<Effect>)
        ensures
            (final(self)@, effects@) == old(self)@.input(key@),
    {
        let seq = key.to_bytes();
        if seq.len() == 0 {
            self.phase = Phase::Line;
            return Vec::new();
        }
        match handle_escape(&seq, &mut self.state) {
            Escaped::Consumed => {
                self.phase = Phase::Line;
                Vec::new()
            },
            Escaped::Command(command) => {
                self.entry.clear();
                let turn = handle_command(command, &mut self.state);
                self.settle(turn)
            },
            Escaped::Forward => {
                let effects = if self.state.local_echo {
                    print_data_in(key)
                } else {
                    Vec::new()
                };
                self.outgoing = seq;
                self.phase = Phase::Forward;
                effects
            },
        }
    }

    /// Handles what a look at the keyboard brought.
    pub fn poll_input(&mut self, key: Option<Result<KeyIn, ()>>) -> (effects: Vec<Effect>)
        ensures
            (final(self)@, effects@) == old(self)@.keyed(key),
    {
        let v = match key {
            Some(Ok(v)) => v,
            Some(Err(_)) => {
                self.phase = Phase::Stopped;
                let effects = vec![Effect::Show(Notice::InputLost)];
                assert(effects@ =~= seq![Effect::Show(Notice::InputLost)]);
                return effects;
            },
            None => {
                self.phase = Phase::Line;
                return Vec::new();
            },
        };
        self.handle_input(&v)
    }

    /// Handles what a read of the line brought.
    pub fn poll_port(&mut self, outcome: ReadOutcome) -> (effects: Vec<Effect>)
        ensures
            (final(self)@, effects@) == old(self)@.read(outcome),
    {
        match poll_port_parse_data(outcome, &mut self.partial) {
            Ok(unit) => {
                self.phase = if self.partial.len() == 0 {
                    Phase::Keys
                } else {
                    Phase::Line
                };
                print_data_in(&unit)
            },
            Err(_) => {
                self.phase = Phase::Stopped;
                let effects = vec![Effect::Show(Notice::PortReadFailed)];
                assert(effects@ =~= seq![Effect::Show(Notice::PortReadFailed)]);
                effects
            },
        }
    }

    /// Takes one event, and gives what is to be done on the screen for it.
    /// What the relay needs after that is its [`Relay::request`].
    pub fn step(&mut self, event: Event) -> (effects: Vec<Effect>)
        ensures
            (final(self)@, effects@) == old(self)@.step(event),
    {
        match self.phase {
            Phase::Keys => match event {
                Event::Key(key) => self.poll_input(key),
                _ => Vec::new(),
            },
            Phase::Line => match event {
                Event::Read(outcome) => self.poll_port(outcome),
                _ => Vec::new(),
            },
            Phase::Forward => match event {
                Event::Line(Reply::Done) => {
                    self.phase = Phase::Line;
                    Vec::new()
                },
                Event::Line(_) => {
                    self.phase = Phase::Stopped;
                    let effects = vec![Effect::Show(Notice::PortWriteFailed)];
                    assert(effects@ =~= seq![Effect::Show(Notice::PortWriteFailed)]);
                    effects
                },
                _ => Vec::new(),
            },
            Phase::Command(pending) => match event {
                Event::Line(reply) => {
                    let turn = handle_reply(pending, reply, &mut self.state);
                    self.settle(turn)
                },
                Event::Key(key) => match pending {
                    Pending::BaudEntry => {
                        let turn = set_baudrate(key, &mut self.entry);
                        self.settle(turn)
                    },
                    _ => Vec::new(),
                },
                _ => Vec::new(),
            },
            Phase::Stopped => Vec::new(),
        }
    }
}


/// The event that a key of one byte has come.
pub open spec fn byte_typed(byte: u8) -> Event {
    Event::Key(Some(Ok(KeyIn::Char(byte))))
}

/// In Normal a byte that is not the escape code goes to the line as it is:
/// the relay asks for exactly that byte to be written, and the session is as
/// it was. It is shown on the way if local echo is on, and not otherwise.
pub proof fn lemma_plain_byte_is_sent(relay: RelayView, byte: u8)
    requires
        relay.phase == Phase::Keys,
        !relay.state.command_mode,
        byte != relay.state.escape_code,
    ensures
        relay.step(byte_typed(byte)).0.state == relay.state,
        relay.step(byte_typed(byte)).0.request() == RequestView::Write(seq![byte]),
        relay.step(byte_typed(byte)).1 == if relay.state.local_echo {
            data_effects(KeyInView::Char(byte))
        } else {
            Seq::empty()
        },
{
    let key = KeyInView::Char(byte);
    assert(key.bytes() == seq![byte]);
    assert(key.bytes()[0] == byte);
}

/// In Normal the escape code is used up: the relay is in CommandPending, has
/// nothing written and nothing shown, and reads the line next.
pub proof fn lemma_escape_code_is_consumed(relay: RelayView)
    requires
        relay.phase == Phase::Keys,
        relay.state.wf(),
        !relay.state.command_mode,
    ensures
        relay.step(byte_typed(relay.state.escape_code)).0 == (RelayView {
            state: State { command_mode: true, ..relay.state },
            phase: Phase::Line,
            ..relay
        }),
        relay.step(byte_typed(relay.state.escape_code)).0.request() == RequestView::ReadByte,
        relay.step(byte_typed(relay.state.escape_code)).1 == Seq::<Effect>::empty(),
{
    let key = KeyInView::Char(relay.state.escape_code);
    assert(key.bytes() == seq![relay.state.escape_code]);
    assert(key.bytes()[0] == relay.state.escape_code);
}

/// In CommandPending the escape code stands for itself: the relay is back in
/// Normal and asks for exactly one byte, the escape code, to be written. Once
/// the line has taken it the relay reads the line, and asks for no more to
/// be written. With the law before, the escape code typed twice sends one
/// escape code: none for the first, one for the second.
pub proof fn lemma_escape_code_again_is_literal(relay: RelayView)
    requires
        relay.phase == Phase::Keys,
        relay.state.wf(),
        relay.state.command_mode,
    ensures
        relay.step(byte_typed(relay.state.escape_code)).0.state == (State {
            command_mode: false,
            ..relay.state
        }),
        relay.step(byte_typed(relay.state.escape_code)).0.request() == RequestView::Write(
            seq![relay.state.escape_code],
        ),
        relay.step(byte_typed(relay.state.escape_code)).1 == Seq::<Effect>::empty(),
        relay.step(byte_typed(relay.state.escape_code)).0.step(Event::Line(Reply::Done)).0.request()
            == RequestView::ReadByte,
        relay.step(byte_typed(relay.state.escape_code)).0.step(Event::Line(Reply::Done)).1
            == Seq::<Effect>::empty(),
{
    let key = KeyInView::Char(relay.state.escape_code);
    assert(key.bytes() == seq![relay.state.escape_code]);
    assert(key.bytes()[0] == relay.state.escape_code);
}

/// A key with bytes that is typed in CommandPending leaves the relay in
/// Normal, whatever the key is and whatever the command does.
pub proof fn lemma_key_ends_command_mode(relay: RelayView, key: KeyIn)
    requires
        relay.phase == Phase::Keys,
        relay.state.command_mode,
        key@.bytes().len() > 0,
    ensures
        !relay.step(Event::Key(Some(Ok(key)))).0.state.command_mode,
{
}

/// Reading the line leaves the session as it is: what comes from the line is
/// shown, and is never taken for a command.
pub proof fn lemma_read_keeps_state(relay: RelayView, outcome: ReadOutcome)
    requires
        relay.phase == Phase::Line,
    ensures
        relay.step(Event::Read(outcome)).0.state == relay.state,
        relay.step(Event::Read(outcome)).0.entry == relay.entry,
        relay.step(Event::Read(outcome)).0.outgoing == relay.outgoing,
{
}

/// While an escape sequence from the line is incomplete the relay goes on
/// reading the line and does not look at the keyboard; the keyboard's turn
/// comes when no sequence is open.
pub proof fn lemma_sequence_is_read_to_its_end(relay: RelayView, outcome: ReadOutcome)
    requires
        relay.phase == Phase::Line,
    ensures
        relay.step(Event::Read(outcome)).0.phase == Phase::Stopped <==> byte_read(outcome) is Err,
        relay.step(Event::Read(outcome)).0.phase == Phase::Line <==> byte_read(outcome) is Ok
            && relay.step(Event::Read(outcome)).0.partial.len() > 0,
        relay.step(Event::Read(outcome)).0.phase == Phase::Keys <==> byte_read(outcome) is Ok
            && relay.step(Event::Read(outcome)).0.partial.len() == 0,
{
}

/// The exit command ends the session, and the line is reset unless the
/// session was started not to reset it. The quit command ends the session
/// and the line is never reset. Neither shows anything.
pub proof fn lemma_exit_and_quit(relay: RelayView)
    requires
        relay.phase == Phase::Keys,
        relay.state.command_mode,
    ensures
        relay.state.escape_code != 24 ==> relay.step(byte_typed(24)).0.phase == Phase::Stopped
            && relay.step(byte_typed(24)).0.request() == (RequestView::Stop {
            reset: !relay.state.noreset,
        }) && relay.step(byte_typed(24)).1 == Seq::<Effect>::empty(),
        relay.state.escape_code != 17 ==> relay.step(byte_typed(17)).0.phase == Phase::Stopped
            && relay.step(byte_typed(17)).0.request() == (RequestView::Stop { reset: false })
            && relay.step(byte_typed(17)).1 == Seq::<Effect>::empty(),
{
    assert(KeyInView::Char(24).bytes() == seq![24u8]);
    assert(KeyInView::Char(24).bytes()[0] == 24u8);
    assert(KeyInView::Char(17).bytes() == seq![17u8]);
    assert(KeyInView::Char(17).bytes()[0] == 17u8);
}

/// A relay that has stopped stays stopped, and does nothing more.
pub proof fn lemma_stopped_stays(relay: RelayView, event: Event)
    requires
        relay.phase == Phase::Stopped,
    ensures
        relay.step(event) == (relay, Seq::<Effect>::empty()),
{
}

/// Whether the event is the news that the keyboard is lost.
pub open spec fn keyboard_lost(event: Event) -> bool {
    event matches Event::Key(Some(Err(_)))
}

/// Whether the event is a read of the line that failed.
pub open spec fn read_failed(event: Event) -> bool {
    event matches Event::Read(outcome) && byte_read(outcome) is Err
}

/// Whether the event is an answer of the line other than that it took what
/// it was given.
pub open spec fn write_failed(event: Event) -> bool {
    event matches Event::Line(reply) && reply != Reply::Done
}

/// The session ends in these ways only: by the exit or the quit command,
/// when the keyboard is lost, when a read of the line fails, and when the
/// line does not take the bytes of a key.
pub proof fn lemma_stops(relay: RelayView, event: Event)
    requires
        relay.phase != Phase::Stopped,
        relay.step(event).0.phase == Phase::Stopped,
    ensures
        ({
            ||| relay.phase == Phase::Keys && keyboard_lost(event)
            ||| relay.phase == Phase::Keys && relay.state.command_mode && (event == byte_typed(24)
                || event == byte_typed(17))
            ||| relay.phase == Phase::Command(Pending::BaudEntry) && keyboard_lost(event)
            ||| relay.phase == Phase::Line && read_failed(event)
            ||| relay.phase == Phase::Forward && write_failed(event)
        }),
{
    match (relay.phase, event) {
        (Phase::Keys, Event::Key(Some(Ok(key)))) => {
            let bytes = key@.bytes();
            assert(bytes.len() == 1 && is_control(bytes[0]));
            assert(bytes == seq![bytes[0]]);
            assert(key == KeyIn::Char(bytes[0]));
        },
        (Phase::Command(pending), Event::Line(reply)) => {
            lemma_resumed_goes_on(pending, reply, relay.state);
        },
        _ => {},
    }
}

/// No answer of the line ends the session from within a command.
proof fn lemma_resumed_goes_on(pending: Pending, reply: Reply, state: State)
    ensures
        resumed(pending, reply, state).1.progress != Progress::Finished(DispatchResult::Shutdown),
{
}


/// Whether the keyboard worker and the relay are at the same point of the
/// same session: the worker has the session's escape code and shutdown
/// commands, and remembers command mode as armed exactly when the session is
/// in command mode.
pub open spec fn in_step(worker: InputStreamView, relay: RelayView) -> bool {
    worker == (InputStreamView { is_escaped: relay.state.command_mode, ..relay.worker() })
}

/// The worker ends on a key only if the relay ends the session on the same
/// key, as long as the escape code is not itself the exit or the quit key.
pub proof fn lemma_worker_stops_with_relay(worker: InputStreamView, relay: RelayView, key: KeyIn)
    requires
        relay.phase == Phase::Keys,
        in_step(worker, relay),
        relay.state.escape_code != 24,
        relay.state.escape_code != 17,
        worker.stops_at(key@),
    ensures
        relay.step(Event::Key(Some(Ok(key)))).0.phase == Phase::Stopped,
{
    let bytes = key@.bytes();
    assert(bytes[0] == 24 || bytes[0] == 17);
}

/// After a key that has bytes, the worker and the relay are in step again:
/// the worker remembers command mode as armed exactly when the key has left
/// the session in command mode.
pub proof fn lemma_worker_keeps_in_step(worker: InputStreamView, relay: RelayView, key: KeyIn)
    requires
        relay.phase == Phase::Keys,
        relay.state.wf(),
        in_step(worker, relay),
        key@.bytes().len() > 0,
    ensures
        in_step(worker.after(key@), relay.step(Event::Key(Some(Ok(key)))).0),
{
    let bytes = key@.bytes();
    let (state, escaped) = escape_step(bytes, relay.state);
    match escaped {
        Escaped::Command(command) => {
            lemma_started_keeps_mode(command_of(command, state.escape_code), state);
        },
        _ => {},
    }
    match key@ {
        KeyInView::Char(c) => {
            assert(bytes[0] == c);
        },
        _ => {
            assert(bytes.len() != 1);
        },
    }
}

/// A byte from the line that is not Esc, read outside an escape sequence, is
/// shown as it is, and then it is the keyboard's turn.
pub proof fn lemma_plain_byte_is_shown(relay: RelayView, count: usize, byte: u8)
    requires
        relay.phase == Phase::Line,
        relay.partial.len() == 0,
        count > 0,
        byte != ESC,
    ensures
        relay.step(Event::Read(ReadOutcome::Read { count, first: byte })) == (
            RelayView { phase: Phase::Keys, ..relay },
            char_effects(byte),
        ),
{
    assert(relay.partial == Seq::<u8>::empty());
}


/// The session's DTR and RTS are the levels that the line last took: when the
/// line takes a level, the session keeps it, and when the line fails, the
/// session keeps what it had.
pub proof fn lemma_signals_mirror_the_line(pending: Pending, reply: Reply, state: State)
    ensures
        pending.request(state) matches RequestView::SetDtr(level) ==> resumed(
            pending,
            reply,
            state,
        ).0 == (State {
            dtr: if reply == Reply::Done {
                level
            } else {
                state.dtr
            },
            ..state
        }),
        pending.request(state) matches RequestView::SetRts(level) ==> resumed(
            pending,
            reply,
            state,
        ).0 == (State {
            rts: if reply == Reply::Done {
                level
            } else {
                state.rts
            },
            ..state
        }),
        !(pending.request(state) is SetDtr) && !(pending.request(state) is SetRts) ==> resumed(
            pending,
            reply,
            state,
        ).0 == state,
{
}


/// The keyboard and the line take turns. A look at the keyboard is always
/// followed by something else: every answer from the keyboard moves the relay
/// on. And the keyboard's turn comes only out of a read of the line: between
/// two looks at the keyboard the line is read at least once.
pub proof fn lemma_turns_alternate(relay: RelayView, event: Event)
    ensures
        relay.phase == Phase::Keys && event is Key ==> relay.step(event).0.phase != Phase::Keys,
        relay.phase != Phase::Keys && relay.step(event).0.phase == Phase::Keys ==> relay.phase
            == Phase::Line && event is Read,
{
}

} // verus!
