//! Command mode: the escape key arms it, the key after it is a command, and a
//! command runs as a short exchange with the line.
//!
//! A command cannot talk to the line itself. It says what it waits for (a
//! [`Pending`]), the program asks the line, and the command goes on with the
//! [`Reply`]. What it has to tell the user in between comes out as a list of
//! [`Effect`]s.

use vstd::prelude::*;
use crate::inputstream::{get_char_blocking, typed};
use crate::key::KeyIn;
use crate::line::{DataBits, FlowControl, Parity, Reply, Setting, StopBits, Value};
use crate::notice::Notice;
use crate::state::State;
use crate::terminal::{Effect, is_control};
use crate::utils::{parse_u32, parsed_u32, BAUDS};

verus! {

/// How a command ended.
#[derive(Clone, Copy, Debug, PartialEq, Eq, Structural)]
pub enum DispatchResult {
    /// The session goes on.
    Continue,
    /// The command failed, the session goes on: the notice says what failed.
    Recoverable(Notice),
    /// The session ends.
    Shutdown,
}

/// What a command in progress waits for.
#[derive(Clone, Copy, Debug, PartialEq, Eq, Structural)]
pub enum Pending {
    /// The baud rate, to step it up.
    BaudUp,
    /// The baud rate, to step it down.
    BaudDown,
    /// The next key of the baud rate that is being typed.
    BaudEntry,
    /// The character size, to move it on.
    DataBits,
    /// The number of stop bits, to move it on.
    StopBits,
    /// The flow control mode, to move it on.
    Flow,
    /// The parity mode, to move it on.
    Parity,
    /// The line to take this value.
    Apply(Value),
    /// The line to lower DTR, as the first half of a pulse.
    PulseLow,
    /// The line to raise DTR, as the second half of a pulse.
    PulseHigh,
    /// The line to take the opposite DTR level.
    ToggleDtr,
    /// The line to take the opposite RTS level.
    ToggleRts,
    /// The baud rate, as the first of the settings to show.
    ShowBaud,
    /// The flow control mode, as the second of the settings to show.
    ShowFlow(u32),
    /// The parity mode, as the third of the settings to show.
    ShowParity(u32, FlowControl),
    /// The character size, as the fourth of the settings to show.
    ShowDataBits(u32, FlowControl, Parity),
    /// The number of stop bits, as the last of the settings to show.
    ShowStopBits(u32, FlowControl, Parity, DataBits),
    /// The line to take the escape code as a literal byte.
    Literal,
}

/// Where a command stands after a step.
#[derive(Clone, Copy, Debug, PartialEq, Eq, Structural)]
pub enum Progress {
    /// It waits for an answer.
    Waiting(Pending),
    /// It is over.
    Finished(DispatchResult),
}

/// One step of a command: what to do on the screen now, and where the command
/// stands.
#[derive(Clone, Debug, PartialEq, Eq)]
pub struct Turn {
    pub effects: Vec<Effect>,
    pub progress: Progress,
}

/// The mathematical value of a [`Turn`].
pub struct TurnView {
    pub effects: Seq<Effect>,
    pub progress: Progress,
}

impl View for Turn {
    type V = TurnView;

    open spec fn view(&self) -> TurnView {
        TurnView { effects: self.effects@, progress: self.progress }
    }
}

impl TurnView {
    /// A step that shows nothing and waits.
    pub open spec fn waiting(pending: Pending) -> TurnView {
        TurnView { effects: Seq::empty(), progress: Progress::Waiting(pending) }
    }

    /// A step that shows nothing and ends the command.
    pub open spec fn finished(result: DispatchResult) -> TurnView {
        TurnView { effects: Seq::empty(), progress: Progress::Finished(result) }
    }

    /// A step that fails the command with a notice.
    pub open spec fn failed(notice: Notice) -> TurnView {
        TurnView::finished(DispatchResult::Recoverable(notice))
    }

    /// A step that shows a notice and ends the command well.
    pub open spec fn told(notice: Notice) -> TurnView {
        TurnView {
            effects: seq![Effect::Show(notice)],
            progress: Progress::Finished(DispatchResult::Continue),
        }
    }
}

impl Turn {
    /// A step that shows nothing and waits.
    fn waiting(pending: Pending) -> (turn: Turn)
        ensures
            turn@ == TurnView::waiting(pending),
    {
        Turn { effects: Vec::new(), progress: Progress::Waiting(pending) }
    }

    /// A step that shows nothing and ends the command.
    fn finished(result: DispatchResult) -> (turn: Turn)
        ensures
            turn@ == TurnView::finished(result),
    {
        Turn { effects: Vec::new(), progress: Progress::Finished(result) }
    }

    /// A step that fails the command with a notice.
    fn failed(notice: Notice) -> (turn: Turn)
        ensures
            turn@ == TurnView::failed(notice),
    {
        Turn::finished(DispatchResult::Recoverable(notice))
    }

    /// A step that shows a notice and ends the command well.
    fn told(notice: Notice) -> (turn: Turn)
        ensures
            turn@ == TurnView::told(notice),
    {
        let effects = vec![Effect::Show(notice)];
        assert(effects@ =~= seq![Effect::Show(notice)]);
        Turn { effects, progress: Progress::Finished(DispatchResult::Continue) }
    }
}

/// What the command-mode machine makes of a key.
#[derive(Clone, Copy, Debug, PartialEq, Eq, Structural)]
pub enum Escaped {
    /// The key is passed on to the line.
    Forward,
    /// The key was the escape code: it armed command mode and is used up.
    Consumed,
    /// The key is this command, and is not passed on.
    Command(u8),
}

/// The command-mode machine. `state.command_mode` is its state: `false` is
/// Normal, `true` is CommandPending.
///
/// - A key of several bytes, and a printable byte, is passed on and leaves
///   the machine in Normal.
/// - In CommandPending a control byte is the command, and the machine is back
///   in Normal.
/// - In Normal the escape code, if it is the control code of a letter, arms
///   CommandPending and is used up.
/// - In Normal any other control byte is passed on.
pub open spec fn escape_step(seq: Seq<u8>, state: State) -> (State, Escaped) {
    if seq.len() != 1 || !is_control(seq[0]) {
        (State { command_mode: false, ..state }, Escaped::Forward)
    } else if state.command_mode {
        (State { command_mode: false, ..state }, Escaped::Command(seq[0]))
    } else if seq[0] == state.escape_code && state.wf() {
        (State { command_mode: true, ..state }, Escaped::Consumed)
    } else {
        (state, Escaped::Forward)
    }
}

/// Runs the command-mode machine on the bytes of one key.
pub fn handle_escape(seq: &Vec<u8>, state: &mut State) -> (escaped: Escaped)
    ensures
        (*final(state), escaped) == escape_step(seq@, *old(state)),
{
    if seq.len() != 1 {
        state.command_mode = false;
        return Escaped::Forward;
    }
    let key = seq[0];
    if !(key < 32 || key == 127) {
        state.command_mode = false;
        return Escaped::Forward;
    }
    if state.command_mode {
        state.command_mode = false;
        return Escaped::Command(key);
    }
    if key == state.escape_code && 1 <= key && key <= 26 {
        state.command_mode = true;
        return Escaped::Consumed;
    }
    Escaped::Forward
}

/// The commands.
#[derive(Clone, Copy, Debug, PartialEq, Eq, Structural)]
pub enum Command {
    /// Send the escape code itself to the line.
    Literal,
    /// Leave, and reset the line unless told otherwise at start-up.
    Exit,
    /// Leave without resetting the line.
    Quit,
    /// Ask for a baud rate and set it.
    SetBaud,
    /// Step the baud rate up.
    BaudUp,
    /// Step the baud rate down.
    BaudDown,
    /// Move the character size on.
    DataBits,
    /// Switch the number of stop bits.
    StopBits,
    /// Move the flow control mode on.
    Flow,
    /// Move the parity mode on.
    Parity,
    /// Lower DTR for a second.
    PulseDtr,
    /// Toggle DTR.
    ToggleDtr,
    /// Toggle RTS.
    ToggleRts,
    /// Toggle local echo.
    LocalEcho,
    /// Show the settings of the line.
    ShowSettings,
    /// Show the list of commands.
    Help,
    /// No command: the key does nothing.
    Nothing,
}

/// The table of commands. The escape code comes first: typed twice it stands
/// for itself, so a command on the same key cannot be reached.
pub open spec fn command_of(command: u8, escape_code: u8) -> Command {
    if command == escape_code {
        Command::Literal
    } else if command == 24 {
        Command::Exit
    } else if command == 17 {
        Command::Quit
    } else if command == 2 {
        Command::SetBaud
    } else if command == 21 {
        Command::BaudUp
    } else if command == 4 {
        Command::BaudDown
    } else if command == 9 {
        Command::DataBits
    } else if command == 10 {
        Command::StopBits
    } else if command == 6 {
        Command::Flow
    } else if command == 25 {
        Command::Parity
    } else if command == 16 {
        Command::PulseDtr
    } else if command == 20 {
        Command::ToggleDtr
    } else if command == 7 {
        Command::ToggleRts
    } else if command == 3 {
        Command::LocalEcho
    } else if command == 22 {
        Command::ShowSettings
    } else if command == 8 || command == 127 {
        Command::Help
    } else {
        Command::Nothing
    }
}

/// How a command begins. Only leaving, local echo, help and an unknown key
/// are over at once; every other command first waits for the line.
pub open spec fn started(command: Command, state: State) -> (State, TurnView) {
    match command {
        Command::Literal => (state, TurnView::waiting(Pending::Literal)),
        Command::Exit => (state, TurnView::finished(DispatchResult::Shutdown)),
        Command::Quit => (
            State { noreset: true, ..state },
            TurnView::finished(DispatchResult::Shutdown),
        ),
        Command::SetBaud => (
            state,
            TurnView {
                effects: seq![Effect::Show(Notice::BaudPrompt)],
                progress: Progress::Waiting(Pending::BaudEntry),
            },
        ),
        Command::BaudUp => (state, TurnView::waiting(Pending::BaudUp)),
        Command::BaudDown => (state, TurnView::waiting(Pending::BaudDown)),
        Command::DataBits => (state, TurnView::waiting(Pending::DataBits)),
        Command::StopBits => (state, TurnView::waiting(Pending::StopBits)),
        Command::Flow => (state, TurnView::waiting(Pending::Flow)),
        Command::Parity => (state, TurnView::waiting(Pending::Parity)),
        Command::PulseDtr => (state, TurnView::waiting(Pending::PulseLow)),
        Command::ToggleDtr => (state, TurnView::waiting(Pending::ToggleDtr)),
        Command::ToggleRts => (state, TurnView::waiting(Pending::ToggleRts)),
        Command::LocalEcho => (
            State { local_echo: !state.local_echo, ..state },
            TurnView::told(Notice::LocalEcho(!state.local_echo)),
        ),
        Command::ShowSettings => (state, TurnView::waiting(Pending::ShowBaud)),
        Command::Help => (state, TurnView::told(Notice::Help(state.escape))),
        Command::Nothing => (state, TurnView::finished(DispatchResult::Continue)),
    }
}

/// Looks a key up in the table of commands.
pub fn lookup(command: u8, escape_code: u8) -> (found: Command)
    ensures
        found == command_of(command, escape_code),
{
    if command == escape_code {
        return Command::Literal;
    }
    match command {
        24 => Command::Exit,
        17 => Command::Quit,
        2 => Command::SetBaud,
        21 => Command::BaudUp,
        4 => Command::BaudDown,
        9 => Command::DataBits,
        10 => Command::StopBits,
        6 => Command::Flow,
        25 => Command::Parity,
        16 => Command::PulseDtr,
        20 => Command::ToggleDtr,
        7 => Command::ToggleRts,
        3 => Command::LocalEcho,
        22 => Command::ShowSettings,
        8 | 127 => Command::Help,
        _ => Command::Nothing,
    }
}

/// Begins the command that a key stands for.
pub fn handle_command(command: u8, state: &mut State) -> (turn: Turn)
    ensures
        (*final(state), turn@) == started(command_of(command, old(state).escape_code), *old(state)),
{
    match lookup(command, state.escape_code) {
        Command::Literal => Turn::waiting(Pending::Literal),
        Command::Exit => Turn::finished(DispatchResult::Shutdown),
        Command::Quit => {
            state.noreset = true;
            Turn::finished(DispatchResult::Shutdown)
        },
        Command::SetBaud => {
            let effects = vec![Effect::Show(Notice::BaudPrompt)];
            assert(effects@ =~= seq![Effect::Show(Notice::BaudPrompt)]);
            Turn { effects, progress: Progress::Waiting(Pending::BaudEntry) }
        },
        Command::BaudUp => Turn::waiting(Pending::BaudUp),
        Command::BaudDown => Turn::waiting(Pending::BaudDown),
        Command::DataBits => Turn::waiting(Pending::DataBits),
        Command::StopBits => Turn::waiting(Pending::StopBits),
        Command::Flow => Turn::waiting(Pending::Flow),
        Command::Parity => Turn::waiting(Pending::Parity),
        Command::PulseDtr => Turn::waiting(Pending::PulseLow),
        Command::ToggleDtr => Turn::waiting(Pending::ToggleDtr),
        Command::ToggleRts => Turn::waiting(Pending::ToggleRts),
        Command::LocalEcho => toggle_local_echo(state),
        Command::ShowSettings => Turn::waiting(Pending::ShowBaud),
        Command::Help => help_message(state),
        Command::Nothing => Turn::finished(DispatchResult::Continue),
    }
}

/// Toggles local echo, and says so.
pub fn toggle_local_echo(state: &mut State) -> (turn: Turn)
    ensures
        *final(state) == (State { local_echo: !old(state).local_echo, ..*old(state) }),
        turn@ == TurnView::told(Notice::LocalEcho(!old(state).local_echo)),
{
    state.local_echo = !state.local_echo;
    Turn::told(Notice::LocalEcho(state.local_echo))
}

/// Shows the list of commands.
pub fn help_message(state: &State) -> (turn: Turn)
    ensures
        turn@ == TurnView::told(Notice::Help(state.escape)),
{
    Turn::told(Notice::Help(state.escape))
}


/// Whether `baud` is one of the standard baud rates.
pub open spec fn is_standard_baud(baud: u32) -> bool {
    exists|i: int| 0 <= i < BAUDS@.len() && #[trigger] BAUDS@[i] == baud
}

/// Whether `next` is the standard baud rate just above `baud`: the least of
/// those that are greater.
pub open spec fn least_above(next: u32, baud: u32) -> bool {
    &&& is_standard_baud(next)
    &&& next > baud
    &&& forall|other: u32| #[trigger] is_standard_baud(other) && other > baud ==> next <= other
}

/// Whether `next` is the standard baud rate just below `baud`: the greatest
/// of those that are less.
pub open spec fn greatest_below(next: u32, baud: u32) -> bool {
    &&& is_standard_baud(next)
    &&& next < baud
    &&& forall|other: u32| #[trigger] is_standard_baud(other) && other < baud ==> other <= next
}

/// The standard baud rate just above `baud`, if there is one.
pub open spec fn baud_above(baud: u32) -> Option<u32> {
    if exists|next: u32| least_above(next, baud) {
        Some(choose|next: u32| least_above(next, baud))
    } else {
        None
    }
}

/// The standard baud rate just below `baud`, if there is one.
pub open spec fn baud_below(baud: u32) -> Option<u32> {
    if exists|next: u32| greatest_below(next, baud) {
        Some(choose|next: u32| greatest_below(next, baud))
    } else {
        None
    }
}

/// The table of baud rates goes strictly down.
proof fn lemma_bauds_descend(i: int, j: int)
    requires
        0 <= i <= j < 30,
    ensures
        BAUDS@[i] >= BAUDS@[j],
        i < j ==> BAUDS@[i] > BAUDS@[j],
    decreases j - i,
{
    if i < j {
        lemma_bauds_descend(i, j - 1);
        assert(BAUDS@[j - 1] > BAUDS@[j]);
    }
}

/// The standard baud rate just above `baud`, or `None` if `baud` is at or
/// above the fastest.
pub fn step_up(baud: u32) -> (next: Option<u32>)
    ensures
        next == baud_above(baud),
        next matches Some(rate) ==> least_above(rate, baud),
        next is None ==> forall|other: u32| #[trigger] is_standard_baud(other) ==> other <= baud,
{
    let mut i: usize = BAUDS.len();
    while i > 0
        invariant
            i <= 30,
            forall|j: int| i <= j < 30 ==> #[trigger] BAUDS@[j] <= baud,
        decreases i,
    {
        i -= 1;
        let rate = BAUDS[i];
        if rate > baud {
            proof {
                assert forall|other: u32| #[trigger]
                    is_standard_baud(other) && other > baud implies rate <= other by {
                    let k = choose|k: int| 0 <= k < BAUDS@.len() && #[trigger] BAUDS@[k] == other;
                    if k > i {
                        assert(BAUDS@[k] <= baud);
                    } else {
                        lemma_bauds_descend(k, i as int);
                    }
                }
                assert(BAUDS@[i as int] == rate);
                assert(least_above(rate, baud));
                let chosen = choose|next: u32| least_above(next, baud);
                assert(least_above(chosen, baud));
                assert(chosen == rate);
            }
            return Some(rate);
        }
    }
    proof {
        assert forall|other: u32| #[trigger] is_standard_baud(other) implies other <= baud by {
            let k = choose|k: int| 0 <= k < BAUDS@.len() && #[trigger] BAUDS@[k] == other;
            assert(BAUDS@[k] <= baud);
        }
    }
    None
}

/// The standard baud rate just below `baud`, or `None` if `baud` is at or
/// below the slowest.
pub fn step_down(baud: u32) -> (next: Option<u32>)
    ensures
        next == baud_below(baud),
        next matches Some(rate) ==> greatest_below(rate, baud),
        next is None ==> forall|other: u32| #[trigger] is_standard_baud(other) ==> other >= baud,
{
    let mut i: usize = 0;
    while i < BAUDS.len()
        invariant
            i <= 30,
            forall|j: int| 0 <= j < i ==> #[trigger] BAUDS@[j] >= baud,
        decreases 30 - i,
    {
        let rate = BAUDS[i];
        if rate < baud {
            proof {
                assert forall|other: u32| #[trigger]
                    is_standard_baud(other) && other < baud implies other <= rate by {
                    let k = choose|k: int| 0 <= k < BAUDS@.len() && #[trigger] BAUDS@[k] == other;
                    if k < i {
                        assert(BAUDS@[k] >= baud);
                    } else {
                        lemma_bauds_descend(i as int, k);
                    }
                }
                assert(BAUDS@[i as int] == rate);
                assert(greatest_below(rate, baud));
                let chosen = choose|next: u32| greatest_below(next, baud);
                assert(greatest_below(chosen, baud));
                assert(chosen == rate);
            }
            return Some(rate);
        }
        i += 1;
    }
    proof {
        assert forall|other: u32| #[trigger] is_standard_baud(other) implies other >= baud by {
            let k = choose|k: int| 0 <= k < BAUDS@.len() && #[trigger] BAUDS@[k] == other;
            assert(BAUDS@[k] >= baud);
        }
    }
    None
}

/// The character size after `bits` in the cycle 5, 6, 7, 8, 5.
pub open spec fn next_data_bits(bits: DataBits) -> DataBits {
    match bits {
        DataBits::Five => DataBits::Six,
        DataBits::Six => DataBits::Seven,
        DataBits::Seven => DataBits::Eight,
        DataBits::Eight => DataBits::Five,
    }
}

/// The other number of stop bits.
pub open spec fn next_stop_bits(bits: StopBits) -> StopBits {
    match bits {
        StopBits::One => StopBits::Two,
        StopBits::Two => StopBits::One,
    }
}

/// The flow control mode after `flow` in the cycle none, software, hardware,
/// none.
pub open spec fn next_flow_control(flow: FlowControl) -> FlowControl {
    match flow {
        FlowControl::Off => FlowControl::Software,
        FlowControl::Software => FlowControl::Hardware,
        FlowControl::Hardware => FlowControl::Off,
    }
}

/// The parity mode after `parity` in the cycle none, odd, even, none.
pub open spec fn next_parity(parity: Parity) -> Parity {
    match parity {
        Parity::Off => Parity::Odd,
        Parity::Odd => Parity::Even,
        Parity::Even => Parity::Off,
    }
}

/// The baud rate that the line reported, or the failure to read it.
pub open spec fn baud_in(reply: Reply) -> Result<u32, DispatchResult> {
    match reply {
        Reply::Value(Value::Baud(baud)) => Ok(baud),
        _ => Err(DispatchResult::Recoverable(Notice::ReadFailed(Setting::Baud))),
    }
}

/// The flow control mode that the line reported, or the failure to read it.
pub open spec fn flow_control_in(reply: Reply) -> Result<FlowControl, DispatchResult> {
    match reply {
        Reply::Value(Value::FlowControl(flow)) => Ok(flow),
        _ => Err(DispatchResult::Recoverable(Notice::ReadFailed(Setting::FlowControl))),
    }
}

/// The parity mode that the line reported, or the failure to read it.
pub open spec fn parity_in(reply: Reply) -> Result<Parity, DispatchResult> {
    match reply {
        Reply::Value(Value::Parity(parity)) => Ok(parity),
        _ => Err(DispatchResult::Recoverable(Notice::ReadFailed(Setting::Parity))),
    }
}

/// The character size that the line reported, or the failure to read it.
pub open spec fn data_bits_in(reply: Reply) -> Result<DataBits, DispatchResult> {
    match reply {
        Reply::Value(Value::DataBits(bits)) => Ok(bits),
        _ => Err(DispatchResult::Recoverable(Notice::ReadFailed(Setting::DataBits))),
    }
}

/// The number of stop bits that the line reported, or the failure to read it.
pub open spec fn stop_bits_in(reply: Reply) -> Result<StopBits, DispatchResult> {
    match reply {
        Reply::Value(Value::StopBits(bits)) => Ok(bits),
        _ => Err(DispatchResult::Recoverable(Notice::ReadFailed(Setting::StopBits))),
    }
}

/// Takes the baud rate out of the line's reply.
fn get_baud(reply: Reply) -> (baud: Result<u32, DispatchResult>)
    ensures
        baud == baud_in(reply),
{
    match reply {
        Reply::Value(Value::Baud(v)) => Ok(v),
        _ => Err(DispatchResult::Recoverable(Notice::ReadFailed(Setting::Baud))),
    }
}

/// Takes the flow control mode out of the line's reply.
fn get_flow_control(reply: Reply) -> (flow: Result<FlowControl, DispatchResult>)
    ensures
        flow == flow_control_in(reply),
{
    match reply {
        Reply::Value(Value::FlowControl(v)) => Ok(v),
        _ => Err(DispatchResult::Recoverable(Notice::ReadFailed(Setting::FlowControl))),
    }
}

/// Takes the parity mode out of the line's reply.
fn get_parity(reply: Reply) -> (parity: Result<Parity, DispatchResult>)
    ensures
        parity == parity_in(reply),
{
    match reply {
        Reply::Value(Value::Parity(v)) => Ok(v),
        _ => Err(DispatchResult::Recoverable(Notice::ReadFailed(Setting::Parity))),
    }
}

/// Takes the character size out of the line's reply.
fn get_databits(reply: Reply) -> (bits: Result<DataBits, DispatchResult>)
    ensures
        bits == data_bits_in(reply),
{
    match reply {
        Reply::Value(Value::DataBits(v)) => Ok(v),
        _ => Err(DispatchResult::Recoverable(Notice::ReadFailed(Setting::DataBits))),
    }
}

/// Takes the number of stop bits out of the line's reply.
fn get_stopbits(reply: Reply) -> (bits: Result<StopBits, DispatchResult>)
    ensures
        bits == stop_bits_in(reply),
{
    match reply {
        Reply::Value(Value::StopBits(v)) => Ok(v),
        _ => Err(DispatchResult::Recoverable(Notice::ReadFailed(Setting::StopBits))),
    }
}

/// Baud up, once the line has reported its baud rate: the line is given the
/// standard rate just above it. At the top of the table nothing is done. A
/// reply that is no baud rate fails the command.
pub open spec fn increased(reply: Reply) -> TurnView {
    match baud_in(reply) {
        Ok(baud) => match baud_above(baud) {
            Some(next) => TurnView::waiting(Pending::Apply(Value::Baud(next))),
            None => TurnView::finished(DispatchResult::Continue),
        },
        Err(failure) => TurnView::finished(failure),
    }
}

/// Baud down, once the line has reported its baud rate: the line is given the
/// standard rate just below it. At the bottom of the table nothing is done. A
/// reply that is no baud rate fails the command.
pub open spec fn decreased(reply: Reply) -> TurnView {
    match baud_in(reply) {
        Ok(baud) => match baud_below(baud) {
            Some(next) => TurnView::waiting(Pending::Apply(Value::Baud(next))),
            None => TurnView::finished(DispatchResult::Continue),
        },
        Err(failure) => TurnView::finished(failure),
    }
}

/// A cycling command, once the line has reported the setting: the line is
/// given the next value in the setting's cycle. A reply that is not a value
/// of the setting fails the command.
pub open spec fn cycled(setting: Setting, reply: Reply) -> TurnView {
    match setting {
        Setting::DataBits => match data_bits_in(reply) {
            Ok(bits) => TurnView::waiting(Pending::Apply(Value::DataBits(next_data_bits(bits)))),
            Err(failure) => TurnView::finished(failure),
        },
        Setting::StopBits => match stop_bits_in(reply) {
            Ok(bits) => TurnView::waiting(Pending::Apply(Value::StopBits(next_stop_bits(bits)))),
            Err(failure) => TurnView::finished(failure),
        },
        Setting::FlowControl => match flow_control_in(reply) {
            Ok(flow) => TurnView::waiting(
                Pending::Apply(Value::FlowControl(next_flow_control(flow))),
            ),
            Err(failure) => TurnView::finished(failure),
        },
        Setting::Parity => match parity_in(reply) {
            Ok(parity) => TurnView::waiting(Pending::Apply(Value::Parity(next_parity(parity)))),
            Err(failure) => TurnView::finished(failure),
        },
        Setting::Baud => TurnView::finished(DispatchResult::Continue),
    }
}

/// The end of a command that gave the line a value: the change is shown if
/// the line took it, and the command fails if not.
pub open spec fn applied(value: Value, reply: Reply) -> TurnView {
    if reply == Reply::Done {
        TurnView::told(Notice::Changed(value))
    } else {
        TurnView::failed(Notice::WriteFailed(value.setting()))
    }
}

/// One half of a DTR pulse, once the line has answered. `level` is what the
/// line was asked for: down in the first half, up in the second. After the
/// first half the program shows that DTR is down, waits a second, and the
/// line is asked to raise DTR. After the second half it shows that DTR is up.
/// The session keeps the level that the line took. If the line did not take
/// it, the command fails there.
pub open spec fn pulsed(level: bool, reply: Reply, state: State) -> (State, TurnView) {
    if reply == Reply::Done {
        if level {
            (State { dtr: true, ..state }, TurnView::told(Notice::Dtr(true)))
        } else {
            (
                State { dtr: false, ..state },
                TurnView {
                    effects: seq![Effect::Show(Notice::Dtr(false)), Effect::Pause],
                    progress: Progress::Waiting(Pending::PulseHigh),
                },
            )
        }
    } else {
        (
            state,
            TurnView::failed(
                if level {
                    Notice::DtrRaiseFailed
                } else {
                    Notice::DtrLowerFailed
                },
            ),
        )
    }
}

/// The end of a DTR toggle: if the line took the level, the session keeps it
/// and shows it.
pub open spec fn dtr_toggled(reply: Reply, state: State) -> (State, TurnView) {
    if reply == Reply::Done {
        (State { dtr: !state.dtr, ..state }, TurnView::told(Notice::Dtr(!state.dtr)))
    } else {
        (state, TurnView::failed(Notice::DtrToggleFailed))
    }
}

/// The end of an RTS toggle: if the line took the level, the session keeps it
/// and shows it.
pub open spec fn rts_toggled(reply: Reply, state: State) -> (State, TurnView) {
    if reply == Reply::Done {
        (State { rts: !state.rts, ..state }, TurnView::told(Notice::Rts(!state.rts)))
    } else {
        (state, TurnView::failed(Notice::RtsToggleFailed))
    }
}

/// Showing the settings, one reply at a time: baud rate, flow control, parity,
/// character size, stop bits. With the last one all of them are shown, with
/// the levels of DTR and RTS that the session keeps. A reply out of turn fails
/// the command.
pub open spec fn shown(pending: Pending, reply: Reply, state: State) -> TurnView {
    match pending {
        Pending::ShowBaud => match baud_in(reply) {
            Ok(baud) => TurnView::waiting(Pending::ShowFlow(baud)),
            Err(failure) => TurnView::finished(failure),
        },
        Pending::ShowFlow(baud) => match flow_control_in(reply) {
            Ok(flow) => TurnView::waiting(Pending::ShowParity(baud, flow)),
            Err(failure) => TurnView::finished(failure),
        },
        Pending::ShowParity(baud, flow) => match parity_in(reply) {
            Ok(parity) => TurnView::waiting(Pending::ShowDataBits(baud, flow, parity)),
            Err(failure) => TurnView::finished(failure),
        },
        Pending::ShowDataBits(baud, flow, parity) => match data_bits_in(reply) {
            Ok(data_bits) => TurnView::waiting(
                Pending::ShowStopBits(baud, flow, parity, data_bits),
            ),
            Err(failure) => TurnView::finished(failure),
        },
        Pending::ShowStopBits(baud, flow, parity, data_bits) => match stop_bits_in(reply) {
            Ok(stop_bits) => TurnView::told(
                Notice::Settings {
                    baud,
                    flow,
                    parity,
                    data_bits,
                    stop_bits,
                    dtr: state.dtr,
                    rts: state.rts,
                },
            ),
            Err(failure) => TurnView::finished(failure),
        },
        _ => TurnView::finished(DispatchResult::Continue),
    }
}

/// The end of the command that sends the escape code itself.
pub open spec fn literal_sent(reply: Reply) -> TurnView {
    if reply == Reply::Done {
        TurnView::finished(DispatchResult::Continue)
    } else {
        TurnView::failed(Notice::PortWriteFailed)
    }
}

/// How a command goes on with the line's reply. Nothing that the line says
/// matters to the baud rate that is being typed.
pub open spec fn resumed(pending: Pending, reply: Reply, state: State) -> (State, TurnView) {
    match pending {
        Pending::BaudUp => (state, increased(reply)),
        Pending::BaudDown => (state, decreased(reply)),
        Pending::BaudEntry => (state, TurnView::waiting(Pending::BaudEntry)),
        Pending::DataBits => (state, cycled(Setting::DataBits, reply)),
        Pending::StopBits => (state, cycled(Setting::StopBits, reply)),
        Pending::Flow => (state, cycled(Setting::FlowControl, reply)),
        Pending::Parity => (state, cycled(Setting::Parity, reply)),
        Pending::Apply(value) => (state, applied(value, reply)),
        Pending::PulseLow => pulsed(false, reply, state),
        Pending::PulseHigh => pulsed(true, reply, state),
        Pending::ToggleDtr => dtr_toggled(reply, state),
        Pending::ToggleRts => rts_toggled(reply, state),
        Pending::Literal => (state, literal_sent(reply)),
        _ => (state, shown(pending, reply, state)),
    }
}

/// Asks the line to take a baud rate.
fn update_baud(baud: u32) -> (turn: Turn)
    ensures
        turn@ == TurnView::waiting(Pending::Apply(Value::Baud(baud))),
{
    Turn::waiting(Pending::Apply(Value::Baud(baud)))
}

/// Baud up: selects the next standard baud rate above the one that the line
/// reported.
fn increase_baudrate(reply: Reply) -> (turn: Turn)
    ensures
        turn@ == increased(reply),
{
    let baud = match get_baud(reply) {
        Ok(v) => v,
        Err(e) => {
            return Turn::finished(e);
        },
    };
    match step_up(baud) {
        Some(next) => update_baud(next),
        None => Turn::finished(DispatchResult::Continue),
    }
}

/// Baud down: selects the next standard baud rate below the one that the line
/// reported.
fn decrease_baudrate(reply: Reply) -> (turn: Turn)
    ensures
        turn@ == decreased(reply),
{
    let baud = match get_baud(reply) {
        Ok(v) => v,
        Err(e) => {
            return Turn::finished(e);
        },
    };
    match step_down(baud) {
        Some(next) => update_baud(next),
        None => Turn::finished(DispatchResult::Continue),
    }
}

/// Moves the character size on from the one that the line reported.
fn change_databits(reply: Reply) -> (turn: Turn)
    ensures
        turn@ == cycled(Setting::DataBits, reply),
{
    let databits = match get_databits(reply) {
        Ok(v) => v,
        Err(e) => {
            return Turn::finished(e);
        },
    };
    let new_databits = match databits {
        DataBits::Five => DataBits::Six,
        DataBits::Six => DataBits::Seven,
        DataBits::Seven => DataBits::Eight,
        DataBits::Eight => DataBits::Five,
    };
    Turn::waiting(Pending::Apply(Value::DataBits(new_databits)))
}

/// Switches between one and two stop bits, from what the line reported.
fn change_stopbits(reply: Reply) -> (turn: Turn)
    ensures
        turn@ == cycled(Setting::StopBits, reply),
{
    let stopbits = match get_stopbits(reply) {
        Ok(v) => v,
        Err(e) => {
            return Turn::finished(e);
        },
    };
    let new_stopbits = match stopbits {
        StopBits::One => StopBits::Two,
        StopBits::Two => StopBits::One,
    };
    Turn::waiting(Pending::Apply(Value::StopBits(new_stopbits)))
}

/// Moves the flow control mode on from the one that the line reported.
fn change_flowcontrol(reply: Reply) -> (turn: Turn)
    ensures
        turn@ == cycled(Setting::FlowControl, reply),
{
    let flowcontrol = match get_flow_control(reply) {
        Ok(v) => v,
        Err(e) => {
            return Turn::finished(e);
        },
    };
    let new_flowcontrol = match flowcontrol {
        FlowControl::Off => FlowControl::Software,
        FlowControl::Software => FlowControl::Hardware,
        FlowControl::Hardware => FlowControl::Off,
    };
    Turn::waiting(Pending::Apply(Value::FlowControl(new_flowcontrol)))
}

/// Moves the parity mode on from the one that the line reported.
fn change_parity(reply: Reply) -> (turn: Turn)
    ensures
        turn@ == cycled(Setting::Parity, reply),
{
    let parity = match get_parity(reply) {
        Ok(v) => v,
        Err(e) => {
            return Turn::finished(e);
        },
    };
    let new_parity = match parity {
        Parity::Off => Parity::Odd,
        Parity::Odd => Parity::Even,
        Parity::Even => Parity::Off,
    };
    Turn::waiting(Pending::Apply(Value::Parity(new_parity)))
}

/// Ends a command that gave the line a value.
fn confirm(value: Value, reply: Reply) -> (turn: Turn)
    ensures
        turn@ == applied(value, reply),
{
    match reply {
        Reply::Done => Turn::told(Notice::Changed(value)),
        _ => Turn::failed(Notice::WriteFailed(value.setting())),
    }
}

/// Goes on with a DTR pulse: `level` is the level that the line was asked to
/// take.
fn pulse_dtr(level: bool, reply: Reply, state: &mut State) -> (turn: Turn)
    ensures
        (*final(state), turn@) == pulsed(level, reply, *old(state)),
{
    match reply {
        Reply::Done => {
            state.dtr = level;
            if level {
                Turn::told(Notice::Dtr(true))
            } else {
                let effects = vec![Effect::Show(Notice::Dtr(false)), Effect::Pause];
                assert(effects@ =~= seq![Effect::Show(Notice::Dtr(false)), Effect::Pause]);
                Turn { effects, progress: Progress::Waiting(Pending::PulseHigh) }
            }
        },
        _ => {
            if level {
                Turn::failed(Notice::DtrRaiseFailed)
            } else {
                Turn::failed(Notice::DtrLowerFailed)
            }
        },
    }
}

/// Ends a DTR toggle.
fn toggle_dtr(reply: Reply, state: &mut State) -> (turn: Turn)
    ensures
        (*final(state), turn@) == dtr_toggled(reply, *old(state)),
{
    match reply {
        Reply::Done => {
            state.dtr = !state.dtr;
            Turn::told(Notice::Dtr(state.dtr))
        },
        _ => Turn::failed(Notice::DtrToggleFailed),
    }
}

/// Ends an RTS toggle.
fn toggle_rts(reply: Reply, state: &mut State) -> (turn: Turn)
    ensures
        (*final(state), turn@) == rts_toggled(reply, *old(state)),
{
    match reply {
        Reply::Done => {
            state.rts = !state.rts;
            Turn::told(Notice::Rts(state.rts))
        },
        _ => Turn::failed(Notice::RtsToggleFailed),
    }
}

/// Goes on with showing the settings of the line.
fn show_port_settings(pending: Pending, reply: Reply, state: &State) -> (turn: Turn)
    ensures
        turn@ == shown(pending, reply, *state),
{
    match pending {
        Pending::ShowBaud => match get_baud(reply) {
            Ok(baud) => Turn::waiting(Pending::ShowFlow(baud)),
            Err(e) => Turn::finished(e),
        },
        Pending::ShowFlow(baud) => match get_flow_control(reply) {
            Ok(flowcontrol) => Turn::waiting(Pending::ShowParity(baud, flowcontrol)),
            Err(e) => Turn::finished(e),
        },
        Pending::ShowParity(baud, flowcontrol) => match get_parity(reply) {
            Ok(parity) => Turn::waiting(Pending::ShowDataBits(baud, flowcontrol, parity)),
            Err(e) => Turn::finished(e),
        },
        Pending::ShowDataBits(baud, flowcontrol, parity) => match get_databits(reply) {
            Ok(databits) => Turn::waiting(
                Pending::ShowStopBits(baud, flowcontrol, parity, databits),
            ),
            Err(e) => Turn::finished(e),
        },
        Pending::ShowStopBits(baud, flowcontrol, parity, databits) => match get_stopbits(reply) {
            Ok(stopbits) => Turn::told(
                Notice::Settings {
                    baud,
                    flow: flowcontrol,
                    parity,
                    data_bits: databits,
                    stop_bits: stopbits,
                    dtr: state.dtr,
                    rts: state.rts,
                },
            ),
            Err(e) => Turn::finished(e),
        },
        _ => Turn::finished(DispatchResult::Continue),
    }
}

/// Goes on with a command, now that the line has answered what the command
/// was waiting for.
pub fn handle_reply(pending: Pending, reply: Reply, state: &mut State) -> (turn: Turn)
    ensures
        (*final(state), turn@) == resumed(pending, reply, *old(state)),
{
    match pending {
        Pending::BaudUp => increase_baudrate(reply),
        Pending::BaudDown => decrease_baudrate(reply),
        Pending::BaudEntry => Turn::waiting(Pending::BaudEntry),
        Pending::DataBits => change_databits(reply),
        Pending::StopBits => change_stopbits(reply),
        Pending::Flow => change_flowcontrol(reply),
        Pending::Parity => change_parity(reply),
        Pending::Apply(value) => confirm(value, reply),
        Pending::PulseLow => pulse_dtr(false, reply, state),
        Pending::PulseHigh => pulse_dtr(true, reply, state),
        Pending::ToggleDtr => toggle_dtr(reply, state),
        Pending::ToggleRts => toggle_rts(reply, state),
        Pending::Literal => match reply {
            Reply::Done => Turn::finished(DispatchResult::Continue),
            _ => Turn::failed(Notice::PortWriteFailed),
        },
        _ => show_port_settings(pending, reply, state),
    }
}


/// The baud prompt, one key at a time. `polled` is what came from the
/// keyboard and `entry` the line typed so far; the result is the line after
/// the key, and the step.
///
/// - No key: nothing happens.
/// - The keyboard is lost: the session ends.
/// - A key that does not end the line: it is taken into the line and echoed.
/// - A key that ends the line: if the line is a number, the line is asked to
///   take it as the baud rate; if not, the user is told and prompted again.
///   Either way the next line starts empty.
pub open spec fn baud_typed(polled: Option<Result<KeyIn, ()>>, entry: Seq<char>) -> (
    Seq<char>,
    TurnView,
) {
    match polled {
        None => (entry, TurnView::waiting(Pending::BaudEntry)),
        Some(Err(_)) => (
            entry,
            TurnView {
                effects: seq![Effect::Show(Notice::ConsoleLost)],
                progress: Progress::Finished(DispatchResult::Shutdown),
            },
        ),
        Some(Ok(key)) => {
            let after = typed(entry, key@);
            if !after.done {
                (
                    after.line,
                    TurnView { effects: after.echo, progress: Progress::Waiting(Pending::BaudEntry) },
                )
            } else {
                match parsed_u32(after.line) {
                    Some(baud) => (
                        Seq::empty(),
                        TurnView::waiting(Pending::Apply(Value::Baud(baud))),
                    ),
                    None => (
                        Seq::empty(),
                        TurnView {
                            effects: seq![
                                Effect::Show(Notice::InvalidNumber),
                                Effect::Show(Notice::BaudPrompt),
                            ],
                            progress: Progress::Waiting(Pending::BaudEntry),
                        },
                    ),
                }
            }
        },
    }
}

/// Goes on with the baud prompt: takes one key of the line that is being
/// typed and, when the line is complete, asks the line to take the number as
/// its baud rate.
pub fn set_baudrate(polled: Option<Result<KeyIn, ()>>, entry: &mut Vec<char>) -> (turn: Turn)
    ensures
        (final(entry)@, turn@) == baud_typed(polled, old(entry)@),
{
    let received = match polled {
        Some(received) => received,
        None => {
            return Turn::waiting(Pending::BaudEntry);
        },
    };
    let mut effects: Vec<Effect> = Vec::new();
    let complete = match get_char_blocking(entry, &mut effects, &received) {
        Ok(done) => done,
        Err(_) => {
            effects.push(Effect::Show(Notice::ConsoleLost));
            assert(effects@ =~= seq![Effect::Show(Notice::ConsoleLost)]);
            return Turn { effects, progress: Progress::Finished(DispatchResult::Shutdown) };
        },
    };
    if !complete {
        assert(effects@ =~= typed(old(entry)@, received->Ok_0@).echo);
        return Turn { effects, progress: Progress::Waiting(Pending::BaudEntry) };
    }
    let baud = parse_u32(entry);
    entry.clear();
    match baud {
        Some(v) => update_baud(v),
        None => {
            effects.push(Effect::Show(Notice::InvalidNumber));
            effects.push(Effect::Show(Notice::BaudPrompt));
            assert(effects@ =~= seq![
                Effect::Show(Notice::InvalidNumber),
                Effect::Show(Notice::BaudPrompt),
            ]);
            Turn { effects, progress: Progress::Waiting(Pending::BaudEntry) }
        },
    }
}


/// In Normal a key of one byte that is not the escape code is passed on
/// unchanged, and the machine stays in Normal.
pub proof fn lemma_normal_forwards(byte: u8, state: State)
    requires
        !state.command_mode,
        byte != state.escape_code,
    ensures
        escape_step(seq![byte], state) == (state, Escaped::Forward),
{
    assert(seq![byte][0] == byte);
}

/// In Normal the escape code arms command mode and is used up: nothing is
/// passed on.
pub proof fn lemma_escape_code_arms(state: State)
    requires
        state.wf(),
        !state.command_mode,
    ensures
        escape_step(seq![state.escape_code], state) == (
            State { command_mode: true, ..state },
            Escaped::Consumed,
        ),
{
    assert(seq![state.escape_code][0] == state.escape_code);
}

/// In CommandPending every key brings the machine back to Normal, whatever
/// the key is. If the key is a control byte it is the command, and it is not
/// passed on; this holds for the escape code too.
pub proof fn lemma_pending_returns(seq: Seq<u8>, state: State)
    requires
        state.command_mode,
    ensures
        escape_step(seq, state).0 == (State { command_mode: false, ..state }),
        seq.len() == 1 && is_control(seq[0]) ==> escape_step(seq, state).1 == Escaped::Command(
            seq[0],
        ),
{
}

/// Command mode is entered by the escape code alone: any other key leaves
/// the machine in Normal.
pub proof fn lemma_only_escape_code_arms(seq: Seq<u8>, state: State)
    requires
        escape_step(seq, state).0.command_mode,
    ensures
        !state.command_mode,
        state.wf(),
        seq == seq![state.escape_code],
{
    assert(seq =~= seq![state.escape_code]);
}

/// With an escape code that is not the control code of a letter, command
/// mode is never entered.
pub proof fn lemma_unreachable_without_escape_code(seq: Seq<u8>, state: State)
    requires
        !state.wf(),
        !state.command_mode,
    ensures
        escape_step(seq, state).0 == state,
        escape_step(seq, state).1 == Escaped::Forward,
{
}

/// The beginning of a command touches nothing of the session but the reset
/// on exit and local echo. The machine stays in the mode it is in: a command
/// does not bring command mode back.
pub proof fn lemma_started_keeps_mode(command: Command, state: State)
    ensures
        started(command, state).0 == (State {
            noreset: started(command, state).0.noreset,
            local_echo: started(command, state).0.local_echo,
            ..state
        }),
{
}

/// The escape code typed as a command stands for itself, whatever command
/// the table has on that key.
pub proof fn lemma_escape_code_is_literal(state: State)
    ensures
        started(command_of(state.escape_code, state.escape_code), state) == (
            state,
            TurnView::waiting(Pending::Literal),
        ),
{
}

/// The character sizes go round in a cycle of four: four steps, and no
/// fewer, lead back to where they began.
pub proof fn lemma_data_bits_cycle(bits: DataBits)
    ensures
        next_data_bits(next_data_bits(next_data_bits(next_data_bits(bits)))) == bits,
        next_data_bits(bits) != bits,
        next_data_bits(next_data_bits(bits)) != bits,
        next_data_bits(next_data_bits(next_data_bits(bits))) != bits,
{
}

/// Stop bits go back and forth; flow control and parity go round in cycles of
/// three.
pub proof fn lemma_other_cycles(stop: StopBits, flow: FlowControl, parity: Parity)
    ensures
        next_stop_bits(next_stop_bits(stop)) == stop,
        next_stop_bits(stop) != stop,
        next_flow_control(next_flow_control(next_flow_control(flow))) == flow,
        next_flow_control(flow) != flow,
        next_flow_control(next_flow_control(flow)) != flow,
        next_parity(next_parity(next_parity(parity))) == parity,
        next_parity(parity) != parity,
        next_parity(next_parity(parity)) != parity,
{
}

/// The baud rate above and the baud rate below are what their names say, and
/// there is at most one of each.
pub proof fn lemma_baud_steps(baud: u32)
    ensures
        baud_above(baud) matches Some(next) ==> least_above(next, baud),
        baud_above(baud) is None ==> forall|other: u32| #[trigger]
            is_standard_baud(other) ==> other <= baud,
        baud_below(baud) matches Some(next) ==> greatest_below(next, baud),
        baud_below(baud) is None ==> forall|other: u32| #[trigger]
            is_standard_baud(other) ==> other >= baud,
        forall|a: u32, b: u32| least_above(a, baud) && least_above(b, baud) ==> a == b,
        forall|a: u32, b: u32| greatest_below(a, baud) && greatest_below(b, baud) ==> a == b,
{
    lemma_least_above_exists(baud);
    lemma_greatest_below_exists(baud);
}

/// Among the standard baud rates above `baud`, if there are any, one is the
/// least.
proof fn lemma_least_above_exists(baud: u32)
    ensures
        (exists|next: u32| least_above(next, baud)) || forall|other: u32| #[trigger]
            is_standard_baud(other) ==> other <= baud,
{
    lemma_least_above_from(baud, 30);
}

/// Looks through the table from the slow end down to place `i` for the first
/// rate above `baud`.
proof fn lemma_least_above_from(baud: u32, i: int)
    requires
        0 <= i <= 30,
        forall|j: int| i <= j < 30 ==> #[trigger] BAUDS@[j] <= baud,
    ensures
        (exists|next: u32| least_above(next, baud)) || forall|other: u32| #[trigger]
            is_standard_baud(other) ==> other <= baud,
    decreases i,
{
    if i == 0 {
        assert forall|other: u32| #[trigger] is_standard_baud(other) implies other <= baud by {
            let k = choose|k: int| 0 <= k < BAUDS@.len() && #[trigger] BAUDS@[k] == other;
            assert(BAUDS@[k] <= baud);
        }
    } else if BAUDS@[i - 1] > baud {
        let rate = BAUDS@[i - 1];
        assert forall|other: u32| #[trigger]
            is_standard_baud(other) && other > baud implies rate <= other by {
            let k = choose|k: int| 0 <= k < BAUDS@.len() && #[trigger] BAUDS@[k] == other;
            if k > i - 1 {
                assert(BAUDS@[k] <= baud);
            } else {
                lemma_bauds_descend(k, i - 1);
            }
        }
        assert(least_above(rate, baud));
    } else {
        lemma_least_above_from(baud, i - 1);
    }
}

/// Among the standard baud rates below `baud`, if there are any, one is the
/// greatest.
proof fn lemma_greatest_below_exists(baud: u32)
    ensures
        (exists|next: u32| greatest_below(next, baud)) || forall|other: u32| #[trigger]
            is_standard_baud(other) ==> other >= baud,
{
    lemma_greatest_below_from(baud, 0);
}

/// Looks through the table from place `i` to the slow end for the first rate
/// below `baud`.
proof fn lemma_greatest_below_from(baud: u32, i: int)
    requires
        0 <= i <= 30,
        forall|j: int| 0 <= j < i ==> #[trigger] BAUDS@[j] >= baud,
    ensures
        (exists|next: u32| greatest_below(next, baud)) || forall|other: u32| #[trigger]
            is_standard_baud(other) ==> other >= baud,
    decreases 30 - i,
{
    if i == 30 {
        assert forall|other: u32| #[trigger] is_standard_baud(other) implies other >= baud by {
            let k = choose|k: int| 0 <= k < BAUDS@.len() && #[trigger] BAUDS@[k] == other;
            assert(BAUDS@[k] >= baud);
        }
    } else if BAUDS@[i] < baud {
        let rate = BAUDS@[i];
        assert forall|other: u32| #[trigger]
            is_standard_baud(other) && other < baud implies other <= rate by {
            let k = choose|k: int| 0 <= k < BAUDS@.len() && #[trigger] BAUDS@[k] == other;
            if k < i {
                assert(BAUDS@[k] >= baud);
            } else {
                lemma_bauds_descend(i, k);
            }
        }
        assert(greatest_below(rate, baud));
    } else {
        lemma_greatest_below_from(baud, i + 1);
    }
}

/// Baud up from the fastest standard rate, or from anything faster, does
/// nothing: the command is over, and the line is given no value.
pub proof fn lemma_baud_up_at_top(baud: u32)
    requires
        baud >= BAUDS@[0],
    ensures
        baud_above(baud) is None,
        increased(Reply::Value(Value::Baud(baud))) == TurnView::finished(DispatchResult::Continue),
{
    assert forall|next: u32| !least_above(next, baud) by {
        if is_standard_baud(next) {
            let k = choose|k: int| 0 <= k < BAUDS@.len() && #[trigger] BAUDS@[k] == next;
            lemma_bauds_descend(0, k);
        }
    }
}

/// Baud down from the slowest standard rate, or from anything slower, does
/// nothing: the command is over, and the line is given no value.
pub proof fn lemma_baud_down_at_bottom(baud: u32)
    requires
        baud <= BAUDS@[29],
    ensures
        baud_below(baud) is None,
        decreased(Reply::Value(Value::Baud(baud))) == TurnView::finished(DispatchResult::Continue),
{
    assert forall|next: u32| !greatest_below(next, baud) by {
        if is_standard_baud(next) {
            let k = choose|k: int| 0 <= k < BAUDS@.len() && #[trigger] BAUDS@[k] == next;
            lemma_bauds_descend(k, 29);
        }
    }
}

/// Whatever the line answers, a command leaves the machine in the mode it
/// was in: a failure inside a command does not bring command mode back.
pub proof fn lemma_resumed_keeps_mode(pending: Pending, reply: Reply, state: State)
    ensures
        resumed(pending, reply, state).0.command_mode == state.command_mode,
        resumed(pending, reply, state).0.escape_code == state.escape_code,
        resumed(pending, reply, state).0.noreset == state.noreset,
        resumed(pending, reply, state).0.local_echo == state.local_echo,
{
}

/// A failed answer from the line ends every command that waits for the line
/// with a notice, and the session goes on: no failure of the line inside a
/// command ends the session.
pub proof fn lemma_failure_is_recoverable(pending: Pending, state: State)
    requires
        pending != Pending::BaudEntry,
    ensures
        resumed(pending, Reply::Failed, state).0 == state,
        resumed(pending, Reply::Failed, state).1.effects.len() == 0,
        resumed(pending, Reply::Failed, state).1.progress matches Progress::Finished(
            DispatchResult::Recoverable(_),
        ),
{
}


/// A command gives the line a new value for a setting only in answer to the
/// line's report of that setting: nothing is changed on the strength of what
/// the session remembers. No command begins by changing a setting.
pub proof fn lemma_changes_follow_reads(
    command: Command,
    pending: Pending,
    reply: Reply,
    state: State,
    value: Value,
)
    ensures
        started(command, state).1.progress != Progress::Waiting(Pending::Apply(value)),
        resumed(pending, reply, state).1.progress == Progress::Waiting(Pending::Apply(value))
            ==> (reply matches Reply::Value(current) && current.setting() == value.setting()),
{
}

} // verus!
