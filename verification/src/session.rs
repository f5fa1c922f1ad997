//! An interactive session: its count of downloads, and what each piece of
//! input leads to.
//!
//! The library reads no terminal. It is handed what the line editor came
//! back with, and answers with the next state of the loop and with what is
//! to be done.

use crate::command::{
    default_request, lemma_bare_download_is_usage_error, lemma_usage_error_on_trimmed_line, parse,
    parsed, Command, CommandView, DownloadRequest, DownloadRequestView,
};
use crate::download::Completed;
use crate::error::{SessionError, SessionErrorView};
use crate::text::{lemma_trimmed_ends, trim, trimmed};
use vstd::prelude::*;

verus! {

/// The count after one more orchestration call: one more if the call
/// succeeded, the same if it failed.
pub open spec fn recorded(completed: nat, succeeded: bool) -> nat {
    if succeeded {
        completed + 1
    } else {
        completed
    }
}

/// What one interactive run remembers: how many downloads succeeded.
#[derive(Debug)]
pub struct Session {
    downloads_completed: u64,
}

impl Session {
    /// The number of downloads that succeeded so far.
    pub closed spec fn completed(&self) -> u64 {
        self.downloads_completed
    }

    /// A session in which nothing was downloaded yet.
    pub fn new() -> (session: Session)
        ensures
            session.completed() == 0,
    {
        Session { downloads_completed: 0 }
    }

    /// The number of downloads that succeeded so far.
    pub fn downloads_completed(&self) -> (n: u64)
        ensures
            n == self.completed(),
    {
        self.downloads_completed
    }

    /// Takes note of how an orchestration call ended.
    pub fn record(&mut self, outcome: &Result<Completed, SessionError>)
        requires
            outcome is Ok ==> old(self).completed() < u64::MAX,
        ensures
            final(self).completed() == recorded(old(self).completed() as nat, outcome is Ok),
    {
        if outcome.is_ok() {
            self.downloads_completed = self.downloads_completed + 1;
        }
    }
}

/// The count after a run of orchestration calls, one entry of `outcomes`
/// for each call in the order in which they ended: whether it succeeded.
pub open spec fn count_after(start: nat, outcomes: Seq<bool>) -> nat
    decreases outcomes.len(),
{
    if outcomes.len() == 0 {
        start
    } else {
        count_after(recorded(start, outcomes.first()), outcomes.drop_first())
    }
}

/// The count grows by the number of calls that succeeded, and by nothing
/// else.
pub proof fn lemma_count_is_successes(start: nat, outcomes: Seq<bool>)
    ensures
        count_after(start, outcomes) == start + outcomes.to_multiset().count(true),
    decreases outcomes.len(),
{
    if outcomes.len() > 0 {
        let rest = outcomes.drop_first();
        lemma_count_is_successes(recorded(start, outcomes.first()), rest);
        assert(outcomes =~= rest.insert(0, outcomes.first()));
        vstd::seq_lib::to_multiset_insert(rest, 0, outcomes.first());
    } else {
        outcomes.to_multiset_ensures();
        assert(!outcomes.contains(true));
    }
}

/// The order in which successes and failures come does not matter to the
/// count.
pub proof fn lemma_count_ignores_order(start: nat, outcomes: Seq<bool>, reordered: Seq<bool>)
    requires
        outcomes.to_multiset() == reordered.to_multiset(),
    ensures
        count_after(start, outcomes) == count_after(start, reordered),
{
    lemma_count_is_successes(start, outcomes);
    lemma_count_is_successes(start, reordered);
}

/// The count never goes down.
pub proof fn lemma_count_only_grows(start: nat, outcomes: Seq<bool>)
    ensures
        count_after(start, outcomes) >= start,
{
    lemma_count_is_successes(start, outcomes);
}

/// Whether the loop still reads input.
#[derive(Debug, Clone, Copy, PartialEq, Eq)]
pub enum LoopState {
    Running,
    Terminated,
}

/// The exit code of the process: none while the loop runs; success once it
/// has ended.
pub open spec fn exit_code_of(state: LoopState) -> Option<i32> {
    match state {
        LoopState::Running => None,
        LoopState::Terminated => Some(0i32),
    }
}

impl LoopState {
    /// The exit code of the process, once the loop has ended.
    pub fn exit_code(self) -> (code: Option<i32>)
        ensures
            code == exit_code_of(self),
    {
        match self {
            LoopState::Running => None,
            LoopState::Terminated => Some(0),
        }
    }
}

/// What the line editor came back with.
#[derive(Debug, Clone, PartialEq, Eq)]
pub enum Input {
    /// A line, as it was typed.
    Line(String),
    /// The user interrupted the prompt.
    Interrupted,
    /// The input has ended.
    EndOfInput,
    /// Reading failed; `message` says how.
    ReadFailure { message: String },
}

/// An `Input` with its texts as character sequences.
pub enum InputView {
    Line(Seq<char>),
    Interrupted,
    EndOfInput,
    ReadFailure { message: Seq<char> },
}

impl View for Input {
    type V = InputView;

    open spec fn view(&self) -> InputView {
        match self {
            Input::Line(text) => InputView::Line(text@),
            Input::Interrupted => InputView::Interrupted,
            Input::EndOfInput => InputView::EndOfInput,
            Input::ReadFailure { message } => InputView::ReadFailure { message: message@ },
        }
    }
}

/// What is to be done in answer to a piece of input.
#[derive(Debug, Clone, PartialEq, Eq)]
pub enum Effect {
    /// Nothing.
    Nothing,
    /// Say goodbye; `total` is the session's count where it is not zero.
    Farewell { total: Option<u64> },
    ShowHelp,
    ClearScreen,
    /// Show the session's count.
    ShowStats { downloads: u64 },
    ShowDemo,
    /// Run one orchestration call for `request`, and let the session
    /// `record` how it ended. `direct` says that the line was a bare URL.
    Download { request: DownloadRequest, direct: bool },
    /// Report the error; the loop goes on.
    Report(SessionError),
    /// Report that the line was not understood.
    ReportUnknown { text: String },
    /// Report the interrupt; the loop goes on.
    ReportInterrupt,
    /// Report that the input has ended.
    ReportEndOfInput,
    /// Report that reading failed.
    ReportReadFailure { message: String },
}

/// An `Effect` with its texts as character sequences.
pub enum EffectView {
    Nothing,
    Farewell { total: Option<u64> },
    ShowHelp,
    ClearScreen,
    ShowStats { downloads: u64 },
    ShowDemo,
    Download { request: DownloadRequestView, direct: bool },
    Report(SessionErrorView),
    ReportUnknown { text: Seq<char> },
    ReportInterrupt,
    ReportEndOfInput,
    ReportReadFailure { message: Seq<char> },
}

impl View for Effect {
    type V = EffectView;

    open spec fn view(&self) -> EffectView {
        match self {
            Effect::Nothing => EffectView::Nothing,
            Effect::Farewell { total } => EffectView::Farewell { total: *total },
            Effect::ShowHelp => EffectView::ShowHelp,
            Effect::ClearScreen => EffectView::ClearScreen,
            Effect::ShowStats { downloads } => EffectView::ShowStats { downloads: *downloads },
            Effect::ShowDemo => EffectView::ShowDemo,
            Effect::Download { request, direct } => EffectView::Download {
                request: request@,
                direct: *direct,
            },
            Effect::Report(error) => EffectView::Report(error@),
            Effect::ReportUnknown { text } => EffectView::ReportUnknown { text: text@ },
            Effect::ReportInterrupt => EffectView::ReportInterrupt,
            Effect::ReportEndOfInput => EffectView::ReportEndOfInput,
            Effect::ReportReadFailure { message } => EffectView::ReportReadFailure {
                message: message@,
            },
        }
    }
}

/// One turn of the loop: the state it leaves the loop in, the line to add
/// to the editor's history, if any, and what is to be done.
#[derive(Debug, Clone, PartialEq, Eq)]
pub struct Turn {
    pub state: LoopState,
    pub history_entry: Option<String>,
    pub effect: Effect,
}

/// A `Turn` with its texts as character sequences.
pub struct TurnView {
    pub state: LoopState,
    pub history_entry: Option<Seq<char>>,
    pub effect: EffectView,
}

impl View for Turn {
    type V = TurnView;

    open spec fn view(&self) -> TurnView {
        TurnView {
            state: self.state,
            history_entry: match self.history_entry {
                Some(line) => Some(line@),
                None => None,
            },
            effect: self.effect@,
        }
    }
}

/// A turn that leaves the loop running and the history as it is.
pub open spec fn passing(effect: EffectView) -> TurnView {
    TurnView { state: LoopState::Running, history_entry: None, effect }
}

/// What a line that is not empty leads to; `line` has no whitespace at
/// either end. Only the exit command ends the loop.
pub open spec fn line_effect(completed: u64, line: Seq<char>) -> (LoopState, EffectView) {
    match parsed(line) {
        Ok(CommandView::Exit) => (
            LoopState::Terminated,
            EffectView::Farewell { total: if completed > 0 { Some(completed) } else { None } },
        ),
        Ok(CommandView::Help) => (LoopState::Running, EffectView::ShowHelp),
        Ok(CommandView::Clear) => (LoopState::Running, EffectView::ClearScreen),
        Ok(CommandView::Stats) => (LoopState::Running, EffectView::ShowStats { downloads: completed }),
        Ok(CommandView::Demo) => (LoopState::Running, EffectView::ShowDemo),
        Ok(CommandView::Download(request)) => (
            LoopState::Running,
            EffectView::Download { request, direct: false },
        ),
        Ok(CommandView::DirectUrl(url)) => (
            LoopState::Running,
            EffectView::Download { request: default_request(url), direct: true },
        ),
        Ok(CommandView::Unknown(text)) => (LoopState::Running, EffectView::ReportUnknown { text }),
        Err(error) => (LoopState::Running, EffectView::Report(error)),
    }
}

/// What a piece of input leads to in a session that has completed
/// `completed` downloads.
///
/// A loop that has ended stays so. A line is trimmed first; an empty one
/// changes nothing, any other goes to the history and is carried out. An
/// interrupt is reported and the loop goes on. The end of the input, and a
/// failure to read, end the loop.
pub open spec fn reaction(state: LoopState, completed: u64, input: InputView) -> TurnView {
    match state {
        LoopState::Terminated => TurnView {
            state: LoopState::Terminated,
            history_entry: None,
            effect: EffectView::Nothing,
        },
        LoopState::Running => match input {
            InputView::Line(raw) => {
                let line = trimmed(raw);
                if line.len() == 0 {
                    passing(EffectView::Nothing)
                } else {
                    TurnView {
                        state: line_effect(completed, line).0,
                        history_entry: Some(line),
                        effect: line_effect(completed, line).1,
                    }
                }
            },
            InputView::Interrupted => passing(EffectView::ReportInterrupt),
            InputView::EndOfInput => TurnView {
                state: LoopState::Terminated,
                history_entry: None,
                effect: EffectView::ReportEndOfInput,
            },
            InputView::ReadFailure { message } => TurnView {
                state: LoopState::Terminated,
                history_entry: None,
                effect: EffectView::ReportReadFailure { message },
            },
        },
    }
}

/// Decides one turn of the loop. The session is read, never changed: its
/// count moves only in `Session::record`.
pub fn react(state: LoopState, session: &Session, input: Input) -> (turn: Turn)
    ensures
        turn@ == reaction(state, session.completed(), input@),
{
    let completed = session.downloads_completed();
    match state {
        LoopState::Terminated => {
            return Turn {
                state: LoopState::Terminated,
                history_entry: None,
                effect: Effect::Nothing,
            };
        },
        LoopState::Running => {},
    }
    match input {
        Input::Line(raw) => {
            let line = trim(raw.as_str());
            if line.is_empty() {
                return Turn {
                    state: LoopState::Running,
                    history_entry: None,
                    effect: Effect::Nothing,
                };
            }
            let (state, effect) = match parse(line) {
                Ok(Command::Exit) => (
                    LoopState::Terminated,
                    Effect::Farewell { total: if completed > 0 { Some(completed) } else { None } },
                ),
                Ok(Command::Help) => (LoopState::Running, Effect::ShowHelp),
                Ok(Command::Clear) => (LoopState::Running, Effect::ClearScreen),
                Ok(Command::Stats) => (LoopState::Running, Effect::ShowStats { downloads: completed }),
                Ok(Command::Demo) => (LoopState::Running, Effect::ShowDemo),
                Ok(Command::Download(request)) => (
                    LoopState::Running,
                    Effect::Download { request, direct: false },
                ),
                Ok(Command::DirectUrl(url)) => (
                    LoopState::Running,
                    Effect::Download { request: DownloadRequest::new(url.as_str()), direct: true },
                ),
                Ok(Command::Unknown(text)) => (LoopState::Running, Effect::ReportUnknown { text }),
                Err(error) => (LoopState::Running, Effect::Report(error)),
            };
            Turn { state, history_entry: Some(line.to_owned()), effect }
        },
        Input::Interrupted => Turn {
            state: LoopState::Running,
            history_entry: None,
            effect: Effect::ReportInterrupt,
        },
        Input::EndOfInput => Turn {
            state: LoopState::Terminated,
            history_entry: None,
            effect: Effect::ReportEndOfInput,
        },
        Input::ReadFailure { message } => Turn {
            state: LoopState::Terminated,
            history_entry: None,
            effect: Effect::ReportReadFailure { message },
        },
    }
}

/// Whether the input makes a running loop ask for a download: a `download`
/// line that names a URL, or a supported URL on a line of its own.
pub open spec fn asks_for_download(input: InputView) -> bool {
    input matches InputView::Line(raw) && trimmed(raw).len() > 0 && (parsed(trimmed(raw))
        matches Ok(command) && (command is Download || command is DirectUrl))
}

/// The count once a turn is over. `succeeded` says how the orchestration
/// call ended that the turn asked for. A turn that asked for none leaves
/// the count, whatever `succeeded` says.
pub open spec fn count_after_turn(
    state: LoopState,
    completed: u64,
    input: InputView,
    succeeded: bool,
) -> nat {
    if reaction(state, completed, input).effect is Download {
        recorded(completed as nat, succeeded)
    } else {
        completed as nat
    }
}

/// A turn raises the count by exactly one where a running loop was asked
/// for a download and the call succeeded. A call that failed, and every
/// other piece of input, leaves the count as it was.
pub proof fn lemma_turn_counts_success(
    state: LoopState,
    completed: u64,
    input: InputView,
    succeeded: bool,
)
    ensures
        count_after_turn(state, completed, input, succeeded) == if state == LoopState::Running
            && asks_for_download(input) && succeeded {
            completed + 1
        } else {
            completed as int
        },
{
}

/// The count after a run of turns in a loop that keeps running: one entry
/// for each piece of input, with how its orchestration call ended, if it
/// asked for one.
pub open spec fn count_after_turns(completed: nat, turns: Seq<(InputView, bool)>) -> nat
    decreases turns.len(),
{
    if turns.len() == 0 {
        completed
    } else {
        let before = count_after_turns(completed, turns.drop_last());
        if asks_for_download(turns.last().0) {
            recorded(before, turns.last().1)
        } else {
            before
        }
    }
}

/// Over a run of turns the count grows by the number of downloads that
/// were asked for and succeeded, in whatever order they came among the
/// failures and the other input.
pub proof fn lemma_turns_count_successes(completed: nat, turns: Seq<(InputView, bool)>)
    ensures
        count_after_turns(completed, turns) == completed + turns.filter(
            |turn: (InputView, bool)| asks_for_download(turn.0) && turn.1,
        ).len(),
    decreases turns.len(),
{
    reveal(Seq::filter);
    if turns.len() > 0 {
        lemma_turns_count_successes(completed, turns.drop_last());
    }
}

/// The exit command ends a running loop, with exit code 0, whatever the
/// session has counted and whatever whitespace stands around the word.
pub proof fn lemma_exit_terminates(completed: u64, raw: Seq<char>)
    requires
        trimmed(raw) == "exit"@ || trimmed(raw) == "quit"@,
    ensures
        reaction(LoopState::Running, completed, InputView::Line(raw)).state == LoopState::Terminated,
        exit_code_of(reaction(LoopState::Running, completed, InputView::Line(raw)).state) == Some(
            0i32,
        ),
{
    reveal_strlit("exit");
    reveal_strlit("quit");
}

/// Nothing but the exit command, the end of the input and a failure to
/// read ends a running loop; an interrupt never does.
pub proof fn lemma_what_terminates(completed: u64, input: InputView)
    ensures
        reaction(LoopState::Running, completed, input).state == LoopState::Terminated <==> (input is EndOfInput
            || input is ReadFailure || (input matches InputView::Line(raw) && (trimmed(raw)
            == "exit"@ || trimmed(raw) == "quit"@))),
{
    reveal_strlit("exit");
    reveal_strlit("quit");
}

/// The line `download` with nothing behind it is reported as a usage
/// error. No download is asked for, and the loop goes on.
pub proof fn lemma_bare_download_is_reported(completed: u64, raw: Seq<char>)
    requires
        trimmed(raw) == "download"@,
    ensures
        reaction(LoopState::Running, completed, InputView::Line(raw)) == (TurnView {
            state: LoopState::Running,
            history_entry: Some("download"@),
            effect: EffectView::Report(SessionErrorView::UsageError),
        }),
{
    reveal_strlit("download");
    lemma_bare_download_is_usage_error();
}

/// The errors that the loop reports before any download is tried are the
/// usage errors, and they come from the line `download` alone.
pub proof fn lemma_what_is_reported(state: LoopState, completed: u64, input: InputView)
    ensures
        reaction(state, completed, input).effect is Report <==> (state == LoopState::Running && (
        input matches InputView::Line(raw) && trimmed(raw) == "download"@)),
        reaction(state, completed, input).effect is Report ==> reaction(
            state,
            completed,
            input,
        ).effect == EffectView::Report(SessionErrorView::UsageError),
{
    reveal_strlit("download");
    if let InputView::Line(raw) = input {
        lemma_trimmed_ends(raw);
        lemma_usage_error_on_trimmed_line(trimmed(raw));
    }
}

/// A loop that has ended stays ended and asks for nothing.
pub proof fn lemma_terminated_is_final(completed: u64, input: InputView)
    ensures
        reaction(LoopState::Terminated, completed, input) == (TurnView {
            state: LoopState::Terminated,
            history_entry: None,
            effect: EffectView::Nothing,
        }),
{
}

} // verus!
