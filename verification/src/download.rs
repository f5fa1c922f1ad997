//! One download, carried through the external tool.
//!
//! The library never runs a process. It says which process is to be run
//! next, is told how that process ended, and decides what follows: another
//! process, or the end of the call with its result.

use crate::command::{DownloadRequest, DownloadRequestView};
use crate::error::{SessionError, SessionErrorView};
use crate::url::{is_youtube_url, supported_url};
use vstd::prelude::*;

verus! {

/// A process to run: the program and its arguments, in order.
#[derive(Debug, Clone, PartialEq, Eq)]
pub struct Invocation {
    pub program: String,
    pub args: Vec<String>,
}

/// An `Invocation` with its texts as character sequences.
pub struct InvocationView {
    pub program: Seq<char>,
    pub args: Seq<Seq<char>>,
}

impl View for Invocation {
    type V = InvocationView;

    open spec fn view(&self) -> InvocationView {
        InvocationView { program: self.program@, args: self.args.deep_view() }
    }
}

/// How a process ended.
#[derive(Debug, Clone, PartialEq, Eq)]
pub enum ProcessEvent {
    /// It could not be started; `reason` says why.
    NotStarted { reason: String },
    /// It ran to its end. `success` is its exit status; the two texts are
    /// what it wrote.
    Exited { success: bool, stdout: String, stderr: String },
}

/// A `ProcessEvent` with its texts as character sequences.
pub enum ProcessEventView {
    NotStarted { reason: Seq<char> },
    Exited { success: bool, stdout: Seq<char>, stderr: Seq<char> },
}

impl View for ProcessEvent {
    type V = ProcessEventView;

    open spec fn view(&self) -> ProcessEventView {
        match self {
            ProcessEvent::NotStarted { reason } => ProcessEventView::NotStarted { reason: reason@ },
            ProcessEvent::Exited { success, stdout, stderr } => ProcessEventView::Exited {
                success: *success,
                stdout: stdout@,
                stderr: stderr@,
            },
        }
    }
}

/// A download that went through. `output` is what the tool printed, if it
/// printed anything.
#[derive(Debug, Clone, PartialEq, Eq)]
pub struct Completed {
    pub output: Option<String>,
}

/// A `Completed` with its text as a character sequence.
pub struct CompletedView {
    pub output: Option<Seq<char>>,
}

impl View for Completed {
    type V = CompletedView;

    open spec fn view(&self) -> CompletedView {
        CompletedView {
            output: match self.output {
                Some(text) => Some(text@),
                None => None,
            },
        }
    }
}

/// Which process an orchestration call is waiting for.
#[derive(Debug, Clone, Copy, PartialEq, Eq)]
pub enum Stage {
    /// The query that shows whether the tool is there.
    Probing,
    /// The one attempt to install the tool.
    Installing,
    /// The download itself.
    Downloading,
}

/// The query that shows whether the tool is there.
pub open spec fn probe_invocation() -> InvocationView {
    InvocationView { program: "yt-dlp"@, args: seq!["--version"@] }
}

/// The one attempt to install the tool.
pub open spec fn install_invocation() -> InvocationView {
    InvocationView { program: "pip3"@, args: seq!["install"@, "yt-dlp"@] }
}

/// What to tell the user when the installation did not go through:
/// `started` says whether the installer could be started at all. Either
/// way the hint ends with the command that installs the tool by hand.
pub open spec fn install_hint(started: bool) -> Seq<char> {
    if started {
        "Falha ao instalar yt-dlp. Por favor, instale manualmente: pip3 install yt-dlp"@
    } else {
        "Não foi possível instalar yt-dlp automaticamente. Por favor, instale manualmente: pip3 install yt-dlp"@
    }
}

/// The name pattern of the file to write; the tool fills in the extension.
pub open spec fn output_template(output_name: Seq<char>) -> Seq<char> {
    output_name + ".%(ext)s"@
}

/// The arguments of the download: for the sound track, extraction as MP3 at
/// 192K; for the video, the best format of at most 720 lines. Then the
/// output template, and the URL last.
pub open spec fn download_arguments(request: DownloadRequestView) -> Seq<Seq<char>> {
    if request.audio_only {
        seq![
            "--extract-audio"@,
            "--audio-format"@,
            "mp3"@,
            "--audio-quality"@,
            "192K"@,
            "-o"@,
            output_template(request.output_name),
            request.url,
        ]
    } else {
        seq!["-f"@, "best[height<=720]"@, "-o"@, output_template(request.output_name), request.url]
    }
}

/// The download itself.
pub open spec fn download_invocation(request: DownloadRequestView) -> InvocationView {
    InvocationView { program: "yt-dlp"@, args: download_arguments(request) }
}

/// The process that belongs to a stage.
pub open spec fn invocation_at(request: DownloadRequestView, stage: Stage) -> InvocationView {
    match stage {
        Stage::Probing => probe_invocation(),
        Stage::Installing => install_invocation(),
        Stage::Downloading => download_invocation(request),
    }
}

/// Where an orchestration call stands: it waits for a process, or it has
/// ended with a result.
pub enum StepView {
    Run { request: DownloadRequestView, stage: Stage },
    Done(Result<CompletedView, SessionErrorView>),
}

/// How an orchestration call begins: an unsupported URL ends it at once;
/// any other makes it probe for the tool.
pub open spec fn first_step(request: DownloadRequestView) -> StepView {
    if supported_url(request.url) {
        StepView::Run { request, stage: Stage::Probing }
    } else {
        StepView::Done(Err(SessionErrorView::InvalidUrl))
    }
}

/// How an orchestration call goes on when the process of `stage` has ended
/// with `event`.
///
/// A probe that started shows the tool, whatever its exit status; one that
/// did not start leads to the installation. An installation that did not
/// start, or failed, ends the call. A download that failed ends it with
/// what the tool wrote to its standard error; one that did not start, with
/// the reason.
pub open spec fn next_step(
    request: DownloadRequestView,
    stage: Stage,
    event: ProcessEventView,
) -> StepView {
    match stage {
        Stage::Probing => match event {
            ProcessEventView::NotStarted { .. } => StepView::Run { request, stage: Stage::Installing },
            ProcessEventView::Exited { .. } => StepView::Run { request, stage: Stage::Downloading },
        },
        Stage::Installing => match event {
            ProcessEventView::NotStarted { .. } => StepView::Done(
                Err(SessionErrorView::ToolUnavailable { hint: install_hint(false) }),
            ),
            ProcessEventView::Exited { success, .. } => if success {
                StepView::Run { request, stage: Stage::Downloading }
            } else {
                StepView::Done(Err(SessionErrorView::ToolUnavailable { hint: install_hint(true) }))
            },
        },
        Stage::Downloading => match event {
            ProcessEventView::NotStarted { reason } => StepView::Done(
                Err(SessionErrorView::ExecutionFailed { diagnostic: reason }),
            ),
            ProcessEventView::Exited { success, stdout, stderr } => if success {
                StepView::Done(
                    Ok(CompletedView { output: if stdout.len() > 0 { Some(stdout) } else { None } }),
                )
            } else {
                StepView::Done(Err(SessionErrorView::ExecutionFailed { diagnostic: stderr }))
            },
        },
    }
}

/// Where a call for `request` stands once the processes it asked for have
/// ended with `events`, in this order. A call that has ended reads no
/// further event.
pub open spec fn step_after(request: DownloadRequestView, events: Seq<ProcessEventView>) -> StepView
    decreases events.len(),
{
    if events.len() == 0 {
        first_step(request)
    } else {
        match step_after(request, events.drop_last()) {
            StepView::Run { request, stage } => next_step(request, stage, events.last()),
            StepView::Done(result) => StepView::Done(result),
        }
    }
}

/// A call for an unsupported URL has ended with `InvalidUrl` before any
/// process: whatever the outside would answer, it is never asked.
pub proof fn lemma_unsupported_url_runs_nothing(
    request: DownloadRequestView,
    events: Seq<ProcessEventView>,
)
    requires
        !supported_url(request.url),
    ensures
        step_after(request, events) == StepView::Done(Err(SessionErrorView::InvalidUrl)),
    decreases events.len(),
{
    if events.len() > 0 {
        lemma_unsupported_url_runs_nothing(request, events.drop_last());
    }
}

/// A call that waits for a process waits on behalf of the request it began
/// with, whose URL is supported; which process it is follows from how many
/// have ended: first the probe, last the download.
pub proof fn lemma_waiting_call(request: DownloadRequestView, events: Seq<ProcessEventView>)
    requires
        step_after(request, events) is Run,
    ensures
        supported_url(request.url),
        step_after(request, events)->Run_request == request,
        events.len() <= 2,
        events.len() == 0 <==> step_after(request, events)->Run_stage == Stage::Probing,
        events.len() == 2 ==> step_after(request, events)->Run_stage == Stage::Downloading,
    decreases events.len(),
{
    if events.len() > 0 {
        lemma_waiting_call(request, events.drop_last());
    }
}

/// A call asks for three processes at most: the probe, one installation,
/// one download. Nothing is tried twice.
pub proof fn lemma_call_ends(request: DownloadRequestView, events: Seq<ProcessEventView>)
    requires
        events.len() >= 3,
    ensures
        step_after(request, events) is Done,
    decreases events.len(),
{
    if step_after(request, events.drop_last()) is Run {
        lemma_waiting_call(request, events.drop_last());
    }
}

/// A call succeeds only when the last process it asked for was the
/// download and exited with success.
pub proof fn lemma_success_is_exit_status(
    request: DownloadRequestView,
    events: Seq<ProcessEventView>,
)
    requires
        events.len() > 0,
        step_after(request, events.drop_last()) is Run,
        step_after(request, events) matches StepView::Done(Ok(_)),
    ensures
        step_after(request, events.drop_last())->Run_stage == Stage::Downloading,
        events.last() matches ProcessEventView::Exited { success: true, .. },
{
}

/// In either mode the URL is the last argument, behind the output
/// template and its flag.
pub proof fn lemma_url_is_last_argument(request: DownloadRequestView)
    ensures
        ({
            let args = download_arguments(request);
            &&& args.len() >= 3
            &&& args[args.len() - 1] == request.url
            &&& args[args.len() - 2] == output_template(request.output_name)
            &&& args[args.len() - 3] == "-o"@
        }),
{
}

/// An orchestration call that waits for a process to end. There is one
/// only for a supported URL.
pub struct Orchestration {
    request: DownloadRequest,
    stage: Stage,
}

/// An `Orchestration` as its request and stage.
pub struct OrchestrationView {
    pub request: DownloadRequestView,
    pub stage: Stage,
}

impl View for Orchestration {
    type V = OrchestrationView;

    closed spec fn view(&self) -> OrchestrationView {
        OrchestrationView { request: self.request@, stage: self.stage }
    }
}

/// Where an orchestration call stands.
pub enum Step {
    /// Run the process that `invocation` gives, then `advance` with how it
    /// ended.
    Run(Orchestration),
    /// The call has ended.
    Done(Result<Completed, SessionError>),
}

impl View for Step {
    type V = StepView;

    open spec fn view(&self) -> StepView {
        match self {
            Step::Run(call) => StepView::Run { request: call@.request, stage: call@.stage },
            Step::Done(Ok(completed)) => StepView::Done(Ok(completed@)),
            Step::Done(Err(error)) => StepView::Done(Err(error@)),
        }
    }
}

/// The arguments of the download that `request` asks for.
pub fn build_download_arguments(request: &DownloadRequest) -> (args: Vec<String>)
    ensures
        args.deep_view() == download_arguments(request@),
{
    let template = request.output_name.clone().concat(".%(ext)s");
    let mut args: Vec<String> = Vec::new();
    if request.audio_only {
        args.push("--extract-audio".to_owned());
        args.push("--audio-format".to_owned());
        args.push("mp3".to_owned());
        args.push("--audio-quality".to_owned());
        args.push("192K".to_owned());
    } else {
        args.push("-f".to_owned());
        args.push("best[height<=720]".to_owned());
    }
    args.push("-o".to_owned());
    args.push(template);
    args.push(request.url.clone());
    assert(args.deep_view() =~= download_arguments(request@));
    args
}

/// What to tell the user when the installation did not go through.
fn build_install_hint(started: bool) -> (hint: String)
    ensures
        hint@ == install_hint(started),
{
    if started {
        "Falha ao instalar yt-dlp. Por favor, instale manualmente: pip3 install yt-dlp".to_owned()
    } else {
        "Não foi possível instalar yt-dlp automaticamente. Por favor, instale manualmente: pip3 install yt-dlp".to_owned()
    }
}

impl Orchestration {
    #[verifier::type_invariant]
    spec fn url_is_supported(self) -> bool {
        supported_url(self.request.url@)
    }

    /// Begins an orchestration call. The URL is tested before anything
    /// else: for an unsupported one the call ends here, and no process is
    /// ever asked for.
    pub fn start(request: DownloadRequest) -> (step: Step)
        ensures
            step@ == first_step(request@),
    {
        if is_youtube_url(request.url.as_str()) {
            Step::Run(Orchestration { request, stage: Stage::Probing })
        } else {
            Step::Done(Err(SessionError::InvalidUrl))
        }
    }

    /// The stage that the call is in.
    pub fn stage(&self) -> (stage: Stage)
        ensures
            stage == self@.stage,
    {
        self.stage
    }

    /// The process to run now. Its request has a supported URL.
    pub fn invocation(&self) -> (r: Invocation)
        ensures
            r@ == invocation_at(self@.request, self@.stage),
            supported_url(self@.request.url),
    {
        proof {
            use_type_invariant(self);
        }
        match self.stage {
            Stage::Probing => {
                let mut args: Vec<String> = Vec::new();
                args.push("--version".to_owned());
                assert(args.deep_view() =~= probe_invocation().args);
                Invocation { program: "yt-dlp".to_owned(), args }
            },
            Stage::Installing => {
                let mut args: Vec<String> = Vec::new();
                args.push("install".to_owned());
                args.push("yt-dlp".to_owned());
                assert(args.deep_view() =~= install_invocation().args);
                Invocation { program: "pip3".to_owned(), args }
            },
            Stage::Downloading => Invocation {
                program: "yt-dlp".to_owned(),
                args: build_download_arguments(&self.request),
            },
        }
    }

    /// Goes on with the call, given how the process of its stage ended.
    pub fn advance(self, event: ProcessEvent) -> (step: Step)
        ensures
            step@ == next_step(self@.request, self@.stage, event@),
    {
        proof {
            use_type_invariant(&self);
        }
        match self.stage {
            Stage::Probing => match event {
                ProcessEvent::NotStarted { .. } => Step::Run(
                    Orchestration { request: self.request, stage: Stage::Installing },
                ),
                ProcessEvent::Exited { .. } => Step::Run(
                    Orchestration { request: self.request, stage: Stage::Downloading },
                ),
            },
            Stage::Installing => match event {
                ProcessEvent::NotStarted { .. } => Step::Done(
                    Err(SessionError::ToolUnavailable { hint: build_install_hint(false) }),
                ),
                ProcessEvent::Exited { success, .. } => {
                    if success {
                        Step::Run(Orchestration { request: self.request, stage: Stage::Downloading })
                    } else {
                        Step::Done(
                            Err(SessionError::ToolUnavailable { hint: build_install_hint(true) }),
                        )
                    }
                },
            },
            Stage::Downloading => match event {
                ProcessEvent::NotStarted { reason } => Step::Done(
                    Err(SessionError::ExecutionFailed { diagnostic: reason }),
                ),
                ProcessEvent::Exited { success, stdout, stderr } => {
                    if success {
                        let output = if stdout.as_str().is_empty() {
                            None
                        } else {
                            Some(stdout)
                        };
                        Step::Done(Ok(Completed { output }))
                    } else {
                        Step::Done(Err(SessionError::ExecutionFailed { diagnostic: stderr }))
                    }
                },
            },
        }
    }
}

} // verus!
