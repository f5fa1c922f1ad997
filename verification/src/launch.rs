//! How a run of the program begins: in the interactive loop, with one
//! download, or with nothing to do.

use crate::command::{DownloadRequest, DownloadRequestView};
use vstd::prelude::*;

verus! {

/// What the command line said.
#[derive(Debug, Clone, PartialEq, Eq)]
pub struct Arguments {
    /// The URL, if one was given.
    pub url: Option<String>,
    /// The output name; the command line defaults it to `video`.
    pub output: String,
    /// Whether only the sound track is wanted.
    pub audio_only: bool,
    /// Whether the interactive loop was asked for.
    pub interactive: bool,
}

/// `Arguments` with their texts as character sequences.
pub struct ArgumentsView {
    pub url: Option<Seq<char>>,
    pub output: Seq<char>,
    pub audio_only: bool,
    pub interactive: bool,
}

impl View for Arguments {
    type V = ArgumentsView;

    open spec fn view(&self) -> ArgumentsView {
        ArgumentsView {
            url: match self.url {
                Some(url) => Some(url@),
                None => None,
            },
            output: self.output@,
            audio_only: self.audio_only,
            interactive: self.interactive,
        }
    }
}

/// What a run of the program does.
#[derive(Debug, Clone, PartialEq, Eq)]
pub enum Mode {
    /// It reads commands until it is told to leave.
    Interactive,
    /// It makes one orchestration call and reports how it ended.
    Single(DownloadRequest),
    /// It reports that a URL is needed, and downloads nothing.
    MissingUrl,
}

/// A `Mode` with its texts as character sequences.
pub enum ModeView {
    Interactive,
    Single(DownloadRequestView),
    MissingUrl,
}

impl View for Mode {
    type V = ModeView;

    open spec fn view(&self) -> ModeView {
        match self {
            Mode::Interactive => ModeView::Interactive,
            Mode::Single(request) => ModeView::Single(request@),
            Mode::MissingUrl => ModeView::MissingUrl,
        }
    }
}

/// The mode that the arguments ask for. The interactive flag comes first:
/// with it, the other arguments are not looked at.
pub open spec fn chosen_mode(arguments: ArgumentsView) -> ModeView {
    if arguments.interactive {
        ModeView::Interactive
    } else {
        match arguments.url {
            Some(url) => ModeView::Single(
                DownloadRequestView {
                    url,
                    output_name: arguments.output,
                    audio_only: arguments.audio_only,
                },
            ),
            None => ModeView::MissingUrl,
        }
    }
}

/// Decides what a run of the program does.
pub fn mode_of(arguments: Arguments) -> (mode: Mode)
    ensures
        mode@ == chosen_mode(arguments@),
{
    if arguments.interactive {
        return Mode::Interactive;
    }
    match arguments.url {
        Some(url) => Mode::Single(
            DownloadRequest {
                url,
                output_name: arguments.output,
                audio_only: arguments.audio_only,
            },
        ),
        None => Mode::MissingUrl,
    }
}

} // verus!
