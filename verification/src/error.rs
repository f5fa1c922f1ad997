//! What can go wrong with one request.

use vstd::prelude::*;

verus! {

/// Why a request was not carried out. None of these ends a session.
#[derive(Debug, Clone, PartialEq, Eq)]
pub enum SessionError {
    /// The text is not a supported video URL.
    InvalidUrl,
    /// The external tool is missing and could not be installed; `hint`
    /// says how to install it by hand.
    ToolUnavailable { hint: String },
    /// The external tool ran and failed; `diagnostic` is what it wrote to
    /// its standard error, or why it could not be started.
    ExecutionFailed { diagnostic: String },
    /// A `download` command that names no URL.
    UsageError,
}

/// A `SessionError` with its texts as character sequences.
pub enum SessionErrorView {
    InvalidUrl,
    ToolUnavailable { hint: Seq<char> },
    ExecutionFailed { diagnostic: Seq<char> },
    UsageError,
}

impl View for SessionError {
    type V = SessionErrorView;

    open spec fn view(&self) -> SessionErrorView {
        match self {
            SessionError::InvalidUrl => SessionErrorView::InvalidUrl,
            SessionError::ToolUnavailable { hint } => SessionErrorView::ToolUnavailable {
                hint: hint@,
            },
            SessionError::ExecutionFailed { diagnostic } => SessionErrorView::ExecutionFailed {
                diagnostic: diagnostic@,
            },
            SessionError::UsageError => SessionErrorView::UsageError,
        }
    }
}

/// The error in words, as the user is to read it. The texts that an error
/// carries are passed on unchanged.
pub open spec fn message_of(error: SessionErrorView) -> Seq<char> {
    match error {
        SessionErrorView::InvalidUrl => "URL inválida. Por favor, forneça uma URL válida do YouTube."@,
        SessionErrorView::ToolUnavailable { hint } => hint,
        SessionErrorView::ExecutionFailed { diagnostic } => "Erro no download: "@ + diagnostic,
        SessionErrorView::UsageError => "Uso: download <URL> [-a] [-o nome_arquivo]"@,
    }
}

impl SessionError {
    /// The error in words.
    pub fn message(&self) -> (text: String)
        ensures
            text@ == message_of(self@),
    {
        match self {
            SessionError::InvalidUrl => {
                "URL inválida. Por favor, forneça uma URL válida do YouTube.".to_owned()
            },
            SessionError::ToolUnavailable { hint } => hint.clone(),
            SessionError::ExecutionFailed { diagnostic } => {
                "Erro no download: ".to_owned().concat(diagnostic.as_str())
            },
            SessionError::UsageError => "Uso: download <URL> [-a] [-o nome_arquivo]".to_owned(),
        }
    }
}

} // verus!
