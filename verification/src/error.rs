//! The failures that the dispatcher reports.

use vstd::prelude::*;

verus! {

/// Why an invocation failed.
#[derive(Debug, Clone, PartialEq, Eq)]
pub enum AppError {
    /// The command line names no command, or more than one.
    Validation,
    /// The store failed; the text is the store's own message.
    Store(String),
}

/// What an [`AppError`] holds, as mathematical values.
pub enum AppErrorView {
    Validation,
    Store(Seq<char>),
}

impl View for AppError {
    type V = AppErrorView;

    open spec fn view(&self) -> AppErrorView {
        match self {
            AppError::Validation => AppErrorView::Validation,
            AppError::Store(reason) => AppErrorView::Store(reason@),
        }
    }
}

/// The message shown for an error: a fixed text for a command line that is
/// not valid, and the store's message behind a fixed prefix for a failure of
/// the store.
pub open spec fn message_text(error: AppErrorView) -> Seq<char> {
    match error {
        AppErrorView::Validation => "Phrase is required."@,
        AppErrorView::Store(reason) => "Something went wrong: "@ + reason,
    }
}

impl AppError {
    /// The message to show to the user.
    pub fn message(&self) -> (text: String)
        ensures
            text@ == message_text(self@),
    {
        match self {
            AppError::Validation => "Phrase is required.".to_owned(),
            AppError::Store(reason) => {
                let mut text = "Something went wrong: ".to_owned();
                text.append(reason.as_str());
                text
            },
        }
    }
}

} // verus!
