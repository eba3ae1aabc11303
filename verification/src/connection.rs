//! The connection to the store: which file it names, and how opening it
//! went.
//!
//! Construction and opening are two phases. Construction only decides which
//! file the connection names. Opening is done by whoever owns the engine;
//! [`Connection::connect`] records how it went, so a failure to open is a
//! value that the caller handles as it sees fit, and never a crash.

use vstd::prelude::*;

verus! {

/// Why a connection could not be opened.
#[derive(Debug, Clone, PartialEq, Eq)]
pub enum ConnectionError {
    /// The path holds a NUL character, so it names no file.
    InvalidPath,
    /// The engine did not open the file; the text is the engine's message.
    Rejected(String),
}

/// What a [`ConnectionError`] holds, as mathematical values.
pub enum ConnectionErrorView {
    InvalidPath,
    Rejected(Seq<char>),
}

impl View for ConnectionError {
    type V = ConnectionErrorView;

    open spec fn view(&self) -> ConnectionErrorView {
        match self {
            ConnectionError::InvalidPath => ConnectionErrorView::InvalidPath,
            ConnectionError::Rejected(reason) => ConnectionErrorView::Rejected(reason@),
        }
    }
}

/// The message of a connection error.
pub open spec fn connection_error_text(error: ConnectionErrorView) -> Seq<char> {
    match error {
        ConnectionErrorView::InvalidPath => "the path holds a NUL character"@,
        ConnectionErrorView::Rejected(reason) => reason,
    }
}

impl ConnectionError {
    /// The message of the error.
    pub fn message(&self) -> (text: String)
        ensures
            text@ == connection_error_text(self@),
    {
        match self {
            ConnectionError::InvalidPath => "the path holds a NUL character".to_owned(),
            ConnectionError::Rejected(reason) => reason.clone(),
        }
    }
}

/// How far a connection has come.
#[derive(Debug, Clone, PartialEq, Eq)]
pub enum ConnectionState {
    /// Opening was not tried yet.
    Idle,
    /// The file is open.
    Open,
    /// Opening failed.
    Failed(ConnectionError),
}

/// What a [`ConnectionState`] holds, as mathematical values.
pub enum ConnectionStateView {
    Idle,
    Open,
    Failed(ConnectionErrorView),
}

impl View for ConnectionState {
    type V = ConnectionStateView;

    open spec fn view(&self) -> ConnectionStateView {
        match self {
            ConnectionState::Idle => ConnectionStateView::Idle,
            ConnectionState::Open => ConnectionStateView::Open,
            ConnectionState::Failed(error) => ConnectionStateView::Failed(error@),
        }
    }
}

/// A connection to the store file.
#[derive(Debug, Clone, PartialEq, Eq)]
pub struct Connection {
    pub file: String,
    pub state: ConnectionState,
}

/// Whether a path holds a NUL character.
pub open spec fn has_nul(path: Seq<char>) -> bool {
    exists|i: int| 0 <= i < path.len() && path[i] == '\0'
}

/// The file that a connection names: the one given, or the configured one
/// where none is given.
pub open spec fn chosen_file(file: Option<&str>, configured: &str) -> Seq<char> {
    match file {
        Some(name) => name@,
        None => configured@,
    }
}

/// The state after an attempt to open `path`, given the engine's answer. A
/// path with a NUL character counts as failed whatever the engine said.
pub open spec fn state_after(path: Seq<char>, outcome: Result<(), String>) -> ConnectionStateView {
    if has_nul(path) {
        ConnectionStateView::Failed(ConnectionErrorView::InvalidPath)
    } else {
        match outcome {
            Ok(_) => ConnectionStateView::Open,
            Err(reason) => ConnectionStateView::Failed(ConnectionErrorView::Rejected(reason@)),
        }
    }
}

/// The line that reports a failure to open.
pub open spec fn notice_text(error: ConnectionErrorView) -> Seq<char> {
    "Connection Error: "@ + connection_error_text(error)
}

/// Whether a path holds a NUL character.
pub fn contains_nul(path: &str) -> (found: bool)
    ensures
        found == has_nul(path@),
{
    let len = path.unicode_len();
    let mut i: usize = 0;
    while i < len
        invariant
            len == path@.len(),
            i <= len,
            forall|k: int| 0 <= k < i ==> path@[k] != '\0',
        decreases len - i,
    {
        if path.get_char(i) == '\0' {
            return true;
        }
        i += 1;
    }
    false
}

impl Connection {
    /// A connection that names `file`, or the configured file where `file`
    /// is `None`. Nothing is opened yet.
    pub fn new(file: Option<&str>, configured: &str) -> (connection: Connection)
        ensures
            connection.file@ == chosen_file(file, configured),
            connection.state@ == ConnectionStateView::Idle,
    {
        let name = match file {
            Some(name) => name.to_owned(),
            None => configured.to_owned(),
        };
        Connection { file: name, state: ConnectionState::Idle }
    }

    /// Records how opening the file went. `outcome` is the engine's answer:
    /// `Ok` where it opened the file, else its message. The connection keeps
    /// its file; its state becomes [`state_after`], and the result is the
    /// error of a failed state.
    pub fn connect(&mut self, outcome: Result<(), String>) -> (result: Result<(), ConnectionError>)
        ensures
            final(self).file == old(self).file,
            final(self).state@ == state_after(old(self).file@, outcome),
            match result {
                Ok(_) => final(self).state@ == ConnectionStateView::Open,
                Err(error) => final(self).state@ == ConnectionStateView::Failed(error@),
            },
    {
        if contains_nul(self.file.as_str()) {
            self.state = ConnectionState::Failed(ConnectionError::InvalidPath);
            Err(ConnectionError::InvalidPath)
        } else {
            match outcome {
                Ok(_) => {
                    self.state = ConnectionState::Open;
                    Ok(())
                },
                Err(reason) => {
                    self.state = ConnectionState::Failed(ConnectionError::Rejected(reason.clone()));
                    Err(ConnectionError::Rejected(reason))
                },
            }
        }
    }

    /// The line that reports a failed attempt to open, where the last
    /// attempt failed.
    pub fn notice(&self) -> (line: Option<String>)
        ensures
            match line {
                Some(text) => self.state@ matches ConnectionStateView::Failed(error)
                    && text@ == notice_text(error),
                None => !(self.state@ is Failed),
            },
    {
        match &self.state {
            ConnectionState::Failed(error) => {
                let mut text = "Connection Error: ".to_owned();
                let reason = error.message();
                text.append(reason.as_str());
                Some(text)
            },
            _ => None,
        }
    }
}

} // verus!
