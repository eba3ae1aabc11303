//! The parsed command line and the command it stands for.

use vstd::prelude::*;
use vstd::std_specs::cmp::PartialEqSpecImpl;
use crate::error::AppError;
use crate::models::{copy_opt_text, opt_text};

verus! {

/// The command line after parsing: an optional phrase to add, an optional
/// example for it, the list flag, and an optional phrase to destroy.
#[derive(Debug, Clone)]
pub struct Cli {
    pub phrase: Option<String>,
    pub example: Option<String>,
    pub list: bool,
    pub destroy: Option<String>,
}

/// What a [`Cli`] holds, as mathematical values.
pub struct CliView {
    pub phrase: Option<Seq<char>>,
    pub example: Option<Seq<char>>,
    pub list: bool,
    pub destroy: Option<Seq<char>>,
}

impl View for Cli {
    type V = CliView;

    open spec fn view(&self) -> CliView {
        CliView {
            phrase: opt_text(self.phrase),
            example: opt_text(self.example),
            list: self.list,
            destroy: opt_text(self.destroy),
        }
    }
}

/// Whether two optional strings hold the same text, or both hold none.
fn same_opt_text(left: &Option<String>, right: &Option<String>) -> (same: bool)
    ensures
        same == (opt_text(*left) == opt_text(*right)),
{
    match (left, right) {
        (Some(a), Some(b)) => *a == *b,
        (None, None) => true,
        _ => false,
    }
}

impl PartialEq for Cli {
    /// Two command lines are equal when they agree on the phrase, the
    /// example and the list flag; the phrase to destroy is not compared.
    fn eq(&self, other: &Cli) -> (equal: bool) {
        same_opt_text(&self.phrase, &other.phrase) && same_opt_text(&self.example, &other.example)
            && self.list == other.list
    }
}

impl PartialEqSpecImpl for Cli {
    open spec fn obeys_eq_spec() -> bool {
        true
    }

    open spec fn eq_spec(&self, other: &Cli) -> bool {
        &&& self@.phrase == other@.phrase
        &&& self@.example == other@.example
        &&& self@.list == other@.list
    }
}

/// What one invocation asks for.
#[derive(Debug, Clone, PartialEq, Eq)]
pub enum Command {
    /// Store a phrase, with its example if there is one.
    Add { phrase: String, example: Option<String> },
    /// List every stored idiom.
    List,
    /// Remove the rows with the given phrase.
    Destroy { phrase: String },
}

/// What a [`Command`] holds, as mathematical values.
pub enum CommandView {
    Add { phrase: Seq<char>, example: Option<Seq<char>> },
    List,
    Destroy { phrase: Seq<char> },
}

impl View for Command {
    type V = CommandView;

    open spec fn view(&self) -> CommandView {
        match self {
            Command::Add { phrase, example } => CommandView::Add {
                phrase: phrase@,
                example: opt_text(*example),
            },
            Command::List => CommandView::List,
            Command::Destroy { phrase } => CommandView::Destroy { phrase: phrase@ },
        }
    }
}

/// The command that a command line stands for, where it stands for exactly
/// one. The list flag and a phrase to destroy exclude each other. With
/// either of them the positional phrase and the example play no part. With
/// neither, a positional phrase makes an addition, and without one there is
/// no command.
pub open spec fn command_of(cli: CliView) -> Option<CommandView> {
    if cli.list {
        if cli.destroy is Some {
            None
        } else {
            Some(CommandView::List)
        }
    } else {
        match cli.destroy {
            Some(phrase) => Some(CommandView::Destroy { phrase }),
            None => match cli.phrase {
                Some(phrase) => Some(CommandView::Add { phrase, example: cli.example }),
                None => None,
            },
        }
    }
}

impl Cli {
    /// The command that this command line stands for, or a validation error
    /// where it stands for none or for more than one.
    pub fn command(&self) -> (result: Result<Command, AppError>)
        ensures
            match result {
                Ok(command) => command_of(self@) == Some(command@),
                Err(error) => command_of(self@) is None && error@ == crate::error::AppErrorView::Validation,
            },
    {
        if self.list {
            match &self.destroy {
                Some(_) => Err(AppError::Validation),
                None => Ok(Command::List),
            }
        } else {
            match &self.destroy {
                Some(phrase) => Ok(Command::Destroy { phrase: phrase.clone() }),
                None => match &self.phrase {
                    Some(phrase) => Ok(
                        Command::Add {
                            phrase: phrase.clone(),
                            example: copy_opt_text(&self.example),
                        },
                    ),
                    None => Err(AppError::Validation),
                },
            }
        }
    }
}

} // verus!
