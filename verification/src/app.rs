//! The dispatcher: one command in, one output or one error out.
//!
//! The dispatcher is a state machine. It starts in [`State::Ready`]; on
//! [`Event::Start`] it says what to ask of the store, and on each answer it
//! either asks once more or finishes with the text to print or with an
//! error. Whoever owns the store performs each request and hands the answer
//! back as the next event.

use vstd::prelude::*;
use crate::cli::{command_of, Cli, CliView, Command, CommandView};
use crate::error::{AppError, AppErrorView};
use crate::listing::{listing, listing_text};
use crate::models::{copy_opt_text, Idiom, IdiomView, NewIdiom, NewIdiomView};
use crate::store::{Reply, ReplyView, Request, RequestView};

verus! {

/// Where one invocation stands.
#[derive(Debug, Clone, PartialEq, Eq)]
pub enum State {
    /// Nothing was asked yet.
    Ready,
    /// An insertion of the given phrase was asked.
    Storing(String),
    /// A lookup of the given phrase was asked.
    Finding(String),
    /// A deletion was asked, after the lookup found the given row.
    Deleting(Idiom),
    /// Every row was asked for.
    Listing,
    /// The invocation is over.
    Finished,
}

/// What a [`State`] holds, as mathematical values.
pub enum StateView {
    Ready,
    Storing(Seq<char>),
    Finding(Seq<char>),
    Deleting(IdiomView),
    Listing,
    Finished,
}

impl View for State {
    type V = StateView;

    open spec fn view(&self) -> StateView {
        match self {
            State::Ready => StateView::Ready,
            State::Storing(phrase) => StateView::Storing(phrase@),
            State::Finding(phrase) => StateView::Finding(phrase@),
            State::Deleting(row) => StateView::Deleting(row@),
            State::Listing => StateView::Listing,
            State::Finished => StateView::Finished,
        }
    }
}

/// What happened since the last step.
#[derive(Debug, Clone, PartialEq, Eq)]
pub enum Event {
    /// The invocation begins.
    Start,
    /// The store answered the request last asked.
    Answer(Reply),
}

/// What an [`Event`] holds, as mathematical values.
pub enum EventView {
    Start,
    Answer(ReplyView),
}

impl View for Event {
    type V = EventView;

    open spec fn view(&self) -> EventView {
        match self {
            Event::Start => EventView::Start,
            Event::Answer(reply) => EventView::Answer(reply@),
        }
    }
}

/// What to do next.
#[derive(Debug, PartialEq, Eq)]
pub enum Action {
    /// Perform the request and come back with the store's answer.
    Ask(Request),
    /// Stop: print the text, or report the error.
    Finish(Result<String, AppError>),
}

/// What an [`Action`] holds, as mathematical values.
pub enum ActionView {
    Ask(RequestView),
    Finish(Result<Seq<char>, AppErrorView>),
}

impl View for Action {
    type V = ActionView;

    open spec fn view(&self) -> ActionView {
        match self {
            Action::Ask(request) => ActionView::Ask(request@),
            Action::Finish(Ok(text)) => ActionView::Finish(Ok(text@)),
            Action::Finish(Err(error)) => ActionView::Finish(Err(error@)),
        }
    }
}

/// The confirmation of an addition.
pub open spec fn stored_text(phrase: Seq<char>) -> Seq<char> {
    "Stored phrase "@ + phrase
}

/// The report of a removal whose phrase no row has.
pub open spec fn missing_text(phrase: Seq<char>) -> Seq<char> {
    phrase + " doesn't exist."@
}

/// The confirmation of a removal: the phrase and the example of the row that
/// the lookup found, with a fixed text where the row has no example.
pub open spec fn deleted_text(row: IdiomView) -> Seq<char> {
    "Deleted "@ + row.phrase + ", "@ + match row.example {
        Some(example) => example,
        None => "no example found."@,
    }
}

/// The step that ends the invocation with the given text.
pub open spec fn succeed(text: Seq<char>) -> (StateView, ActionView) {
    (StateView::Finished, ActionView::Finish(Ok(text)))
}

/// The step that ends the invocation with a validation error.
pub open spec fn reject() -> (StateView, ActionView) {
    (StateView::Finished, ActionView::Finish(Err(AppErrorView::Validation)))
}

/// The step that ends the invocation with a failure of the store.
pub open spec fn fail(reason: Seq<char>) -> (StateView, ActionView) {
    (StateView::Finished, ActionView::Finish(Err(AppErrorView::Store(reason))))
}

/// The step taken on an event that the state does not wait for: the store
/// did not answer what was asked.
pub open spec fn unexpected() -> (StateView, ActionView) {
    fail("unexpected reply from the store"@)
}

/// One step of an addition. At the start the phrase and the example of the
/// command line make the row to insert, whatever else the command line
/// holds; without a phrase nothing is asked. The store's answer to the
/// insertion ends the invocation.
pub open spec fn store_step(cli: CliView, state: StateView, event: EventView) -> (
    StateView,
    ActionView,
) {
    match (state, event) {
        (StateView::Ready, EventView::Start) => match cli.phrase {
            Some(phrase) => (
                StateView::Storing(phrase),
                ActionView::Ask(RequestView::Insert(NewIdiomView { phrase, example: cli.example })),
            ),
            None => reject(),
        },
        (StateView::Storing(phrase), EventView::Answer(ReplyView::Inserted(_))) => succeed(
            stored_text(phrase),
        ),
        (StateView::Storing(_), EventView::Answer(ReplyView::Failed(reason))) => fail(reason),
        _ => unexpected(),
    }
}

/// One step of a removal. At the start the phrase to destroy is looked up;
/// without one nothing is asked. Where the lookup finds a row, every row with
/// the phrase is deleted, and the confirmation shows the row that was found,
/// whatever the number of rows removed. Where it finds none, that is
/// reported, and nothing is deleted.
pub open spec fn destroy_step(cli: CliView, state: StateView, event: EventView) -> (
    StateView,
    ActionView,
) {
    match (state, event) {
        (StateView::Ready, EventView::Start) => match cli.destroy {
            Some(phrase) => (
                StateView::Finding(phrase),
                ActionView::Ask(RequestView::FindByPhrase(phrase)),
            ),
            None => reject(),
        },
        (StateView::Finding(phrase), EventView::Answer(ReplyView::Found(Some(row)))) => (
            StateView::Deleting(row),
            ActionView::Ask(RequestView::Delete(phrase)),
        ),
        (StateView::Finding(phrase), EventView::Answer(ReplyView::Found(None))) => succeed(
            missing_text(phrase),
        ),
        (StateView::Finding(_), EventView::Answer(ReplyView::Failed(reason))) => fail(reason),
        (StateView::Deleting(row), EventView::Answer(ReplyView::Deleted(_))) => succeed(
            deleted_text(row),
        ),
        (StateView::Deleting(_), EventView::Answer(ReplyView::Failed(reason))) => fail(reason),
        _ => unexpected(),
    }
}

/// One step of an invocation. At the start the command decides: a listing
/// asks for every row, a removal and an addition take their own first step,
/// and a command line that stands for no command, or for more than one, is
/// rejected before anything is asked. After that the state decides: the rows
/// of a listing are printed as one document, and an addition or a removal
/// goes on with its own steps.
pub open spec fn step(cli: CliView, state: StateView, event: EventView) -> (StateView, ActionView) {
    match (state, event) {
        (StateView::Ready, EventView::Start) => match command_of(cli) {
            Some(CommandView::List) => (StateView::Listing, ActionView::Ask(RequestView::ListAll)),
            Some(CommandView::Destroy { .. }) => destroy_step(cli, state, event),
            Some(CommandView::Add { .. }) => store_step(cli, state, event),
            None => reject(),
        },
        (StateView::Listing, EventView::Answer(ReplyView::Listed(rows))) => succeed(
            listing_text(rows),
        ),
        (StateView::Listing, EventView::Answer(ReplyView::Failed(reason))) => fail(reason),
        (StateView::Storing(_), _) => store_step(cli, state, event),
        (StateView::Finding(_), _) => destroy_step(cli, state, event),
        (StateView::Deleting(_), _) => destroy_step(cli, state, event),
        _ => unexpected(),
    }
}

/// The dispatcher of one invocation.
#[derive(Debug, Clone)]
pub struct App {
    pub cli: Cli,
}

/// The step that ends the invocation with the given text.
pub fn finish_with(text: String) -> (next: (State, Action))
    ensures
        (next.0@, next.1@) == succeed(text@),
{
    (State::Finished, Action::Finish(Ok(text)))
}

/// The step that ends the invocation with a validation error.
pub fn finish_rejected() -> (next: (State, Action))
    ensures
        (next.0@, next.1@) == reject(),
{
    (State::Finished, Action::Finish(Err(AppError::Validation)))
}

/// The step that ends the invocation with a failure of the store, given the
/// store's message.
pub fn finish_failed(reason: String) -> (next: (State, Action))
    ensures
        (next.0@, next.1@) == fail(reason@),
{
    (State::Finished, Action::Finish(Err(AppError::Store(reason))))
}

/// The step taken where the store did not answer what was asked.
fn finish_unexpected() -> (next: (State, Action))
    ensures
        (next.0@, next.1@) == unexpected(),
{
    finish_failed("unexpected reply from the store".to_owned())
}

/// The confirmation of a removal, for the row that the lookup found.
fn deleted_message(row: &Idiom) -> (text: String)
    ensures
        text@ == deleted_text(row@),
{
    let mut text = "Deleted ".to_owned();
    text.append(row.phrase.as_str());
    text.append(", ");
    match &row.example {
        Some(example) => text.append(example.as_str()),
        None => text.append("no example found."),
    }
    text
}

impl App {
    /// The dispatcher for a parsed command line.
    pub fn new(cli: Cli) -> (app: App)
        ensures
            app.cli == cli,
    {
        App { cli }
    }

    /// One step of an addition. At the start it asks the store to insert the
    /// phrase and the example of the command line, or rejects a command line
    /// without a phrase; on the store's answer it confirms with the phrase,
    /// or fails with the store's message. The step is exactly
    /// [`store_step`].
    pub fn store(&self, state: State, event: Event) -> (next: (State, Action))
        ensures
            (next.0@, next.1@) == store_step(self.cli@, state@, event@),
    {
        match (state, event) {
            (State::Ready, Event::Start) => match &self.cli.phrase {
                Some(phrase) => {
                    let row = NewIdiom {
                        phrase: phrase.clone(),
                        example: copy_opt_text(&self.cli.example),
                    };
                    (State::Storing(phrase.clone()), Action::Ask(Request::Insert(row)))
                },
                None => finish_rejected(),
            },
            (State::Storing(phrase), Event::Answer(Reply::Inserted(_))) => {
                let mut text = "Stored phrase ".to_owned();
                text.append(phrase.as_str());
                finish_with(text)
            },
            (State::Storing(_), Event::Answer(Reply::Failed(reason))) => finish_failed(reason),
            _ => finish_unexpected(),
        }
    }

    /// One step of a removal. At the start it asks the store to look the
    /// phrase up; where a row is found it asks to delete by that phrase and
    /// then confirms with the row, and where none is found it reports that
    /// and asks nothing more. The step is exactly [`destroy_step`].
    pub fn destroy(&self, state: State, event: Event) -> (next: (State, Action))
        ensures
            (next.0@, next.1@) == destroy_step(self.cli@, state@, event@),
    {
        match (state, event) {
            (State::Ready, Event::Start) => match &self.cli.destroy {
                Some(phrase) => (
                    State::Finding(phrase.clone()),
                    Action::Ask(Request::FindByPhrase(phrase.clone())),
                ),
                None => finish_rejected(),
            },
            (State::Finding(phrase), Event::Answer(Reply::Found(Some(row)))) => (
                State::Deleting(row),
                Action::Ask(Request::Delete(phrase)),
            ),
            (State::Finding(phrase), Event::Answer(Reply::Found(None))) => {
                let mut text = phrase;
                text.append(" doesn't exist.");
                finish_with(text)
            },
            (State::Finding(_), Event::Answer(Reply::Failed(reason))) => finish_failed(reason),
            (State::Deleting(row), Event::Answer(Reply::Deleted(_))) => finish_with(
                deleted_message(&row),
            ),
            (State::Deleting(_), Event::Answer(Reply::Failed(reason))) => finish_failed(reason),
            _ => finish_unexpected(),
        }
    }

    /// One step of the invocation: what to ask of the store next, or the
    /// output or the error that ends it. The caller starts with
    /// [`State::Ready`] and [`Event::Start`], performs each request that is
    /// asked, and comes back with the state returned and the store's answer.
    /// The step is exactly [`step`].
    pub fn output_from_args(&self, state: State, event: Event) -> (next: (State, Action))
        ensures
            (next.0@, next.1@) == step(self.cli@, state@, event@),
    {
        match (state, event) {
            (State::Ready, Event::Start) => match self.cli.command() {
                Ok(Command::List) => (State::Listing, Action::Ask(Request::ListAll)),
                Ok(Command::Destroy { .. }) => self.destroy(State::Ready, Event::Start),
                Ok(Command::Add { .. }) => self.store(State::Ready, Event::Start),
                Err(_) => finish_rejected(),
            },
            (State::Listing, Event::Answer(Reply::Listed(rows))) => finish_with(listing(&rows)),
            (State::Listing, Event::Answer(Reply::Failed(reason))) => finish_failed(reason),
            (State::Storing(phrase), event) => self.store(State::Storing(phrase), event),
            (State::Finding(phrase), event) => self.destroy(State::Finding(phrase), event),
            (State::Deleting(row), event) => self.destroy(State::Deleting(row), event),
            _ => finish_unexpected(),
        }
    }
}

} // verus!
