//! What holds of every invocation, proved over the dispatcher's steps.
//!
//! A run is what the dispatcher does when the store gives a sequence of
//! answers: the actions it takes, from the start until it finishes or the
//! answers run out.

use vstd::prelude::*;
use crate::app::{
    deleted_text, missing_text, reject, step, store_step, stored_text, succeed, ActionView,
    EventView, StateView,
};
use crate::cli::{command_of, CliView, CommandView};
use crate::error::{message_text, AppErrorView};
use crate::json::Json;
use crate::listing::{listing_json, listing_text, row_json};
use crate::models::{IdiomView, NewIdiomView};
use crate::store::{ReplyView, RequestView};

verus! {

/// The actions taken from `state` on `event` and then on each of `replies`
/// in turn, up to the one that finishes.
pub open spec fn run(
    cli: CliView,
    state: StateView,
    event: EventView,
    replies: Seq<ReplyView>,
) -> Seq<ActionView>
    decreases replies.len(),
{
    let (next, action) = step(cli, state, event);
    if action is Finish || replies.len() == 0 {
        seq![action]
    } else {
        seq![action] + run(cli, next, EventView::Answer(replies[0]), replies.drop_first())
    }
}

/// The actions of a whole invocation whose store answers with `replies`.
pub open spec fn trace(cli: CliView, replies: Seq<ReplyView>) -> Seq<ActionView> {
    run(cli, StateView::Ready, EventView::Start, replies)
}

/// Whether an action changes what the store holds.
pub open spec fn is_mutation(action: ActionView) -> bool {
    action matches ActionView::Ask(request) && request.mutates()
}

/// An addition asks the store to insert exactly the phrase and the example
/// of the command, and confirms with the phrase once the store has inserted
/// the row.
pub proof fn law_add_inserts_what_was_given(
    cli: CliView,
    phrase: Seq<char>,
    example: Option<Seq<char>>,
    count: nat,
)
    requires
        command_of(cli) == Some(CommandView::Add { phrase, example }),
    ensures
        step(cli, StateView::Ready, EventView::Start) == (
            StateView::Storing(phrase),
            ActionView::Ask(RequestView::Insert(NewIdiomView { phrase, example })),
        ),
        step(cli, StateView::Storing(phrase), EventView::Answer(ReplyView::Inserted(count)))
            == succeed(stored_text(phrase)),
{
}

/// A removal of a phrase that no row has only looks the phrase up, reports
/// that it does not exist, and succeeds: nothing that changes the store is
/// ever asked.
pub proof fn law_destroy_of_absent_phrase(cli: CliView, phrase: Seq<char>, replies: Seq<ReplyView>)
    requires
        command_of(cli) == Some(CommandView::Destroy { phrase }),
        replies.len() > 0,
        replies[0] == ReplyView::Found(None),
    ensures
        trace(cli, replies) == seq![
            ActionView::Ask(RequestView::FindByPhrase(phrase)),
            ActionView::Finish(Ok(missing_text(phrase))),
        ],
        forall|i: int| 0 <= i < trace(cli, replies).len() ==> !is_mutation(trace(cli, replies)[i]),
{
    reveal_with_fuel(run, 3);
}

/// A removal of a phrase that a row has deletes by the phrase that was asked
/// for, and confirms with the row that the lookup found, whatever the number
/// of rows that the store removed.
pub proof fn law_destroy_of_present_phrase(
    cli: CliView,
    phrase: Seq<char>,
    row: IdiomView,
    count: nat,
)
    requires
        command_of(cli) == Some(CommandView::Destroy { phrase }),
    ensures
        step(cli, StateView::Ready, EventView::Start) == (
            StateView::Finding(phrase),
            ActionView::Ask(RequestView::FindByPhrase(phrase)),
        ),
        step(cli, StateView::Finding(phrase), EventView::Answer(ReplyView::Found(Some(row)))) == (
            StateView::Deleting(row),
            ActionView::Ask(RequestView::Delete(phrase)),
        ),
        step(cli, StateView::Deleting(row), EventView::Answer(ReplyView::Deleted(count)))
            == succeed(deleted_text(row)),
{
}

/// A command line with no phrase, no list flag and no phrase to destroy is
/// rejected with a validation error, and the store is asked nothing.
pub proof fn law_empty_command_asks_nothing(cli: CliView, replies: Seq<ReplyView>)
    requires
        cli.phrase is None,
        !cli.list,
        cli.destroy is None,
    ensures
        step(cli, StateView::Ready, EventView::Start) == reject(),
        store_step(cli, StateView::Ready, EventView::Start) == reject(),
        trace(cli, replies) == seq![ActionView::Finish(Err(AppErrorView::Validation))],
        message_text(AppErrorView::Validation) == "Phrase is required."@,
{
    reveal_with_fuel(run, 2);
}

/// A command line that stands for no command, or for more than one, is
/// rejected before the store is asked anything.
pub proof fn law_rejected_command_asks_nothing(cli: CliView, replies: Seq<ReplyView>)
    requires
        command_of(cli) is None,
    ensures
        trace(cli, replies) == seq![ActionView::Finish(Err(AppErrorView::Validation))],
{
    reveal_with_fuel(run, 2);
}

/// A listing asks for every row and prints them as one document; it never
/// asks for anything that changes the store.
pub proof fn law_listing_never_mutates(
    cli: CliView,
    replies: Seq<ReplyView>,
    rows: Seq<IdiomView>,
)
    requires
        command_of(cli) == Some(CommandView::List),
    ensures
        trace(cli, replies)[0] == ActionView::Ask(RequestView::ListAll),
        forall|i: int| 0 <= i < trace(cli, replies).len() ==> !is_mutation(trace(cli, replies)[i]),
        replies.len() > 0 && replies[0] == ReplyView::Listed(rows) ==> trace(cli, replies) == seq![
            ActionView::Ask(RequestView::ListAll),
            ActionView::Finish(Ok(listing_text(rows))),
        ],
{
    reveal_with_fuel(run, 3);
}

/// Every invocation is over after at most two answers of the store, and it
/// asks at most once for something that changes the store.
pub proof fn law_one_interaction(cli: CliView, replies: Seq<ReplyView>)
    ensures
        1 <= trace(cli, replies).len() <= 3,
        replies.len() >= 2 ==> trace(cli, replies).last() is Finish,
        forall|i: int, j: int|
            0 <= i < j < trace(cli, replies).len() ==> !(is_mutation(trace(cli, replies)[i])
                && is_mutation(trace(cli, replies)[j])),
{
    reveal_with_fuel(run, 4);
}

/// A failure of the store ends the invocation at once with the store's
/// message, which is shown behind the fixed prefix: nothing is asked again,
/// and the failure is never turned into a success.
pub proof fn law_store_failure_surfaces(cli: CliView, state: StateView, reason: Seq<char>)
    requires
        state is Storing || state is Finding || state is Deleting || state is Listing,
    ensures
        step(cli, state, EventView::Answer(ReplyView::Failed(reason))) == (
            StateView::Finished,
            ActionView::Finish(Err(AppErrorView::Store(reason))),
        ),
        message_text(AppErrorView::Store(reason)) == "Something went wrong: "@ + reason,
{
}

/// The document of a row determines the row.
pub proof fn law_row_document_determines_row(a: IdiomView, b: IdiomView)
    requires
        row_json(a) == row_json(b),
    ensures
        a == b,
{
    let left = row_json(a)->Object_0;
    let right = row_json(b)->Object_0;
    assert(left == right);
    assert(left[0] == right[0]);
    assert(left[1] == right[1]);
    assert(left[2] == right[2]);
    assert(left[3] == right[3]);
}

/// The document of a listing holds each row once, in order, and nothing
/// else: two lists of rows with the same document are the same list.
pub proof fn law_listing_document_determines_rows(a: Seq<IdiomView>, b: Seq<IdiomView>)
    requires
        listing_json(a) == listing_json(b),
    ensures
        a == b,
{
    let left = listing_json(a)->Array_0;
    let right = listing_json(b)->Array_0;
    assert(left == right);
    assert(left.len() == a.len());
    assert(right.len() == b.len());
    assert forall|i: int| 0 <= i < a.len() implies a[i] == b[i] by {
        assert(left[i] == row_json(a[i]));
        assert(right[i] == row_json(b[i]));
        law_row_document_determines_row(a[i], b[i]);
    }
    assert(a =~= b);
}

/// The document of a listing has one entry for each row.
pub proof fn law_listing_has_one_entry_per_row(rows: Seq<IdiomView>)
    ensures
        listing_json(rows) matches Json::Array(items) && items.len() == rows.len(),
{
}

} // verus!
