//! What the dispatcher asks of the store, and what the store answers.
//!
//! The store itself is outside this crate. Whoever owns the connection
//! performs each request and reports the answer, or the store's message
//! where the request failed.

use vstd::prelude::*;
use crate::models::{opt_text, rows_view, Idiom, IdiomView, NewIdiom, NewIdiomView};

verus! {

/// One request to the store.
#[derive(Debug, Clone, PartialEq, Eq)]
pub enum Request {
    /// Insert one row.
    Insert(NewIdiom),
    /// Look up a row whose phrase is exactly the given one.
    FindByPhrase(String),
    /// Delete every row whose phrase is exactly the given one.
    Delete(String),
    /// Load every row.
    ListAll,
}

/// What a [`Request`] holds, as mathematical values.
pub enum RequestView {
    Insert(NewIdiomView),
    FindByPhrase(Seq<char>),
    Delete(Seq<char>),
    ListAll,
}

impl View for Request {
    type V = RequestView;

    open spec fn view(&self) -> RequestView {
        match self {
            Request::Insert(row) => RequestView::Insert(row@),
            Request::FindByPhrase(phrase) => RequestView::FindByPhrase(phrase@),
            Request::Delete(phrase) => RequestView::Delete(phrase@),
            Request::ListAll => RequestView::ListAll,
        }
    }
}

impl RequestView {
    /// Whether the request changes what the store holds.
    pub open spec fn mutates(self) -> bool {
        self is Insert || self is Delete
    }
}

impl Request {
    /// Whether the request changes what the store holds.
    pub fn mutates(&self) -> (changes: bool)
        ensures
            changes == self@.mutates(),
    {
        match self {
            Request::Insert(_) => true,
            Request::Delete(_) => true,
            Request::FindByPhrase(_) => false,
            Request::ListAll => false,
        }
    }
}

/// The store's answer to one request.
#[derive(Debug, Clone, PartialEq, Eq)]
pub enum Reply {
    /// The insertion succeeded; the number of rows written.
    Inserted(usize),
    /// The lookup succeeded: a matching row, or none where no row matches.
    Found(Option<Idiom>),
    /// The deletion succeeded; the number of rows removed.
    Deleted(usize),
    /// Every row, in the store's order.
    Listed(Vec<Idiom>),
    /// The request failed; the store's message.
    Failed(String),
}

/// What a [`Reply`] holds, as mathematical values.
pub enum ReplyView {
    Inserted(nat),
    Found(Option<IdiomView>),
    Deleted(nat),
    Listed(Seq<IdiomView>),
    Failed(Seq<char>),
}

/// The view of an optional row.
pub open spec fn opt_row(row: Option<Idiom>) -> Option<IdiomView> {
    match row {
        Some(found) => Some(found@),
        None => None,
    }
}

impl View for Reply {
    type V = ReplyView;

    open spec fn view(&self) -> ReplyView {
        match self {
            Reply::Inserted(count) => ReplyView::Inserted(*count as nat),
            Reply::Found(row) => ReplyView::Found(opt_row(*row)),
            Reply::Deleted(count) => ReplyView::Deleted(*count as nat),
            Reply::Listed(rows) => ReplyView::Listed(rows_view(rows@)),
            Reply::Failed(reason) => ReplyView::Failed(reason@),
        }
    }
}

} // verus!
