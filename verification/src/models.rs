//! The record model: a stored idiom and the payload that creates one.

use vstd::prelude::*;

verus! {

/// The text of an optional string, as a sequence of characters.
pub open spec fn opt_text(text: Option<String>) -> Option<Seq<char>> {
    match text {
        Some(s) => Some(s@),
        None => None,
    }
}

/// A copy of an optional string.
pub fn copy_opt_text(text: &Option<String>) -> (copy: Option<String>)
    ensures
        opt_text(copy) == opt_text(*text),
{
    match text {
        Some(s) => Some(s.clone()),
        None => None,
    }
}

/// A stored idiom. `id` and `created_at` are assigned by the store when the
/// row is inserted; `created_at` is the creation time as the store reports
/// it, in ISO 8601 form.
#[derive(Debug, Clone, PartialEq, Eq)]
pub struct Idiom {
    pub id: i32,
    pub phrase: String,
    pub example: Option<String>,
    pub created_at: String,
}

/// What an [`Idiom`] holds, as mathematical values.
pub struct IdiomView {
    pub id: int,
    pub phrase: Seq<char>,
    pub example: Option<Seq<char>>,
    pub created_at: Seq<char>,
}

impl View for Idiom {
    type V = IdiomView;

    open spec fn view(&self) -> IdiomView {
        IdiomView {
            id: self.id as int,
            phrase: self.phrase@,
            example: opt_text(self.example),
            created_at: self.created_at@,
        }
    }
}

/// The payload of an insertion: the store assigns everything else.
#[derive(Debug, Clone, PartialEq, Eq)]
pub struct NewIdiom {
    pub phrase: String,
    pub example: Option<String>,
}

/// What a [`NewIdiom`] holds, as mathematical values.
pub struct NewIdiomView {
    pub phrase: Seq<char>,
    pub example: Option<Seq<char>>,
}

impl View for NewIdiom {
    type V = NewIdiomView;

    open spec fn view(&self) -> NewIdiomView {
        NewIdiomView { phrase: self.phrase@, example: opt_text(self.example) }
    }
}

/// The views of a list of rows, in order.
pub open spec fn rows_view(rows: Seq<Idiom>) -> Seq<IdiomView> {
    rows.map_values(|row: Idiom| row@)
}

} // verus!
