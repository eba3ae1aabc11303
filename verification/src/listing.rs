//! The listing: every row as one JSON document, pretty-printed.
//!
//! The listing is an array with one object per row, in the order of the
//! rows. Each object has the members `id`, `phrase`, `example` and
//! `created_at`, in that order; a row without an example has `null` there.

use vstd::prelude::*;
use crate::json::{
    distinct_keys, items_of, json_array, json_null, json_number, json_object, json_of,
    json_pretty, json_text, members_of, pretty_text, Json,
};
use crate::models::{rows_view, Idiom, IdiomView};

verus! {

/// The document for an optional example: its text, or `null` where there is
/// none.
pub open spec fn example_json(example: Option<Seq<char>>) -> Json {
    match example {
        Some(text) => Json::Text(text),
        None => Json::Null,
    }
}

/// The document for one row.
pub open spec fn row_json(row: IdiomView) -> Json {
    Json::Object(
        seq![
            ("id"@, Json::Number(row.id)),
            ("phrase"@, Json::Text(row.phrase)),
            ("example"@, example_json(row.example)),
            ("created_at"@, Json::Text(row.created_at)),
        ],
    )
}

/// The document for a list of rows.
pub open spec fn listing_json(rows: Seq<IdiomView>) -> Json {
    Json::Array(rows.map_values(|row: IdiomView| row_json(row)))
}

/// The text of the listing of the given rows.
pub open spec fn listing_text(rows: Seq<IdiomView>) -> Seq<char> {
    pretty_text(listing_json(rows))
}

/// The four member names differ from one another.
proof fn lemma_member_names_differ()
    ensures
        "id"@ != "phrase"@,
        "id"@ != "example"@,
        "id"@ != "created_at"@,
        "phrase"@ != "example"@,
        "phrase"@ != "created_at"@,
        "example"@ != "created_at"@,
{
    reveal_strlit("id");
    reveal_strlit("phrase");
    reveal_strlit("example");
    reveal_strlit("created_at");
    assert("id"@.len() == 2);
    assert("phrase"@.len() == 6);
    assert("example"@.len() == 7);
    assert("created_at"@.len() == 10);
}

/// Builds the document for an optional example.
fn example_value(example: &Option<String>) -> (value: serde_json::Value)
    ensures
        json_of(value) == example_json(crate::models::opt_text(*example)),
{
    match example {
        Some(text) => json_text(text.as_str()),
        None => json_null(),
    }
}

/// Builds the document for one row.
pub fn row_value(row: &Idiom) -> (value: serde_json::Value)
    ensures
        json_of(value) == row_json(row@),
{
    let mut fields: Vec<(String, serde_json::Value)> = Vec::new();
    fields.push(("id".to_owned(), json_number(row.id)));
    fields.push(("phrase".to_owned(), json_text(row.phrase.as_str())));
    fields.push(("example".to_owned(), example_value(&row.example)));
    fields.push(("created_at".to_owned(), json_text(row.created_at.as_str())));
    proof {
        lemma_member_names_differ();
        assert(fields@[0].0@ == "id"@);
        assert(fields@[1].0@ == "phrase"@);
        assert(fields@[2].0@ == "example"@);
        assert(fields@[3].0@ == "created_at"@);
        assert(distinct_keys(fields@));
        assert(members_of(fields@) =~= seq![
            ("id"@, Json::Number(row@.id)),
            ("phrase"@, Json::Text(row@.phrase)),
            ("example"@, example_json(row@.example)),
            ("created_at"@, Json::Text(row@.created_at)),
        ]);
    }
    json_object(fields)
}

/// The listing of the given rows: the array of their documents, in order,
/// pretty-printed.
pub fn listing(rows: &Vec<Idiom>) -> (text: String)
    ensures
        text@ == listing_text(rows_view(rows@)),
{
    let mut items: Vec<serde_json::Value> = Vec::new();
    let mut i: usize = 0;
    while i < rows.len()
        invariant
            i <= rows.len(),
            items@.len() == i,
            forall|k: int| 0 <= k < i ==> json_of(#[trigger] items@[k]) == row_json(rows@[k]@),
        decreases rows.len() - i,
    {
        items.push(row_value(&rows[i]));
        i += 1;
    }
    let doc = json_array(items);
    proof {
        assert(items_of(items@) =~= rows_view(rows@).map_values(|row: IdiomView| row_json(row)));
    }
    json_pretty(&doc)
}

} // verus!
