use std::time::SystemTime;

use chrono::NaiveDateTime;
use clap::{Arg, ArgAction};
use diesel::deserialize::QueryableByName;
use diesel::row::NamedRow;
use diesel::sql_types::{BigInt, Integer, Nullable, Text, Timestamp};
use diesel::sqlite::{Sqlite, SqliteConnection};
use diesel::{sql_query, Connection, RunQueryDsl};

use cement::app::{Action, App, Event, State};
use cement::cli::Cli;
use cement::error::AppError;
use cement::models::Idiom;
use cement::store::{Reply, Request};

/// Parses a command line with the flags of the program.
fn parse_from(args: Vec<&str>) -> Cli {
    let matches = clap::Command::new("cement")
        .arg(Arg::new("phrase").value_name("PHRASE"))
        .arg(
            Arg::new("example")
                .short('e')
                .long("example")
                .value_name("EXAMPLE"),
        )
        .arg(
            Arg::new("list")
                .short('l')
                .long("list")
                .action(ArgAction::SetTrue)
                .conflicts_with("destroy"),
        )
        .arg(
            Arg::new("destroy")
                .short('d')
                .long("destroy")
                .conflicts_with("list"),
        )
        .get_matches_from(args);
    Cli {
        phrase: matches.get_one::<String>("phrase").cloned(),
        example: matches.get_one::<String>("example").cloned(),
        list: matches.get_flag("list"),
        destroy: matches.get_one::<String>("destroy").cloned(),
    }
}

/// One row as the engine hands it out.
struct Row(Idiom);

impl QueryableByName<Sqlite> for Row {
    fn build<'a>(row: &impl NamedRow<'a, Sqlite>) -> diesel::deserialize::Result<Self> {
        let id = NamedRow::get::<Integer, i32>(row, "id")?;
        let phrase = NamedRow::get::<Text, String>(row, "phrase")?;
        let example = NamedRow::get::<Nullable<Text>, Option<String>>(row, "example")?;
        let created_at = NamedRow::get::<Timestamp, NaiveDateTime>(row, "created_at")?;
        Ok(Row(Idiom {
            id,
            phrase,
            example,
            created_at: format!("{:?}", created_at),
        }))
    }
}

/// A count as the engine hands it out.
struct Count(i64);

impl QueryableByName<Sqlite> for Count {
    fn build<'a>(row: &impl NamedRow<'a, Sqlite>) -> diesel::deserialize::Result<Self> {
        Ok(Count(NamedRow::get::<BigInt, i64>(row, "n")?))
    }
}

/// A store in memory, with the table of the program.
struct Store {
    connection: SqliteConnection,
}

impl Store {
    fn open() -> Store {
        let mut connection =
            SqliteConnection::establish(":memory:").expect("a store in memory opens");
        sql_query(
            "CREATE TABLE idioms (\
             id INTEGER PRIMARY KEY AUTOINCREMENT NOT NULL, \
             phrase TEXT NOT NULL, \
             example TEXT, \
             created_at TIMESTAMP NOT NULL DEFAULT CURRENT_TIMESTAMP)",
        )
        .execute(&mut connection)
        .expect("the table is created");
        Store { connection }
    }

    fn perform(&mut self, request: Request) -> Reply {
        let outcome = match request {
            Request::Insert(row) => {
                sql_query("INSERT INTO idioms (phrase, example) VALUES (?, ?)")
                    .bind::<Text, _>(row.phrase)
                    .bind::<Nullable<Text>, _>(row.example)
                    .execute(&mut self.connection)
                    .map(Reply::Inserted)
            }
            Request::FindByPhrase(phrase) => sql_query(
                "SELECT id, phrase, example, created_at FROM idioms WHERE phrase = ? LIMIT 1",
            )
            .bind::<Text, _>(phrase)
            .load::<Row>(&mut self.connection)
            .map(|rows| Reply::Found(rows.into_iter().next().map(|row| row.0))),
            Request::Delete(phrase) => sql_query("DELETE FROM idioms WHERE phrase = ?")
                .bind::<Text, _>(phrase)
                .execute(&mut self.connection)
                .map(Reply::Deleted),
            Request::ListAll => sql_query("SELECT id, phrase, example, created_at FROM idioms")
                .load::<Row>(&mut self.connection)
                .map(|rows| Reply::Listed(rows.into_iter().map(|row| row.0).collect())),
        };
        match outcome {
            Ok(reply) => reply,
            Err(error) => Reply::Failed(error.to_string()),
        }
    }

    fn find(&mut self, phrase: &str) -> Option<Idiom> {
        match self.perform(Request::FindByPhrase(phrase.to_string())) {
            Reply::Found(row) => row,
            other => panic!("Error loading idiom results. {:?}", other),
        }
    }

    fn count(&mut self) -> i64 {
        let counts = sql_query("SELECT COUNT(*) AS n FROM idioms")
            .load::<Count>(&mut self.connection)
            .expect("the rows are counted");
        counts[0].0
    }

    fn drop_table(&mut self) {
        sql_query("DROP TABLE idioms")
            .execute(&mut self.connection)
            .expect("the table is dropped");
    }
}

/// Which of the dispatcher's three entries takes the steps.
enum Entry {
    Store,
    Destroy,
    Output,
}

/// Runs one invocation against the store, and counts the requests that
/// change it.
fn run(app: &App, entry: Entry, store: &mut Store) -> (Result<String, AppError>, usize) {
    let mut state = State::Ready;
    let mut event = Event::Start;
    let mut mutations = 0;
    loop {
        let (next, action) = match entry {
            Entry::Store => app.store(state, event),
            Entry::Destroy => app.destroy(state, event),
            Entry::Output => app.output_from_args(state, event),
        };
        match action {
            Action::Finish(result) => {
                assert_eq!(next, State::Finished);
                return (result, mutations);
            }
            Action::Ask(request) => {
                if request.mutates() {
                    mutations += 1;
                }
                state = next;
                event = Event::Answer(store.perform(request));
            }
        }
    }
}

fn output(args: Vec<&str>, store: &mut Store) -> Result<String, AppError> {
    run(&App::new(parse_from(args)), Entry::Output, store).0
}

fn now() -> String {
    SystemTime::now()
        .duration_since(SystemTime::UNIX_EPOCH)
        .expect("Unable to get time since Unix epoch.")
        .as_secs()
        .to_string()
}

#[test]
fn persists_phrase_with_example() {
    let now = now();

    let mut store = Store::open();

    let new_phrase = "hello-".to_string() + &now;
    let app_args = vec!["", &new_phrase, "-e", "An example of an example."];

    let app = App::new(parse_from(app_args));

    let result = run(&app, Entry::Store, &mut store);

    println!("{:?}", result);

    let query_results = store
        .find(&new_phrase)
        .expect("Error loading idiom results.");

    assert_eq!("hello-".to_string() + &now, query_results.phrase);
    assert_eq!("An example of an example.", query_results.example.unwrap());
}

#[test]
fn output_list_of_idioms() {
    let app = App::new(parse_from(vec!["", "-l"]));

    let mut store = Store::open();

    let (result, mutations) = run(&app, Entry::Output, &mut store);
    assert_eq!(result, Ok("[]".to_string()));
    assert_eq!(mutations, 0);
}

#[test]
fn destroy_an_existing_idiom() {
    let now = now();

    let new_phrase = "new-phrase-".to_string() + &now;

    let mut app = App::new(parse_from(vec![
        "",
        &new_phrase,
        "-e",
        "An example of an example.",
    ]));

    let mut store = Store::open();

    let _ = run(&app, Entry::Store, &mut store);
    assert_eq!(store.count(), 1);

    app.cli = parse_from(vec!["", "-d", &new_phrase]);
    let (result, mutations) = run(&app, Entry::Destroy, &mut store);
    assert_eq!(
        result,
        Ok("Deleted ".to_string() + &new_phrase + ", An example of an example.")
    );
    assert_eq!(mutations, 1);
    assert_eq!(store.count(), 0);
}

#[test]
fn destroy_fails_without_existence() {
    let now = now();

    let new_phrase = "new-phrase-".to_string() + &now;

    let mut app = App::new(parse_from(vec![
        "",
        &new_phrase,
        "-e",
        "An example of an example.",
    ]));

    let mut store = Store::open();

    app.cli = parse_from(vec!["", "-d", &new_phrase]);
    let (result, mutations) = run(&app, Entry::Destroy, &mut store);
    assert_eq!(result, Ok(new_phrase + " doesn't exist."));
    assert_eq!(mutations, 0);
}

#[test]
fn destory_flag() {
    let now = now();

    let new_phrase = "new-phrase-".to_string() + &now;

    let args = vec!["", "-d", &new_phrase];
    let app = App::new(parse_from(args));
    let mut store = Store::open();

    let (result, _) = run(&app, Entry::Output, &mut store);
    assert_eq!(result, Ok(new_phrase + " doesn't exist."));
}

#[test]
fn add_list_destroy_destroy_again() {
    let mut store = Store::open();

    let stored = output(vec!["", "hello-1", "-e", "An example."], &mut store).unwrap();
    assert!(stored.contains("Stored phrase hello-1"));

    let listed = output(vec!["", "-l"], &mut store).unwrap();
    assert!(listed.contains("\"phrase\": \"hello-1\""));
    assert!(listed.contains("\"example\": \"An example.\""));

    let deleted = output(vec!["", "-d", "hello-1"], &mut store).unwrap();
    assert!(deleted.contains("Deleted hello-1, An example."));

    let again = output(vec!["", "-d", "hello-1"], &mut store).unwrap();
    assert!(again.contains("hello-1 doesn't exist."));
}

#[test]
fn inserted_row_is_found_with_its_phrase_and_example() {
    let mut store = Store::open();

    assert_eq!(
        output(vec!["", "first", "-e", "The first."], &mut store),
        Ok("Stored phrase first".to_string())
    );
    assert_eq!(
        output(vec!["", "second"], &mut store),
        Ok("Stored phrase second".to_string())
    );

    let first = store.find("first").expect("the first row is there");
    assert_eq!(first.phrase, "first");
    assert_eq!(first.example, Some("The first.".to_string()));
    assert!(!first.created_at.is_empty());

    let second = store.find("second").expect("the second row is there");
    assert_eq!(second.phrase, "second");
    assert_eq!(second.example, None);
    assert!(second.id > first.id);
}

#[test]
fn absent_phrase_is_not_found_and_destroy_leaves_the_store() {
    let mut store = Store::open();
    let _ = output(vec!["", "kept", "-e", "Stays."], &mut store);

    assert_eq!(store.find("missing"), None);

    let app = App::new(parse_from(vec!["", "-d", "missing"]));
    let (result, mutations) = run(&app, Entry::Output, &mut store);
    assert_eq!(result, Ok("missing doesn't exist.".to_string()));
    assert_eq!(mutations, 0);
    assert_eq!(store.count(), 1);
    assert!(store.find("kept").is_some());
}

#[test]
fn deleted_phrase_is_not_found_again() {
    let mut store = Store::open();
    let _ = output(vec!["", "once", "-e", "Only row."], &mut store);
    assert!(store.find("once").is_some());

    assert_eq!(
        output(vec!["", "-d", "once"], &mut store),
        Ok("Deleted once, Only row.".to_string())
    );
    assert_eq!(store.find("once"), None);
}

#[test]
fn listing_after_inserts_has_every_row_once() {
    let mut store = Store::open();
    let pairs = vec![
        ("alpha", Some("First letter.")),
        ("beta", None),
        ("gamma \"quoted\"", Some("line\nbreak")),
        ("alpha", Some("Again.")),
    ];
    for (phrase, example) in pairs.iter() {
        let args = match example {
            Some(text) => vec!["", phrase, "-e", text],
            None => vec!["", phrase],
        };
        assert!(output(args, &mut store).is_ok());
    }

    let listed = output(vec!["", "-l"], &mut store).unwrap();
    let parsed: serde_json::Value = serde_json::from_str(&listed).expect("the listing is JSON");
    let entries = parsed.as_array().expect("the listing is an array");
    assert_eq!(entries.len(), pairs.len());

    let mut found: Vec<(String, Option<String>)> = entries
        .iter()
        .map(|entry| {
            (
                entry["phrase"].as_str().expect("a phrase").to_string(),
                entry["example"].as_str().map(str::to_string),
            )
        })
        .collect();
    let mut expected: Vec<(String, Option<String>)> = pairs
        .iter()
        .map(|(phrase, example)| (phrase.to_string(), example.map(str::to_string)))
        .collect();
    found.sort();
    expected.sort();
    assert_eq!(found, expected);
    assert_eq!(store.count(), 4);
}

#[test]
fn add_without_phrase_is_rejected_and_writes_nothing() {
    let mut store = Store::open();
    let _ = output(vec!["", "kept"], &mut store);

    let app = App::new(parse_from(vec!["", "-e", "An example without a phrase."]));
    let (result, mutations) = run(&app, Entry::Output, &mut store);
    assert_eq!(result, Err(AppError::Validation));
    assert_eq!(mutations, 0);
    assert_eq!(store.count(), 1);

    let (result, mutations) = run(&app, Entry::Store, &mut store);
    assert_eq!(result, Err(AppError::Validation));
    assert_eq!(mutations, 0);
    assert_eq!(store.count(), 1);
}

#[test]
fn destroy_removes_every_row_with_the_phrase() {
    let mut store = Store::open();
    let _ = output(vec!["", "twice", "-e", "First."], &mut store);
    let _ = output(vec!["", "twice", "-e", "Second."], &mut store);
    let _ = output(vec!["", "other"], &mut store);
    assert_eq!(store.count(), 3);

    let deleted = output(vec!["", "-d", "twice"], &mut store).unwrap();
    assert!(deleted == "Deleted twice, First." || deleted == "Deleted twice, Second.");
    assert_eq!(store.count(), 1);
    assert_eq!(store.find("twice"), None);
}

#[test]
fn destroy_of_a_row_without_example() {
    let mut store = Store::open();
    let _ = output(vec!["", "bare"], &mut store);
    assert_eq!(
        output(vec!["", "-d", "bare"], &mut store),
        Ok("Deleted bare, no example found.".to_string())
    );
}

#[test]
fn failure_of_the_store_is_reported_with_the_prefix() {
    let mut store = Store::open();
    store.drop_table();

    let added = output(vec!["", "hello-1"], &mut store).unwrap_err();
    assert!(matches!(added, AppError::Store(_)));
    assert!(added.message().starts_with("Something went wrong: "));
    assert!(added.message().len() > "Something went wrong: ".len());

    let listed = output(vec!["", "-l"], &mut store).unwrap_err();
    assert!(matches!(listed, AppError::Store(_)));

    let destroyed = output(vec!["", "-d", "hello-1"], &mut store).unwrap_err();
    assert!(matches!(destroyed, AppError::Store(_)));
}

#[test]
fn every_invocation_changes_the_store_at_most_once() {
    let mut store = Store::open();
    let add = App::new(parse_from(vec!["", "hello-1", "-e", "An example."]));
    assert_eq!(run(&add, Entry::Output, &mut store).1, 1);
    let list = App::new(parse_from(vec!["", "-l"]));
    assert_eq!(run(&list, Entry::Output, &mut store).1, 0);
    let destroy = App::new(parse_from(vec!["", "-d", "hello-1"]));
    assert_eq!(run(&destroy, Entry::Output, &mut store).1, 1);
    assert_eq!(run(&destroy, Entry::Output, &mut store).1, 0);
}
