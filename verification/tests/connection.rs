use cement::connection::{Connection, ConnectionError, ConnectionState, contains_nul};

#[test]
fn with_url_parameter() {
    let url = Some("cement_test.sqlite3");
    let result = Connection::new(url, "cement_development.sqlite3");

    assert_eq!("cement_test.sqlite3", result.file);
}

#[test]
fn without_url_parameter() {
    let result = Connection::new(None, "cement_development.sqlite3");
    assert_eq!("cement_development.sqlite3", result.file);
}

#[test]
fn doesnt_panic_with_bad_url() {
    let url = Some("uh_oh\0");
    let mut connection = Connection::new(url, "cement_development.sqlite3");
    let _ = connection.connect(Err("nul byte found in provided data".to_string()));
}

#[test]
fn bad_url_fails_whatever_the_engine_said() {
    let mut connection = Connection::new(Some("uh_oh\0"), "");
    assert_eq!(connection.connect(Ok(())), Err(ConnectionError::InvalidPath));
    assert_eq!(
        connection.state,
        ConnectionState::Failed(ConnectionError::InvalidPath)
    );
    assert_eq!(connection.file, "uh_oh\0");
}

#[test]
fn new_connection_is_idle() {
    let connection = Connection::new(Some("cement_test.sqlite3"), "other.sqlite3");
    assert_eq!(connection.state, ConnectionState::Idle);
    assert_eq!(connection.notice(), None);
}

#[test]
fn connect_records_success() {
    let mut connection = Connection::new(Some("cement_test.sqlite3"), "");
    assert_eq!(connection.connect(Ok(())), Ok(()));
    assert_eq!(connection.state, ConnectionState::Open);
    assert_eq!(connection.file, "cement_test.sqlite3");
    assert_eq!(connection.notice(), None);
}

#[test]
fn connect_records_the_engines_refusal() {
    let mut connection = Connection::new(Some("/no/such/dir/store.sqlite3"), "");
    let result = connection.connect(Err("unable to open database file".to_string()));
    assert_eq!(
        result,
        Err(ConnectionError::Rejected(
            "unable to open database file".to_string()
        ))
    );
    assert_eq!(
        connection.state,
        ConnectionState::Failed(ConnectionError::Rejected(
            "unable to open database file".to_string()
        ))
    );
    assert_eq!(
        connection.notice(),
        Some("Connection Error: unable to open database file".to_string())
    );
}

#[test]
fn a_later_success_replaces_a_failure() {
    let mut connection = Connection::new(None, "cement_development.sqlite3");
    let _ = connection.connect(Err("database is locked".to_string()));
    assert_eq!(connection.connect(Ok(())), Ok(()));
    assert_eq!(connection.state, ConnectionState::Open);
}

#[test]
fn notice_for_a_bad_path() {
    let mut connection = Connection::new(Some("a\0b"), "");
    let _ = connection.connect(Ok(()));
    assert_eq!(
        connection.notice(),
        Some("Connection Error: the path holds a NUL character".to_string())
    );
    assert_eq!(
        ConnectionError::InvalidPath.message(),
        "the path holds a NUL character"
    );
}

#[test]
fn nul_is_found_anywhere_in_a_path() {
    assert!(contains_nul("\0"));
    assert!(contains_nul("\0start"));
    assert!(contains_nul("mid\0dle"));
    assert!(contains_nul("end\0"));
    assert!(contains_nul("caf\u{e9}\0"));
    assert!(!contains_nul(""));
    assert!(!contains_nul("cement_test.sqlite3"));
    assert!(!contains_nul("caf\u{e9} 0"));
}
