use sqlzen::{Error, ErrorKind};
use std::error::Error as StdError;
use tokio_rusqlite::rusqlite::Connection;

#[test]
fn mysql_error_carries_the_drivers_own_text() {
    let refused = mysql_async::Opts::from_url("postgres://localhost/db").expect_err("wrong scheme");
    let driver = mysql_async::Error::from(refused);
    let error = Error::from_mysql(&driver);
    assert_eq!(error, Error::MySQL(driver.to_string()));
    assert_eq!(error.message(), driver.to_string());
    assert!(!error.message().is_empty());
    assert_eq!(error.kind(), ErrorKind::Engine);
}

#[test]
fn mysql_errors_of_different_causes_have_different_text() {
    let scheme = mysql_async::Error::from(
        mysql_async::Opts::from_url("postgres://localhost/db").expect_err("wrong scheme"),
    );
    let parameter = mysql_async::Error::from(
        mysql_async::Opts::from_url("mysql://localhost/db?no_such_parameter=1")
            .expect_err("unknown parameter"),
    );
    assert_ne!(Error::from_mysql(&scheme).message(), Error::from_mysql(&parameter).message());
}

#[test]
fn postgres_error_carries_the_drivers_own_text() {
    let driver = match "host=localhost port=not-a-port".parse::<tokio_postgres::Config>() {
        Ok(_) => panic!("a malformed configuration was taken"),
        Err(e) => e,
    };
    let error = Error::from_postgres(&driver);
    assert_eq!(error, Error::Postgres(driver.to_string()));
    assert_eq!(error.message(), driver.to_string());
    assert!(!error.message().is_empty());
    assert_eq!(error.kind(), ErrorKind::Engine);
}

#[test]
fn sqlite_error_carries_the_drivers_text_and_the_engines() {
    let db = Connection::open_in_memory().expect("an in-memory database opens");
    let engine = db.prepare("SELEKT 1").map(|_| ()).expect_err("the statement is refused");
    let engine_text = engine.to_string();
    let driver = tokio_rusqlite::Error::from(engine);
    let driver_text = driver.to_string();
    let cause_text = driver.source().map(|cause| cause.to_string());
    assert_eq!(cause_text, Some(engine_text.clone()));

    let error = Error::from_sqlite(&driver);
    assert_eq!(error, Error::SQLite { text: driver_text.clone(), source: cause_text });
    assert_eq!(error.message(), engine_text);
    assert_ne!(error.message(), driver_text);
    assert_eq!(error.kind(), ErrorKind::Engine);
}

#[test]
fn sqlite_error_without_a_cause_shows_the_drivers_text() {
    let driver: tokio_rusqlite::Error = tokio_rusqlite::Error::ConnectionClosed;
    assert!(driver.source().is_none());
    let error = Error::from_sqlite(&driver);
    assert_eq!(error, Error::SQLite { text: driver.to_string(), source: None });
    assert_eq!(error.message(), driver.to_string());
}

#[test]
fn failure_to_open_a_database_file_is_an_io_error() {
    let engine = match Connection::open("/no/such/directory/for/this/database.db") {
        Ok(_) => panic!("a database opened where there is no directory"),
        Err(e) => e,
    };
    let error = Error::from_open(&engine);
    assert_eq!(error, Error::Io(engine.to_string()));
    assert_eq!(error.message(), engine.to_string());
    assert_eq!(error.kind(), ErrorKind::Io);
}

#[test]
fn constructors_keep_the_text_they_are_given() {
    assert_eq!(Error::mysql("Access denied".to_string()), Error::MySQL("Access denied".to_string()));
    assert_eq!(Error::io("no such file".to_string()), Error::Io("no such file".to_string()));
    assert_eq!(
        Error::sqlite("outer".to_string(), Some("inner".to_string())),
        Error::SQLite { text: "outer".to_string(), source: Some("inner".to_string()) }
    );
    assert_eq!(
        Error::sqlite("alone".to_string(), None),
        Error::SQLite { text: "alone".to_string(), source: None }
    );
    assert_eq!(Error::sqlite("outer".to_string(), Some("inner".to_string())).message(), "inner");
}
