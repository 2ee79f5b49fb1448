use sqlzen::{DatabaseDriver, Error, ErrorKind, Registry};

#[test]
fn error_kind_goes_by_origin() {
    assert_eq!(Error::Postgres("x".to_string()).kind(), ErrorKind::Engine);
    assert_eq!(Error::MySQL("x".to_string()).kind(), ErrorKind::Engine);
    assert_eq!(Error::SQLite { text: "x".to_string(), source: None }.kind(), ErrorKind::Engine);
    assert_eq!(Error::Io("x".to_string()).kind(), ErrorKind::Io);
    assert_eq!(Error::NotFound.kind(), ErrorKind::NotFound);
}

#[test]
fn error_message_is_the_text_it_carries() {
    assert_eq!(Error::Postgres("connection refused".to_string()).message(), "connection refused");
    assert_eq!(Error::MySQL("Access denied".to_string()).message(), "Access denied");
    assert_eq!(Error::Io("permission denied".to_string()).message(), "permission denied");
    assert_eq!(Error::Postgres(String::new()).message(), "");
}

#[test]
fn sqlite_error_message_prefers_the_cause() {
    let wrapped = Error::SQLite {
        text: "Error(\"no such table: t\")".to_string(),
        source: Some("no such table: t".to_string()),
    };
    assert_eq!(wrapped.message(), "no such table: t");
    let bare = Error::SQLite { text: "ConnectionClosed".to_string(), source: None };
    assert_eq!(bare.message(), "ConnectionClosed");
}

#[test]
fn not_found_message_is_fixed() {
    assert_eq!(Error::NotFound.message(), "client not found");
}

#[test]
fn query_on_a_key_never_connected_is_not_found() {
    let registry: Registry<u32> = Registry::new();
    assert_eq!(registry.query("main"), Err(Error::NotFound));
    assert_eq!(registry.query(""), Err(Error::NotFound));
    assert_eq!(registry.get("main"), None);
}

#[test]
fn connect_binds_the_key() {
    let mut registry: Registry<u32> = Registry::new();
    assert_eq!(registry.connect("main".to_string(), Ok(7)), Ok(()));
    assert_eq!(registry.query("main"), Ok(&7));
    assert_eq!(registry.query("other"), Err(Error::NotFound));
}

#[test]
fn failed_connect_binds_nothing() {
    let mut registry: Registry<u32> = Registry::new();
    let refused = Error::Postgres("connection refused".to_string());
    assert_eq!(registry.connect("main".to_string(), Err(refused.clone())), Err(refused));
    assert_eq!(registry.query("main"), Err(Error::NotFound));
}

#[test]
fn failed_connect_keeps_the_client_before() {
    let mut registry: Registry<u32> = Registry::new();
    registry.connect("main".to_string(), Ok(1)).unwrap();
    let refused = Error::MySQL("bad url".to_string());
    assert_eq!(registry.connect("main".to_string(), Err(refused.clone())), Err(refused));
    assert_eq!(registry.query("main"), Ok(&1));
}

#[test]
fn second_connect_replaces_the_first() {
    let mut registry: Registry<&'static str> = Registry::new();
    registry.connect("main".to_string(), Ok("first database")).unwrap();
    registry.connect("main".to_string(), Ok("second database")).unwrap();
    assert_eq!(registry.query("main"), Ok(&"second database"));
}

#[test]
fn keys_do_not_see_each_other() {
    let mut registry: Registry<&'static str> = Registry::new();
    registry.connect("a".to_string(), Ok("database a")).unwrap();
    registry.connect("b".to_string(), Ok("database b")).unwrap();
    registry.connect("a".to_string(), Ok("database a again")).unwrap();
    assert_eq!(registry.query("a"), Ok(&"database a again"));
    assert_eq!(registry.query("b"), Ok(&"database b"));
    registry.insert("c".to_string(), "database c");
    assert_eq!(registry.get("b"), Some(&"database b"));
    assert_eq!(registry.get("c"), Some(&"database c"));
}

#[test]
fn driver_names_round_trip() {
    assert_eq!(DatabaseDriver::Postgres.name(), "postgresql");
    assert_eq!(DatabaseDriver::MySQL.name(), "mysql");
    assert_eq!(DatabaseDriver::SQLite.name(), "sqlite");
    for driver in [DatabaseDriver::Postgres, DatabaseDriver::MySQL, DatabaseDriver::SQLite] {
        assert_eq!(DatabaseDriver::from_name(driver.name()), Some(driver));
    }
}

#[test]
fn unknown_driver_name_is_none() {
    assert_eq!(DatabaseDriver::from_name("postgres"), None);
    assert_eq!(DatabaseDriver::from_name("MySQL"), None);
    assert_eq!(DatabaseDriver::from_name(""), None);
    assert_eq!(DatabaseDriver::from_name("sqlite "), None);
}
