use rizz::{connection, Connection, Error, JournalMode, Synchronous};

#[test]
fn pragmas_accumulate_in_order() {
    let c = Connection::new("db.sqlite")
        .journal_mode(JournalMode::Wal)
        .synchronous(Synchronous::Normal)
        .pragma("foreign_keys = ON");
    assert_eq!(
        c.pragma_sql(),
        Some("PRAGMA journal_mode = WAL;PRAGMA synchronous = NORMAL;PRAGMA foreign_keys = ON;")
    );
    assert_eq!(c.path(), "db.sqlite");
    let d = connection(":memory:");
    assert_eq!(d.pragma_sql(), None);
    assert!(d.creates_if_missing());
    assert!(!d.is_read_only());
}

#[test]
fn journal_and_sync_names() {
    let c = connection("x")
        .journal_mode(JournalMode::Delete)
        .journal_mode(JournalMode::Truncate)
        .journal_mode(JournalMode::Persist)
        .journal_mode(JournalMode::Memory)
        .journal_mode(JournalMode::Off)
        .synchronous(Synchronous::Off)
        .synchronous(Synchronous::Full)
        .synchronous(Synchronous::Extra);
    assert_eq!(
        c.pragma_sql(),
        Some("PRAGMA journal_mode = DELETE;PRAGMA journal_mode = TRUNCATE;PRAGMA journal_mode = PERSIST;PRAGMA journal_mode = MEMORY;PRAGMA journal_mode = OFF;PRAGMA synchronous = OFF;PRAGMA synchronous = FULL;PRAGMA synchronous = EXTRA;")
    );
    assert_eq!(JournalMode::default(), JournalMode::Wal);
    assert_eq!(Synchronous::default(), Synchronous::Normal);
}

#[test]
fn open_flags_only_narrow() {
    let c = connection("x").create_if_missing(false).create_if_missing(true);
    assert!(!c.creates_if_missing());
    let c = connection("x").read_only(true).read_only(false);
    assert!(c.is_read_only());
}

#[test]
fn error_messages() {
    assert_eq!(Error::ConnectionClosed.message(), "database connection closed");
    assert_eq!(Error::Close("x".into()).message(), "database connection closing: x");
    assert_eq!(Error::Database("boom".into()).message(), "database error: boom");
    assert_eq!(Error::MissingFrom.message(), "missing from statement in sql query");
    assert_eq!(Error::InsertError("s".into()).message(), "error inserting record s");
}
