//! How a database is to be opened: its path, whether it may be created or
//! written, and the pragma statements to run once it is open.
use vstd::prelude::*;
use crate::schema::opt_view;

verus! {

/// The journal mode of a database.
#[derive(Clone, Copy, Debug, PartialEq, Eq, Structural)]
pub enum JournalMode {
    Delete,
    Truncate,
    Persist,
    Memory,
    Wal,
    Off,
}

/// The synchronous setting of a database.
#[derive(Clone, Copy, Debug, PartialEq, Eq, Structural)]
pub enum Synchronous {
    Off,
    Normal,
    Full,
    Extra,
}

impl Default for JournalMode {
    fn default() -> (r: JournalMode)
        ensures
            r == JournalMode::Wal,
    {
        JournalMode::Wal
    }
}

impl Default for Synchronous {
    fn default() -> (r: Synchronous)
        ensures
            r == Synchronous::Normal,
    {
        Synchronous::Normal
    }
}

pub open spec fn journal_mode_name(m: JournalMode) -> Seq<char> {
    match m {
        JournalMode::Delete => "DELETE"@,
        JournalMode::Truncate => "TRUNCATE"@,
        JournalMode::Persist => "PERSIST"@,
        JournalMode::Memory => "MEMORY"@,
        JournalMode::Wal => "WAL"@,
        JournalMode::Off => "OFF"@,
    }
}

pub open spec fn synchronous_name(s: Synchronous) -> Seq<char> {
    match s {
        Synchronous::Off => "OFF"@,
        Synchronous::Normal => "NORMAL"@,
        Synchronous::Full => "FULL"@,
        Synchronous::Extra => "EXTRA"@,
    }
}

/// `PRAGMA <statement>;`
pub open spec fn pragma_text(statement: Seq<char>) -> Seq<char> {
    "PRAGMA "@ + statement + ";"@
}

/// `PRAGMA journal_mode = <MODE>;`
pub open spec fn journal_mode_text(m: JournalMode) -> Seq<char> {
    "PRAGMA journal_mode = "@ + journal_mode_name(m) + ";"@
}

/// `PRAGMA synchronous = <SETTING>;`
pub open spec fn synchronous_text(s: Synchronous) -> Seq<char> {
    "PRAGMA synchronous = "@ + synchronous_name(s) + ";"@
}

/// The pragma batch with `s` added at its end.
pub open spec fn add_pragma(p: Option<Seq<char>>, s: Seq<char>) -> Option<Seq<char>> {
    match p {
        Some(t) => Some(t + s),
        None => Some(s),
    }
}

/// The model of a connection's settings.
pub struct ConnectionModel {
    pub path: Seq<char>,
    pub create: bool,
    pub read_only: bool,
    pub pragma: Option<Seq<char>>,
}

/// The settings a database is opened with.
#[derive(Debug)]
pub struct Connection {
    path: String,
    create: bool,
    read_only: bool,
    pragma: Option<String>,
}

impl View for Connection {
    type V = ConnectionModel;

    closed spec fn view(&self) -> ConnectionModel {
        ConnectionModel {
            path: self.path@,
            create: self.create,
            read_only: self.read_only,
            pragma: opt_view(self.pragma),
        }
    }
}

/// The settings for `path`: created if missing, writable, no pragma.
pub fn connection(path: &str) -> (r: Connection)
    ensures
        r@ == (ConnectionModel { path: path@, create: true, read_only: false, pragma: None }),
{
    Connection::new(path)
}

impl Connection {
    /// The settings for `path`: created if missing, writable, no pragma.
    pub fn new(path: &str) -> (r: Connection)
        ensures
            r@ == (ConnectionModel { path: path@, create: true, read_only: false, pragma: None }),
    {
        Connection { path: String::from_str(path), create: true, read_only: false, pragma: None }
    }

    /// With `false`, the database is not created when it is missing; `true`
    /// changes nothing.
    pub fn create_if_missing(self, arg: bool) -> (r: Connection)
        ensures
            r@ == (ConnectionModel { create: self@.create && arg, ..self@ }),
    {
        let create = self.create && arg;
        Connection { create, ..self }
    }

    /// With `true`, the database is opened read-only; `false` changes nothing.
    pub fn read_only(self, arg: bool) -> (r: Connection)
        ensures
            r@ == (ConnectionModel { read_only: self@.read_only || arg, ..self@ }),
    {
        let read_only = self.read_only || arg;
        Connection { read_only, ..self }
    }

    fn push_pragma(self, s: String) -> (r: Connection)
        ensures
            r@ == (ConnectionModel { pragma: add_pragma(self@.pragma, s@), ..self@ }),
    {
        let pragma = match self.pragma {
            Some(p) => {
                let mut p = p;
                p.append(s.as_str());
                Some(p)
            },
            None => Some(s),
        };
        Connection { pragma, ..self }
    }

    /// Adds `PRAGMA <statement>;` to the batch run on opening.
    pub fn pragma(self, statement: &str) -> (r: Connection)
        ensures
            r@ == (ConnectionModel {
                pragma: add_pragma(self@.pragma, pragma_text(statement@)),
                ..self@
            }),
    {
        let mut s = String::from_str("PRAGMA ");
        s.append(statement);
        s.append(";");
        self.push_pragma(s)
    }

    /// Adds `PRAGMA journal_mode = <MODE>;` to the batch run on opening.
    pub fn journal_mode(self, mode: JournalMode) -> (r: Connection)
        ensures
            r@ == (ConnectionModel {
                pragma: add_pragma(self@.pragma, journal_mode_text(mode)),
                ..self@
            }),
    {
        let value = match mode {
            JournalMode::Delete => "DELETE",
            JournalMode::Truncate => "TRUNCATE",
            JournalMode::Persist => "PERSIST",
            JournalMode::Memory => "MEMORY",
            JournalMode::Wal => "WAL",
            JournalMode::Off => "OFF",
        };
        let mut s = String::from_str("PRAGMA journal_mode = ");
        s.append(value);
        s.append(";");
        self.push_pragma(s)
    }

    /// Adds `PRAGMA synchronous = <SETTING>;` to the batch run on opening.
    pub fn synchronous(self, sync: Synchronous) -> (r: Connection)
        ensures
            r@ == (ConnectionModel {
                pragma: add_pragma(self@.pragma, synchronous_text(sync)),
                ..self@
            }),
    {
        let value = match sync {
            Synchronous::Off => "OFF",
            Synchronous::Normal => "NORMAL",
            Synchronous::Full => "FULL",
            Synchronous::Extra => "EXTRA",
        };
        let mut s = String::from_str("PRAGMA synchronous = ");
        s.append(value);
        s.append(";");
        self.push_pragma(s)
    }

    /// The database path.
    pub fn path(&self) -> (r: &str)
        ensures
            r@ == self@.path,
    {
        self.path.as_str()
    }

    /// Whether a missing database is created.
    pub fn creates_if_missing(&self) -> (r: bool)
        ensures
            r == self@.create,
    {
        self.create
    }

    /// Whether the database is opened read-only.
    pub fn is_read_only(&self) -> (r: bool)
        ensures
            r == self@.read_only,
    {
        self.read_only
    }

    /// The pragma batch run on opening, if any.
    pub fn pragma_sql(&self) -> (r: Option<&str>)
        ensures
            r matches Some(p) ==> self@.pragma == Some(p@),
            r is None ==> self@.pragma is None,
    {
        match &self.pragma {
            Some(p) => Some(p.as_str()),
            None => None,
        }
    }
}

} // verus!
