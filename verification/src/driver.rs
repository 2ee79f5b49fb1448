//! The engines that a connection can be opened to, and the names they go by
//! at the caller's boundary.

use vstd::prelude::*;

verus! {

/// The kind of engine behind a connection.
#[derive(Clone, Copy, Debug, PartialEq, Eq, Structural)]
pub enum DatabaseDriver {
    Postgres,
    MySQL,
    SQLite,
}

impl DatabaseDriver {
    /// The name that callers give this driver.
    pub open spec fn spec_name(self) -> Seq<char> {
        match self {
            DatabaseDriver::Postgres => "postgresql"@,
            DatabaseDriver::MySQL => "mysql"@,
            DatabaseDriver::SQLite => "sqlite"@,
        }
    }

    /// The driver that callers give this name, if it is the name of one.
    pub open spec fn spec_from_name(name: Seq<char>) -> Option<DatabaseDriver> {
        if name == "postgresql"@ {
            Some(DatabaseDriver::Postgres)
        } else if name == "mysql"@ {
            Some(DatabaseDriver::MySQL)
        } else if name == "sqlite"@ {
            Some(DatabaseDriver::SQLite)
        } else {
            None
        }
    }

    /// A driver is found again by its name, and a name that finds a driver
    /// is that driver's name.
    pub proof fn law_name_round_trip(driver: DatabaseDriver, name: Seq<char>)
        ensures
            DatabaseDriver::spec_from_name(driver.spec_name()) == Some(driver),
            DatabaseDriver::spec_from_name(name) == Some(driver) <==> name == driver.spec_name(),
    {
        reveal_strlit("postgresql");
        reveal_strlit("mysql");
        reveal_strlit("sqlite");
        assert("postgresql"@.len() == 10);
        assert("mysql"@.len() == 5);
        assert("sqlite"@.len() == 6);
    }

    /// The name that callers give this driver.
    pub fn name(&self) -> (name: &'static str)
        ensures
            name@ == self.spec_name(),
    {
        match self {
            DatabaseDriver::Postgres => "postgresql",
            DatabaseDriver::MySQL => "mysql",
            DatabaseDriver::SQLite => "sqlite",
        }
    }

    /// The driver that callers give this name, if it is the name of one.
    pub fn from_name(name: &str) -> (driver: Option<DatabaseDriver>)
        ensures
            driver == DatabaseDriver::spec_from_name(name@),
    {
        let name = name.to_owned();
        if name == "postgresql".to_owned() {
            Some(DatabaseDriver::Postgres)
        } else if name == "mysql".to_owned() {
            Some(DatabaseDriver::MySQL)
        } else if name == "sqlite".to_owned() {
            Some(DatabaseDriver::SQLite)
        } else {
            None
        }
    }
}

} // verus!
