//! SQLite provisioning: one database file per tenant in a data directory.

use crate::shared::paths::{joined_path, path_join};
use vstd::prelude::*;
use vstd::string::*;

verus! {

/// Provisions tenant database files under `data_dir`.
#[derive(Debug, Clone)]
pub struct SqliteDatabaseProvisioner {
    data_dir: String,
}

/// The connection string that opens (and creates) a SQLite file.
pub open spec fn sqlite_connection_text(path: Seq<char>) -> Seq<char> {
    "sqlite://"@ + path + "?mode=rwc"@
}

impl SqliteDatabaseProvisioner {
    pub closed spec fn dir(&self) -> Seq<char> {
        self.data_dir@
    }

    pub fn new(data_dir: String) -> (p: Self)
        ensures
            p.dir() == data_dir@,
    {
        SqliteDatabaseProvisioner { data_dir }
    }

    /// The file of a tenant database: `<schema_name>.db` inside the data directory.
    pub fn get_db_path(&self, schema_name: &str) -> (p: String)
        ensures
            p@ == joined_path(self.dir(), schema_name@ + ".db"@),
    {
        let file = String::from_str(schema_name).concat(".db");
        path_join(self.data_dir.as_str(), file.as_str())
    }

    /// The connection string of a tenant database file.
    pub fn get_connection_string(&self, schema_name: &str) -> (s: String)
        ensures
            s@ == sqlite_connection_text(joined_path(self.dir(), schema_name@ + ".db"@)),
    {
        let path = self.get_db_path(schema_name);
        String::from_str("sqlite://").concat(path.as_str()).concat("?mode=rwc")
    }
}

} // verus!
