//! Where the main database is and where tenant database files live.

use crate::provisioning::infrastructure::persistence::sqlite::sqlite_database_provisioner::sqlite_connection_text;
use crate::shared::paths::{joined_path, path_join};
use vstd::prelude::*;
use vstd::string::*;

verus! {

/// The main database's connection string and the directory of tenant database files.
#[derive(Clone, Debug)]
pub struct ConnectionManager {
    data_dir: String,
    main_db_url: String,
}

impl ConnectionManager {
    pub closed spec fn dir(&self) -> Seq<char> {
        self.data_dir@
    }

    pub closed spec fn main_url(&self) -> Seq<char> {
        self.main_db_url@
    }

    pub fn new(main_db_url: String, data_dir: String) -> (m: Self)
        ensures
            m.main_url() == main_db_url@,
            m.dir() == data_dir@,
    {
        ConnectionManager { main_db_url, data_dir }
    }

    pub fn get_data_dir(&self) -> (d: &str)
        ensures
            d@ == self.dir(),
    {
        self.data_dir.as_str()
    }

    pub fn main_db_url(&self) -> (u: &str)
        ensures
            u@ == self.main_url(),
    {
        self.main_db_url.as_str()
    }

    /// The connection string of a tenant's database file `<schema_name>.db`.
    pub fn tenant_connection_string(&self, schema_name: &str) -> (s: String)
        ensures
            s@ == sqlite_connection_text(joined_path(self.dir(), schema_name@ + ".db"@)),
    {
        let file = String::from_str(schema_name).concat(".db");
        let path = path_join(self.data_dir.as_str(), file.as_str());
        String::from_str("sqlite://").concat(path.as_str()).concat("?mode=rwc")
    }
}

} // verus!
