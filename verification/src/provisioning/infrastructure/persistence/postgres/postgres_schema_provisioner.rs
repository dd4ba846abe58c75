//! PostgreSQL provisioning: one database per tenant on the server of the base connection.

use crate::provisioning::domain::error::DomainError;
use crate::text::{decimal, decimal_text, double_char, doubled};
use vstd::prelude::*;
use vstd::string::*;

verus! {

/// Provisions tenant databases on the server that `base_connection_string` points at.
#[derive(Debug, Clone)]
pub struct PostgresSchemaProvisioner {
    base_connection_string: String,
}

/// An SQL identifier in double quotes, inner double quotes doubled.
pub open spec fn quoted_ident(ident: Seq<char>) -> Seq<char> {
    "\""@ + doubled(ident, '"') + "\""@
}

/// Name for what the `url` crate gives when it parses `base`, sets its path to `path` and
/// writes it back as text: the text, or the text of the parse error.
pub uninterp spec fn url_with_path_outcome(base: Seq<char>, path: Seq<char>) -> Result<
    Seq<char>,
    Seq<char>,
>;

/// Calls `url::Url::parse`, then `url::Url::set_path` and the URL's `Display`; a parse error
/// is turned into its display text.
#[verifier::external_body]
pub fn url_with_path(base: &str, path: &str) -> (r: Result<String, String>)
    ensures
        match r {
            Ok(s) => url_with_path_outcome(base@, path@) == Ok::<Seq<char>, Seq<char>>(s@),
            Err(m) => url_with_path_outcome(base@, path@) == Err::<Seq<char>, Seq<char>>(m@),
        },
{
    match url::Url::parse(base) {
        Ok(mut parsed) => {
            parsed.set_path(path);
            Ok(parsed.to_string())
        },
        Err(e) => Err(e.to_string()),
    }
}

impl PostgresSchemaProvisioner {
    pub closed spec fn base(&self) -> Seq<char> {
        self.base_connection_string@
    }

    pub fn new(base_connection_string: String) -> (p: Self)
        ensures
            p.base() == base_connection_string@,
    {
        PostgresSchemaProvisioner { base_connection_string }
    }

    pub fn base_connection_string(&self) -> (s: &str)
        ensures
            s@ == self.base(),
    {
        self.base_connection_string.as_str()
    }

    /// Quotes an identifier for SQL.
    pub fn quote_ident(ident: &str) -> (q: String)
        ensures
            q@ == quoted_ident(ident@),
    {
        String::from_str("\"").concat(double_char(ident, '"').as_str()).concat("\"")
    }

    /// The connection string of a tenant database: the base one with its path replaced by
    /// `/<database_name>`.
    pub fn with_database_name(base_connection_string: &str, database_name: &str) -> (r: Result<
        String,
        DomainError,
    >)
        ensures
            match url_with_path_outcome(base_connection_string@, "/"@ + database_name@) {
                Ok(s) => r matches Ok(c) && c@ == s,
                Err(m) => r matches Err(DomainError::InfrastructureError(e)) && e@
                    == "Invalid DATABASE_URL: "@ + m,
            },
    {
        let path = String::from_str("/").concat(database_name);
        match url_with_path(base_connection_string, path.as_str()) {
            Ok(s) => Ok(s),
            Err(m) => Err(
                DomainError::InfrastructureError(
                    String::from_str("Invalid DATABASE_URL: ").concat(m.as_str()),
                ),
            ),
        }
    }

    /// `CREATE DATABASE` for the quoted name.
    pub fn create_database_sql(database_name: &str) -> (s: String)
        ensures
            s@ == "CREATE DATABASE "@ + quoted_ident(database_name@),
    {
        String::from_str("CREATE DATABASE ").concat(Self::quote_ident(database_name).as_str())
    }

    /// Ends every other session on the database; the name is an SQL string literal with its
    /// single quotes doubled.
    pub fn terminate_connections_sql(database_name: &str) -> (s: String)
        ensures
            s@ == "SELECT pg_terminate_backend(pid) FROM pg_stat_activity WHERE datname = '"@
                + doubled(database_name@, '\'') + "' AND pid <> pg_backend_pid()"@,
    {
        String::from_str(
            "SELECT pg_terminate_backend(pid) FROM pg_stat_activity WHERE datname = '",
        ).concat(double_char(database_name, '\'').as_str()).concat(
            "' AND pid <> pg_backend_pid()",
        )
    }

    /// `DROP DATABASE IF EXISTS` for the quoted name.
    pub fn drop_database_sql(database_name: &str) -> (s: String)
        ensures
            s@ == "DROP DATABASE IF EXISTS "@ + quoted_ident(database_name@),
    {
        String::from_str("DROP DATABASE IF EXISTS ").concat(
            Self::quote_ident(database_name).as_str(),
        )
    }
}

/// An infrastructure failure: what was attempted, then the cause.
pub fn infrastructure_failure(attempted: &str, cause: &str) -> (e: DomainError)
    ensures
        e matches DomainError::InfrastructureError(m) && m@ == attempted@ + ": "@ + cause@,
{
    DomainError::InfrastructureError(String::from_str(attempted).concat(": ").concat(cause))
}

/// A connection attempt budget: how many attempts in all, how many made, the last error.
pub struct ConnectRetry {
    attempts: u64,
    tried: u64,
    last_error: Option<String>,
}

/// The text given when every attempt failed.
pub open spec fn retry_exhausted_text(attempts: nat, last_error: Option<Seq<char>>) -> Seq<char> {
    "Failed to connect to DB after "@ + decimal_text(attempts) + " attempts: "@ + match last_error {
        Some(e) => e,
        None => "unknown error"@,
    }
}

impl ConnectRetry {
    pub closed spec fn total(&self) -> nat {
        self.attempts as nat
    }

    pub closed spec fn made(&self) -> nat {
        self.tried as nat
    }

    pub closed spec fn last(&self) -> Option<Seq<char>> {
        match self.last_error {
            Some(e) => Some(e@),
            None => None,
        }
    }

    pub open spec fn wf(&self) -> bool {
        self.made() <= self.total()
    }

    /// A budget of `attempts` tries, none made yet.
    pub fn new(attempts: u64) -> (r: Self)
        ensures
            r.total() == attempts,
            r.made() == 0,
            r.last() is None,
            r.wf(),
    {
        ConnectRetry { attempts, tried: 0, last_error: None }
    }

    /// Whether another attempt may be made.
    pub fn may_attempt(&self) -> (b: bool)
        ensures
            b == (self.made() < self.total()),
    {
        self.tried < self.attempts
    }

    /// Records a failed attempt; the caller then waits before the next one.
    pub fn record_failure(&mut self, error: String)
        requires
            old(self).made() < old(self).total(),
        ensures
            final(self).total() == old(self).total(),
            final(self).made() == old(self).made() + 1,
            final(self).last() == Some(error@),
            final(self).wf(),
    {
        self.tried = self.tried + 1;
        self.last_error = Some(error);
    }

    /// The message once every attempt failed.
    pub fn exhausted_message(&self) -> (m: String)
        ensures
            m@ == retry_exhausted_text(self.total(), self.last()),
    {
        let count = decimal(self.attempts);
        let reason = match &self.last_error {
            Some(e) => e.clone(),
            None => String::from_str("unknown error"),
        };
        String::from_str("Failed to connect to DB after ").concat(count.as_str()).concat(
            " attempts: ",
        ).concat(reason.as_str())
    }
}

} // verus!
