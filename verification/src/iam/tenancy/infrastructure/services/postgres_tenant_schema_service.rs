//! The SQL that creates and drops a tenant's schema.

use vstd::prelude::*;
use vstd::string::*;
use crate::text::seq_contains;

verus! {

/// Creates the schema when it does not exist yet.
pub open spec fn create_schema_sql_text(schema_name: Seq<char>) -> Seq<char> {
    "CREATE SCHEMA IF NOT EXISTS \""@ + schema_name + "\""@
}

/// Columns of a tenant's `users` table.
pub open spec fn users_table_columns_text() -> Seq<char> {
    "(id uuid PRIMARY KEY,email varchar NOT NULL UNIQUE,password_hash varchar NOT NULL,auth_provider varchar NOT NULL DEFAULT 'Email',role varchar NOT NULL DEFAULT 'user',created_at timestamptz NOT NULL,updated_at timestamptz NOT NULL)"@
}

/// Creates the tenant's `users` table when it does not exist yet.
pub open spec fn create_users_table_sql_text(schema_name: Seq<char>) -> Seq<char> {
    "CREATE TABLE IF NOT EXISTS \""@ + schema_name + "\".users "@ + users_table_columns_text()
}

/// Drops the schema and everything in it, when it exists.
pub open spec fn drop_schema_sql_text(schema_name: Seq<char>) -> Seq<char> {
    "DROP SCHEMA IF EXISTS \""@ + schema_name + "\" CASCADE"@
}

pub fn create_schema_sql(schema_name: &str) -> (s: String)
    ensures
        s@ == create_schema_sql_text(schema_name@),
{
    String::from_str("CREATE SCHEMA IF NOT EXISTS \"").concat(schema_name).concat("\"")
}

pub fn create_users_table_sql(schema_name: &str) -> (s: String)
    ensures
        s@ == create_users_table_sql_text(schema_name@),
        s@ == "CREATE TABLE IF NOT EXISTS \""@ + schema_name@ + "\".users "@
            + "(id uuid PRIMARY KEY,email varchar NOT NULL UNIQUE,password_hash varchar NOT NULL,auth_provider varchar NOT NULL DEFAULT 'Email',"@
            + "role varchar NOT NULL DEFAULT 'user'"@
            + ",created_at timestamptz NOT NULL,updated_at timestamptz NOT NULL)"@,
{
    proof {
        lemma_users_table_columns();
    }
    String::from_str("CREATE TABLE IF NOT EXISTS \"").concat(schema_name).concat(
        "\".users ",
    ).concat(
        "(id uuid PRIMARY KEY,email varchar NOT NULL UNIQUE,password_hash varchar NOT NULL,auth_provider varchar NOT NULL DEFAULT 'Email',role varchar NOT NULL DEFAULT 'user',created_at timestamptz NOT NULL,updated_at timestamptz NOT NULL)",
    )
}

/// The columns of the users table, column group by column group: the role column comes with
/// the default `'user'`.
proof fn lemma_users_table_columns()
    ensures
        users_table_columns_text()
            == "(id uuid PRIMARY KEY,email varchar NOT NULL UNIQUE,password_hash varchar NOT NULL,auth_provider varchar NOT NULL DEFAULT 'Email',"@
            + "role varchar NOT NULL DEFAULT 'user'"@
            + ",created_at timestamptz NOT NULL,updated_at timestamptz NOT NULL)"@,
{
    reveal_strlit("(id uuid PRIMARY KEY,email varchar NOT NULL UNIQUE,password_hash varchar NOT NULL,auth_provider varchar NOT NULL DEFAULT 'Email',role varchar NOT NULL DEFAULT 'user',created_at timestamptz NOT NULL,updated_at timestamptz NOT NULL)");
    reveal_strlit("(id uuid PRIMARY KEY,email varchar NOT NULL UNIQUE,password_hash varchar NOT NULL,auth_provider varchar NOT NULL DEFAULT 'Email',");
    reveal_strlit("role varchar NOT NULL DEFAULT 'user'");
    reveal_strlit(",created_at timestamptz NOT NULL,updated_at timestamptz NOT NULL)");
    assert(users_table_columns_text()
        =~= "(id uuid PRIMARY KEY,email varchar NOT NULL UNIQUE,password_hash varchar NOT NULL,auth_provider varchar NOT NULL DEFAULT 'Email',"@
        + "role varchar NOT NULL DEFAULT 'user'"@
        + ",created_at timestamptz NOT NULL,updated_at timestamptz NOT NULL)"@);
}

/// Whatever the schema's name, the users table it is created with gives the role column the
/// default `'user'`: a user inserted without a role is an ordinary user, not an admin.
pub proof fn lemma_users_table_role_defaults_to_user(schema_name: Seq<char>)
    ensures
        seq_contains(create_users_table_sql_text(schema_name), "role varchar NOT NULL DEFAULT 'user'"@),
{
    lemma_users_table_columns();
    let a = "CREATE TABLE IF NOT EXISTS \""@ + schema_name + "\".users "@
        + "(id uuid PRIMARY KEY,email varchar NOT NULL UNIQUE,password_hash varchar NOT NULL,auth_provider varchar NOT NULL DEFAULT 'Email',"@;
    let role = "role varchar NOT NULL DEFAULT 'user'"@;
    let rest = ",created_at timestamptz NOT NULL,updated_at timestamptz NOT NULL)"@;
    let t = create_users_table_sql_text(schema_name);
    assert(t =~= a + role + rest);
    assert(t.subrange(a.len() as int, (a.len() + role.len()) as int) =~= role);
}

pub fn drop_schema_sql(schema_name: &str) -> (s: String)
    ensures
        s@ == drop_schema_sql_text(schema_name@),
{
    String::from_str("DROP SCHEMA IF EXISTS \"").concat(schema_name).concat("\" CASCADE")
}

} // verus!
