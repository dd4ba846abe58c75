//! The rules of the Docker provisioner: names, `docker` command lines, and the connection
//! string of a tenant database container.

use crate::text::{
    decimal, decimal_text, split_by, split_on, texts, trim, trimmed, chars_of,
    string_from_chars, lemma_split_on_nonempty,
};
use vstd::prelude::*;
use vstd::string::*;

verus! {

/// A failure provisioning a container.
#[derive(Debug, Clone)]
pub struct DockerProvisionError {
    message: String,
}

impl DockerProvisionError {
    pub closed spec fn text(&self) -> Seq<char> {
        self.message@
    }

    pub fn new(message: String) -> (e: DockerProvisionError)
        ensures
            e.text() == message@,
    {
        DockerProvisionError { message }
    }

    pub fn message(&self) -> (m: &str)
        ensures
            m@ == self.text(),
    {
        self.message.as_str()
    }
}

/// A provisioned tenant database.
#[derive(Debug, Clone)]
pub struct ProvisionedDb {
    pub connection_string: String,
    pub container_id: String,
}

/// The tenant name with hyphens turned into underscores.
pub open spec fn safe_name_text(s: Seq<char>) -> Seq<char> {
    s.map_values(|c: char| if c == '-' { '_' } else { c })
}

/// Turns the hyphens of a tenant name into underscores.
pub fn safe_tenant_name(tenant_name: &str) -> (s: String)
    ensures
        s@ == safe_name_text(tenant_name@),
{
    let chars = chars_of(tenant_name);
    let mut out: Vec<char> = Vec::new();
    let mut i: usize = 0;
    while i < chars.len()
        invariant
            i <= chars.len(),
            chars@ == tenant_name@,
            out@ == safe_name_text(tenant_name@.subrange(0, i as int)),
        decreases chars.len() - i,
    {
        let c = chars[i];
        out.push(if c == '-' { '_' } else { c });
        i = i + 1;
        assert(out@ =~= safe_name_text(tenant_name@.subrange(0, i as int)));
    }
    assert(tenant_name@.subrange(0, chars.len() as int) =~= tenant_name@);
    string_from_chars(&out)
}

/// The container of a tenant database: `tenant-db-<safe name>`.
pub fn tenant_container_name(safe_name: &str) -> (s: String)
    ensures
        s@ == "tenant-db-"@ + safe_name@,
{
    String::from_str("tenant-db-").concat(safe_name)
}

/// The database name: the configured prefix and the safe name.
pub fn tenant_db_name(prefix: &str, safe_name: &str) -> (s: String)
    ensures
        s@ == prefix@ + safe_name@,
{
    String::from_str(prefix).concat(safe_name)
}

/// The decimal text of a signed number.
pub open spec fn int_text(i: int) -> Seq<char> {
    if i < 0 {
        "-"@ + decimal_text((-i) as nat)
    } else {
        decimal_text(i as nat)
    }
}

/// The decimal text of a signed number (its `Display`).
pub fn signed_decimal(i: i64) -> (s: String)
    ensures
        s@ == int_text(i as int),
{
    if i < 0 {
        let magnitude: u64 = (-(i as i128)) as u64;
        String::from_str("-").concat(decimal(magnitude).as_str())
    } else {
        decimal(i as u64)
    }
}

/// The arguments of `docker run` for a tenant database container.
pub open spec fn run_args_text(
    container_name: Seq<char>,
    network: Seq<char>,
    db_user: Seq<char>,
    password: Seq<char>,
    db_name: Seq<char>,
    memory_mb: Option<i64>,
    cpu_arg: Option<Seq<char>>,
    image: Seq<char>,
) -> Seq<Seq<char>> {
    seq![
        "run"@,
        "-d"@,
        "--name"@,
        container_name,
        "--network"@,
        network,
        "-e"@,
        "POSTGRES_USER="@ + db_user,
        "-e"@,
        "POSTGRES_PASSWORD="@ + password,
        "-e"@,
        "POSTGRES_DB="@ + db_name,
        "-p"@,
        "0:5432"@,
    ] + match memory_mb {
        Some(m) => seq!["--memory"@, int_text(m as int) + "m"@],
        None => Seq::empty(),
    } + match cpu_arg {
        Some(c) => seq!["--cpus"@, c],
        None => Seq::empty(),
    } + seq![image]
}

/// The arguments of `docker run` for a tenant database container; the CPU limit comes
/// already written as text.
pub fn run_args(
    container_name: &str,
    network: &str,
    db_user: &str,
    password: &str,
    db_name: &str,
    memory_mb: Option<i64>,
    cpu_arg: Option<&str>,
    image: &str,
) -> (args: Vec<String>)
    ensures
        texts(args@) == run_args_text(
            container_name@,
            network@,
            db_user@,
            password@,
            db_name@,
            memory_mb,
            match cpu_arg {
                Some(c) => Some(c@),
                None => None,
            },
            image@,
        ),
{
    let mut args: Vec<String> = Vec::new();
    args.push(String::from_str("run"));
    args.push(String::from_str("-d"));
    args.push(String::from_str("--name"));
    args.push(String::from_str(container_name));
    args.push(String::from_str("--network"));
    args.push(String::from_str(network));
    args.push(String::from_str("-e"));
    args.push(String::from_str("POSTGRES_USER=").concat(db_user));
    args.push(String::from_str("-e"));
    args.push(String::from_str("POSTGRES_PASSWORD=").concat(password));
    args.push(String::from_str("-e"));
    args.push(String::from_str("POSTGRES_DB=").concat(db_name));
    args.push(String::from_str("-p"));
    args.push(String::from_str("0:5432"));
    let ghost base = texts(args@);
    if let Some(m) = memory_mb {
        args.push(String::from_str("--memory"));
        args.push(signed_decimal(m).concat("m"));
    }
    let ghost with_memory = texts(args@);
    if let Some(c) = cpu_arg {
        args.push(String::from_str("--cpus"));
        args.push(String::from_str(c));
    }
    let ghost with_cpu = texts(args@);
    args.push(String::from_str(image));
    assert(texts(args@) =~= with_cpu.push(image@));
    assert(with_memory =~= base + match memory_mb {
        Some(m) => seq!["--memory"@, int_text(m as int) + "m"@],
        None => Seq::<Seq<char>>::empty(),
    });
    assert(with_cpu =~= with_memory + match cpu_arg {
        Some(c) => seq!["--cpus"@, c@],
        None => Seq::<Seq<char>>::empty(),
    });
    args
}

/// `docker port <container> 5432/tcp`.
pub fn port_args(container_id: &str) -> (args: Vec<String>)
    ensures
        texts(args@) == seq!["port"@, trimmed(container_id@), "5432/tcp"@],
{
    let mut args: Vec<String> = Vec::new();
    args.push(String::from_str("port"));
    args.push(trim(container_id));
    args.push(String::from_str("5432/tcp"));
    assert(texts(args@) =~= seq!["port"@, trimmed(container_id@), "5432/tcp"@]);
    args
}

/// The host port of a `docker port` answer such as `0.0.0.0:49153`: what follows the last
/// colon, trimmed.
pub open spec fn port_text(mapping: Seq<char>) -> Seq<char> {
    trimmed(split_on(trimmed(mapping), ':').last())
}

/// Reads the host port out of a `docker port` answer.
pub fn parse_port(mapping: &str) -> (p: Option<String>)
    ensures
        p matches Some(v) && v@ == port_text(mapping@),
{
    let t = trim(mapping);
    let parts = split_by(t.as_str(), ':');
    proof {
        lemma_split_on_nonempty(t@, ':');
    }
    let last = parts.len() - 1;
    assert(texts(parts@)[last as int] == parts@[last as int]@);
    Some(trim(parts[last].as_str()))
}

/// `postgres://<user>:<password>@<host>:<port>/<database>`.
pub fn tenant_connection_string(
    db_user: &str,
    password: &str,
    host: &str,
    port: &str,
    db_name: &str,
) -> (s: String)
    ensures
        s@ == "postgres://"@ + db_user@ + ":"@ + password@ + "@"@ + host@ + ":"@ + port@ + "/"@
            + db_name@,
{
    String::from_str("postgres://").concat(db_user).concat(":").concat(password).concat(
        "@",
    ).concat(host).concat(":").concat(port).concat("/").concat(db_name)
}

} // verus!
