use auth_service::shared::crypto::{hex_encode, random_alphanumeric, random_bytes_32, sha256};
use auth_service::shared::infrastructure::persistence::postgres::migrations::{
    is_applied, is_sql_file_name, pending_migrations, record_migration_sql, sorted_sql_files,
};
use auth_service::shared::infrastructure::persistence::sqlite::connection_manager::ConnectionManager;
use auth_service::shared::infrastructure::services::account_lockout::{
    failure_counter_key, failure_keys, failure_response, global_lock_key, ip_lock_key,
    lock_status, reset_keys, LockoutError, FAILURE_WINDOW_SECONDS,
};
use auth_service::shared::infrastructure::services::docker_provisioner::{
    parse_port, port_args, run_args, safe_tenant_name, signed_decimal, tenant_connection_string,
    tenant_container_name, tenant_db_name, DockerProvisionError,
};
use auth_service::shared::infrastructure::services::vault_client::{
    approle_login_url, is_auth_error, kv_data_url, kv_metadata_url, request_failure,
    retry_with_fresh_token, VaultError,
};
use auth_service::shared::interfaces::cli::argument_flag_parser::{optional_flag, required_flag};
use auth_service::shared::interfaces::rest::configuration::web_configuration::WebConfiguration;
use auth_service::shared::interfaces::rest::middleware::{
    choose_client_ip, excess_counter_key, excess_response, forwarded_for_candidate,
    normalize_origin, origin_allowed, parse_admin_origins, rate_limit_plan,
};
use auth_service::shared::infrastructure::services::rate_limiter::{
    take_tokens, BucketDecision, BucketState,
};
use auth_service::shared::infrastructure::services::account_lockout::breaker_gate;
use auth_service::shared::infrastructure::services::circuit_breaker::CircuitBreaker;
use auth_service::shared::interfaces::rest::middleware::{
    ban_verdict, limit_verdict, LimitOutcome, LimitVerdict, DOCS_DISABLED_STATUS,
};
use auth_service::shared::paths::path_join;
use auth_service::shared::uuids::{parse_uuid, random_uuid_v4, uuid_hyphenated, uuid_simple};

fn strings(items: &[&str]) -> Vec<String> {
    items.iter().map(|s| s.to_string()).collect()
}

#[test]
fn uuid_texts_of_known_value() {
    let bits: u128 = 0x550e8400_e29b_41d4_a716_446655440000;
    assert_eq!(uuid_simple(bits), "550e8400e29b41d4a716446655440000");
    assert_eq!(uuid_hyphenated(bits), "550e8400-e29b-41d4-a716-446655440000");
    assert_eq!(uuid_simple(0), "00000000000000000000000000000000");
}

#[test]
fn parse_uuid_accepts_hyphenated_and_rejects_garbage() {
    assert_eq!(
        parse_uuid("550e8400-e29b-41d4-a716-446655440000"),
        Ok(0x550e8400_e29b_41d4_a716_446655440000)
    );
    assert!(parse_uuid("not-a-uuid").is_err());
    assert!(parse_uuid("").is_err());
}

#[test]
fn random_uuid_is_version_four() {
    let bits = random_uuid_v4();
    assert_ne!(bits, 0);
    assert_eq!((bits >> 76) & 0xf, 4);
    assert_eq!((bits >> 62) & 0x3, 2);
}

#[test]
fn hex_encode_is_lowercase_hex() {
    assert_eq!(hex_encode(&[0x00, 0xab, 0xff, 0x10]), "00abff10");
    assert_eq!(hex_encode(&[]), "");
}

#[test]
fn sha256_of_abc() {
    let d = sha256(b"abc");
    assert_eq!(d.len(), 32);
    assert_eq!(
        hex_encode(&d),
        "ba7816bf8f01cfea414140de5dae2223b00361a396177a9cb410ff61f20015ad"
    );
}

#[test]
fn random_material_has_requested_shape() {
    assert_eq!(random_bytes_32().len(), 32);
    let s = random_alphanumeric(24);
    assert_eq!(s.chars().count(), 24);
    assert!(s.chars().all(|c| c.is_ascii_alphanumeric()));
}

#[test]
fn path_join_joins_with_separator() {
    assert_eq!(path_join("/data/tenants", "tenant_a.db"), "/data/tenants/tenant_a.db");
    assert_eq!(path_join("/data/", "x.db"), "/data/x.db");
}

#[test]
fn connection_manager_paths() {
    let m = ConnectionManager::new("sqlite://main.db".to_string(), "/var/data".to_string());
    assert_eq!(m.get_data_dir(), "/var/data");
    assert_eq!(m.main_db_url(), "sqlite://main.db");
    assert_eq!(
        m.tenant_connection_string("tenant_abc"),
        "sqlite:///var/data/tenant_abc.db?mode=rwc"
    );
}

#[test]
fn flag_parser_finds_first_value() {
    let args = strings(&["--name", "acme", "--name", "other", "--flag"]);
    assert_eq!(optional_flag(&args, "--name"), Some("acme".to_string()));
    assert_eq!(optional_flag(&args, "--flag"), None);
    assert_eq!(optional_flag(&args, "--missing"), None);
    assert_eq!(required_flag(&args, "--name"), Ok("acme".to_string()));
    assert_eq!(
        required_flag(&args, "--tenant-id"),
        Err("Missing required flag: --tenant-id".to_string())
    );
}

#[test]
fn flag_value_may_itself_look_like_a_flag() {
    let args = strings(&["--a", "--b", "x"]);
    assert_eq!(optional_flag(&args, "--a"), Some("--b".to_string()));
    assert_eq!(optional_flag(&args, "--b"), Some("x".to_string()));
}

#[test]
fn allowed_origins_trim_and_drop_blanks() {
    assert_eq!(
        WebConfiguration::allowed_origins(" http://a.com , ,https://b.com,"),
        strings(&["http://a.com", "https://b.com"])
    );
    assert!(WebConfiguration::allowed_origins("").is_empty());
}

#[test]
fn normalize_origin_trims_slashes_and_case() {
    assert_eq!(normalize_origin("  HTTPS://Admin.Example.com// "), "https://admin.example.com");
    assert_eq!(normalize_origin("http://x"), "http://x");
    assert_eq!(normalize_origin(normalize_origin(" A/ ").as_str()), normalize_origin(" A/ "));
}

#[test]
fn normalize_origin_not_idempotent_when_space_precedes_slash() {
    let once = normalize_origin("a /");
    assert_eq!(once, "a ");
    assert_eq!(normalize_origin(&once), "a");
}

#[test]
fn admin_origins_are_normalized() {
    assert_eq!(
        parse_admin_origins("https://Admin.com/, ,http://b.org"),
        strings(&["https://admin.com", "http://b.org"])
    );
}

#[test]
fn origin_lock_compares_normalized_origin() {
    let allowed = strings(&["https://admin.com"]);
    assert!(origin_allowed(Some("HTTPS://admin.com/"), &allowed));
    assert!(!origin_allowed(Some("https://evil.com"), &allowed));
    assert!(!origin_allowed(None, &allowed));
    assert!(!origin_allowed(Some("https://admin.com"), &Vec::new()));
}

#[test]
fn client_ip_trusts_forwarded_only_behind_proxy() {
    assert_eq!(choose_client_ip(Some("10.0.0.1"), true, Some("1.1.1.1"), Some("2.2.2.2")), "1.1.1.1");
    assert_eq!(choose_client_ip(Some("10.0.0.1"), true, None, Some("2.2.2.2")), "2.2.2.2");
    assert_eq!(choose_client_ip(Some("10.0.0.1"), true, None, None), "10.0.0.1");
    assert_eq!(choose_client_ip(Some("8.8.8.8"), false, Some("1.1.1.1"), Some("2.2.2.2")), "8.8.8.8");
    assert_eq!(choose_client_ip(None, true, Some("1.1.1.1"), None), "unknown");
}

#[test]
fn forwarded_for_takes_first_entry() {
    assert_eq!(forwarded_for_candidate(" 3.3.3.3 , 4.4.4.4"), "3.3.3.3");
    assert_eq!(forwarded_for_candidate("5.5.5.5"), "5.5.5.5");
    assert_eq!(forwarded_for_candidate(""), "");
}

#[test]
fn rate_limit_plan_for_tenant_creation() {
    let plan = rate_limit_plan("/api/v1/tenants", "POST", "9.9.9.9", false).unwrap();
    assert_eq!(plan.ban_key, "rl:ban:ip:9.9.9.9");
    assert_eq!(plan.global.key, "rl:ip:9.9.9.9");
    assert_eq!(plan.global.limit, 20);
    assert_eq!(plan.global.refill_per_10k_seconds, 200000);
    assert_eq!(plan.specific.len(), 1);
    assert_eq!(plan.specific[0].key, "rl:tenants:create:ip:9.9.9.9");
    assert_eq!(plan.specific[0].limit, 1);
    assert_eq!(plan.specific[0].refill_per_10k_seconds, 167);
    let signin = rate_limit_plan("/t/auth/sign-in", "POST", "9.9.9.9", false).unwrap();
    assert_eq!(signin.specific.len(), 1);
    assert_eq!(signin.specific[0].key, "rl:signin:ip:9.9.9.9");
    assert_eq!(signin.specific[0].limit, 3);
}

#[test]
fn rate_limit_plan_for_other_requests() {
    let del = rate_limit_plan("/api/v1/tenants/abc", "DELETE", "1.2.3.4", false).unwrap();
    assert_eq!(del.specific.len(), 1);
    assert_eq!(del.specific[0].key, "rl:tenants:delete:ip:1.2.3.4");
    let rotate = rate_limit_plan("/api/v1/tenants/x/anon-key/reissue", "POST", "i", false).unwrap();
    assert_eq!(rotate.specific.len(), 1);
    assert_eq!(rotate.specific[0].key, "rl:tenants:admin-action:ip:i");
    assert_eq!(rotate.specific[0].limit, 5);
    let forgot = rate_limit_plan("/t/identity/forgot-password", "POST", "i", false).unwrap();
    assert_eq!(forgot.specific[0].key, "rl:forgot:ip:i");
    assert_eq!(forgot.specific[0].limit, 2);
    let get = rate_limit_plan("/api/v1/tenants", "GET", "i", false).unwrap();
    assert!(get.specific.is_empty());
}

#[test]
fn rate_limit_plan_for_documentation() {
    assert!(rate_limit_plan("/swagger-ui/index.html", "GET", "i", false).is_none());
    assert!(rate_limit_plan("/api-docs/openapi.json", "GET", "i", false).is_none());
    let docs = rate_limit_plan("/swagger-ui/index.html", "GET", "i", true).unwrap();
    assert_eq!(docs.global.key, "rl:ip:swagger:i");
    assert_eq!(docs.global.limit, 40);
    assert_eq!(docs.global.refill_per_10k_seconds, 400000);
}

#[test]
fn excess_counter_and_ban() {
    assert_eq!(excess_counter_key("1.1.1.1"), "rl:ip:exceeded:1.1.1.1");
    let first = excess_response(1);
    assert_eq!(first.expire_counter_after_secs, Some(30));
    assert_eq!(first.ban_for_secs, None);
    let mid = excess_response(24);
    assert_eq!(mid.expire_counter_after_secs, None);
    assert_eq!(mid.ban_for_secs, None);
    assert_eq!(excess_response(25).ban_for_secs, Some(300));
}

#[test]
fn lockout_keys() {
    assert_eq!(global_lock_key("bob"), "lockout:bob");
    assert_eq!(ip_lock_key("bob", "1.1.1.1"), "lockout:bob:1.1.1.1");
    assert_eq!(failure_counter_key("bob", None), "login_failures:bob");
    assert_eq!(failure_counter_key("bob", Some("1.1.1.1")), "login_failures:bob:1.1.1.1");
    assert_eq!(
        failure_keys("bob", Some("ip")),
        ("login_failures:bob:ip".to_string(), "lockout:bob:ip".to_string())
    );
    assert_eq!(
        failure_keys("bob", None),
        ("login_failures:bob".to_string(), "lockout:bob".to_string())
    );
    assert_eq!(reset_keys("bob", None), strings(&["login_failures:bob"]));
    assert_eq!(
        reset_keys("bob", Some("ip")),
        strings(&["login_failures:bob", "login_failures:bob:ip"])
    );
    assert_eq!(FAILURE_WINDOW_SECONDS, 600);
}

#[test]
fn lock_status_checks_identity_first() {
    assert!(matches!(lock_status(120, Some(30)), Err(LockoutError::Locked(120))));
    assert!(matches!(lock_status(-2, Some(30)), Err(LockoutError::Locked(30))));
    assert!(lock_status(-2, Some(-1)).is_ok());
    assert!(lock_status(0, None).is_ok());
    assert_eq!(LockoutError::Locked(5).message(), "Account is locked. Try again later.");
    assert_eq!(LockoutError::Redis("down".to_string()).message(), "Redis error: down");
    assert_eq!(
        LockoutError::CircuitOpen.message(),
        "Service temporarily unavailable (Circuit Breaker)"
    );
}

#[test]
fn failure_response_windows_and_locks() {
    let first = failure_response(1, 5);
    assert!(first.start_window);
    assert!(!first.lock);
    let fifth = failure_response(5, 5);
    assert!(!fifth.start_window);
    assert!(!fifth.lock);
    let sixth = failure_response(6, 5);
    assert!(sixth.lock);
    assert!(!failure_response(3, 5).lock);
}

#[test]
fn migration_files_sorted_and_filtered() {
    let names = strings(&["002_b.sql", "README.md", "001_a.sql", ".sql", "010_c.sql"]);
    assert_eq!(sorted_sql_files(&names), strings(&["001_a.sql", "002_b.sql", "010_c.sql"]));
    let applied = strings(&["001_a.sql"]);
    assert_eq!(pending_migrations(&names, &applied), strings(&["002_b.sql", "010_c.sql"]));
    assert!(pending_migrations(&strings(&["001_a.sql"]), &applied).is_empty());
    assert!(is_sql_file_name("x.sql"));
    assert!(!is_sql_file_name(".sql"));
    assert!(!is_sql_file_name("x.sqlite"));
    assert!(is_applied(&applied, "001_a.sql"));
    assert!(!is_applied(&applied, "002_b.sql"));
}

#[test]
fn migration_record_escapes_quotes() {
    assert_eq!(
        record_migration_sql("001_it's.sql"),
        "INSERT INTO schema_migrations (version) VALUES ('001_it''s.sql')"
    );
}

#[test]
fn docker_names_and_arguments() {
    assert_eq!(safe_tenant_name("my-tenant-1"), "my_tenant_1");
    assert_eq!(tenant_container_name("my_tenant"), "tenant-db-my_tenant");
    assert_eq!(tenant_db_name("db_", "my_tenant"), "db_my_tenant");
    assert_eq!(signed_decimal(-42), "-42");
    assert_eq!(signed_decimal(512), "512");
    assert_eq!(signed_decimal(i64::MIN), "-9223372036854775808");
    let args = run_args("c", "net", "u", "p", "d", Some(256), Some("0.5"), "postgres:16");
    assert_eq!(
        args,
        strings(&[
            "run", "-d", "--name", "c", "--network", "net", "-e", "POSTGRES_USER=u", "-e",
            "POSTGRES_PASSWORD=p", "-e", "POSTGRES_DB=d", "-p", "0:5432", "--memory", "256m",
            "--cpus", "0.5", "postgres:16",
        ])
    );
    let bare = run_args("c", "net", "u", "p", "d", None, None, "img");
    assert_eq!(bare.len(), 15);
    assert_eq!(bare[14], "img");
    assert_eq!(port_args(" abc\n"), strings(&["port", "abc", "5432/tcp"]));
}

#[test]
fn docker_port_and_connection_string() {
    assert_eq!(parse_port("0.0.0.0:49153\n"), Some("49153".to_string()));
    assert_eq!(parse_port("[::]:5000"), Some("5000".to_string()));
    assert_eq!(
        tenant_connection_string("u", "p", "localhost", "49153", "db"),
        "postgres://u:p@localhost:49153/db"
    );
    assert_eq!(DockerProvisionError::new("boom".to_string()).message(), "boom");
}

#[test]
fn vault_urls_and_errors() {
    assert_eq!(kv_data_url("http://v:8200", "secret", "t/a"), "http://v:8200/v1/secret/data/t/a");
    assert_eq!(
        kv_metadata_url("http://v:8200", "secret", "t/a"),
        "http://v:8200/v1/secret/metadata/t/a"
    );
    assert_eq!(approle_login_url("http://v"), "http://v/v1/auth/approle/login");
    let e = request_failure("read", "403 Forbidden", "denied");
    assert_eq!(e.message(), "Vault read failed: 403 Forbidden - denied");
    assert!(is_auth_error(&e));
    assert!(is_auth_error(&VaultError::new("1 error: permission denied".to_string())));
    assert!(!is_auth_error(&VaultError::new("timeout".to_string())));
    let first: Result<u8, VaultError> = Err(e);
    assert!(retry_with_fresh_token(&first));
    let ok: Result<u8, VaultError> = Ok(1);
    assert!(!retry_with_fresh_token(&ok));
    let other: Result<u8, VaultError> = Err(VaultError::new("500".to_string()));
    assert!(!retry_with_fresh_token(&other));
}

#[test]
fn token_bucket_starts_full_and_refills() {
    // 20 tokens, 20 per second
    let (s, d) = take_tokens(None, 1_000, 20, 200_000, 1);
    assert_eq!(d, BucketDecision::Allowed);
    assert_eq!(s, BucketState { milli_tokens: 19_000, counted_at_ms: 1_000 });
    // empty bucket: 500 ms later it has gained 10 tokens
    let empty = BucketState { milli_tokens: 0, counted_at_ms: 1_000 };
    let (s, d) = take_tokens(Some(empty), 1_500, 20, 200_000, 1);
    assert_eq!(d, BucketDecision::Allowed);
    assert_eq!(s.milli_tokens, 9_000);
    // never more than full
    let (s, _) = take_tokens(Some(empty), 1_000_000, 20, 200_000, 1);
    assert_eq!(s.milli_tokens, 19_000);
    // one token a minute (167 ten-thousandths per second): exceeded, with the wait
    let (s, d) = take_tokens(Some(empty), 1_000, 1, 167, 1);
    assert_eq!(s.milli_tokens, 0);
    assert_eq!(d, BucketDecision::Exceeded { retry_after_ms: Some(59_881) });
    // a bucket that never refills
    let (_, d) = take_tokens(Some(empty), 9_000, 1, 0, 1);
    assert_eq!(d, BucketDecision::Exceeded { retry_after_ms: None });
    // a clock that went back adds nothing
    let half = BucketState { milli_tokens: 500, counted_at_ms: 5_000 };
    let (s, d) = take_tokens(Some(half), 4_000, 1, 167, 1);
    assert_eq!(s, BucketState { milli_tokens: 500, counted_at_ms: 4_000 });
    assert!(matches!(d, BucketDecision::Exceeded { .. }));
}

#[test]
fn limiter_answers_become_statuses() {
    assert_eq!(limit_verdict(LimitOutcome::Allowed, true), LimitVerdict { reject_status: None, count_excess: false });
    assert_eq!(limit_verdict(LimitOutcome::Exceeded, true), LimitVerdict { reject_status: Some(429), count_excess: true });
    assert_eq!(limit_verdict(LimitOutcome::Exceeded, false), LimitVerdict { reject_status: Some(429), count_excess: false });
    assert_eq!(limit_verdict(LimitOutcome::Unavailable, true), LimitVerdict { reject_status: Some(503), count_excess: false });
    assert_eq!(ban_verdict(true), Some(429));
    assert_eq!(ban_verdict(false), None);
    assert_eq!(DOCS_DISABLED_STATUS, 404);
}

#[test]
fn circuit_breaker_opens_and_closes() {
    let mut b = CircuitBreaker::new(3, 1_000);
    assert!(b.is_call_permitted(0));
    b.on_failure(10);
    b.on_failure(20);
    assert!(b.is_call_permitted(30));
    b.on_failure(30);
    assert!(!b.is_call_permitted(30));
    assert!(!b.is_call_permitted(1_029));
    assert!(b.is_call_permitted(1_030));
    b.on_failure(1_040);
    assert!(!b.is_call_permitted(1_500));
    b.on_success();
    assert!(b.is_call_permitted(1_500));
    assert!(matches!(breaker_gate(false), Err(LockoutError::CircuitOpen)));
    assert!(breaker_gate(true).is_ok());
}
