use jxc_server::config::{
    flag_on, non_empty, parse_i64, parse_u16, parse_u32, parse_u64, AppConfig, ConfigVars, StorageBackend,
};

fn no_vars() -> ConfigVars {
    ConfigVars {
        app_host: None,
        app_port: None,
        jwt_secret: None,
        jwt_access_expires: None,
        jwt_refresh_expires: None,
        allow_negative_stock: None,
        storage_backend: None,
        database_url: None,
        sqlite_path: None,
        redis_url: None,
        pg_max_connections: None,
        barcode_lookup_api_url: None,
        barcode_lookup_api_key: None,
        barcode_lookup_timeout_ms: None,
        barcode_lookup_found_ttl_secs: None,
        barcode_lookup_not_found_ttl_secs: None,
    }
}

#[test]
fn storage_backend_names_are_read_without_case_or_padding() {
    assert_eq!(StorageBackend::from_env("memory"), StorageBackend::Memory);
    assert_eq!(StorageBackend::from_env("  MeMoRy \t"), StorageBackend::Memory);
    assert_eq!(StorageBackend::from_env("postgres"), StorageBackend::Postgres);
    assert_eq!(StorageBackend::from_env("PostgreSQL"), StorageBackend::Postgres);
    assert_eq!(StorageBackend::from_env("PG"), StorageBackend::Postgres);
    assert_eq!(StorageBackend::from_env("sqlite"), StorageBackend::Sqlite);
    assert_eq!(StorageBackend::from_env(" SQLite3\n"), StorageBackend::Sqlite);
}

#[test]
fn unknown_storage_backend_means_postgres() {
    assert_eq!(StorageBackend::from_env(""), StorageBackend::Postgres);
    assert_eq!(StorageBackend::from_env("mysql"), StorageBackend::Postgres);
    assert_eq!(StorageBackend::from_env("mem ory"), StorageBackend::Postgres);
}

#[test]
fn storage_backend_name_reads_back() {
    for b in [StorageBackend::Memory, StorageBackend::Postgres, StorageBackend::Sqlite] {
        assert_eq!(StorageBackend::from_env(b.as_str()), b);
    }
    assert_eq!(StorageBackend::Memory.as_str(), "memory");
    assert_eq!(StorageBackend::Postgres.as_str(), "postgres");
    assert_eq!(StorageBackend::Sqlite.as_str(), "sqlite");
}

#[test]
fn non_empty_trims_and_drops_blank_values() {
    assert_eq!(non_empty("  postgres://db  ".to_string()), Some("postgres://db".to_string()));
    assert_eq!(non_empty("   ".to_string()), None);
    assert_eq!(non_empty(String::new()), None);
    assert_eq!(non_empty("x".to_string()), Some("x".to_string()));
}

#[test]
fn integers_parse_as_str_parse_does() {
    assert_eq!(parse_u16("8080"), Some(8080));
    assert_eq!(parse_u16("+80"), Some(80));
    assert_eq!(parse_u16("0065535"), Some(65535));
    assert_eq!(parse_u16("65536"), None);
    assert_eq!(parse_u16("-1"), None);
    assert_eq!(parse_u16("-0"), None);
    assert_eq!(parse_u16(""), None);
    assert_eq!(parse_u16("+"), None);
    assert_eq!(parse_u16(" 80"), None);
    assert_eq!(parse_u16("8a"), None);
    assert_eq!(parse_u32("4294967295"), Some(u32::MAX));
    assert_eq!(parse_u32("4294967296"), None);
    assert_eq!(parse_u64("18446744073709551615"), Some(u64::MAX));
    assert_eq!(parse_u64("18446744073709551616"), None);
    assert_eq!(parse_u64("99999999999999999999999999"), None);
    assert_eq!(parse_i64("-9223372036854775808"), Some(i64::MIN));
    assert_eq!(parse_i64("9223372036854775807"), Some(i64::MAX));
    assert_eq!(parse_i64("9223372036854775808"), None);
    assert_eq!(parse_i64("-"), None);
    assert_eq!(parse_i64("+7200"), Some(7200));
    for s in ["0", "1", "255", "+12", "-3", "", "x", "1_000"] {
        assert_eq!(parse_i64(s), s.parse::<i64>().ok(), "{s}");
        assert_eq!(parse_u16(s), s.parse::<u16>().ok(), "{s}");
    }
}

#[test]
fn flags_accept_one_true_yes_in_any_case() {
    assert!(flag_on("1"));
    assert!(flag_on("TRUE"));
    assert!(flag_on("Yes"));
    assert!(!flag_on("on"));
    assert!(!flag_on(" true"));
    assert!(!flag_on("0"));
}

#[test]
fn config_defaults_apply_when_nothing_is_set() {
    let c = AppConfig::from_vars(&no_vars());
    assert_eq!(c.host, "0.0.0.0");
    assert_eq!(c.port, 8080);
    assert_eq!(c.jwt_secret, "change_me_in_prod");
    assert_eq!(c.access_token_exp_secs, 7200);
    assert_eq!(c.refresh_token_exp_secs, 604800);
    assert!(!c.allow_negative_stock);
    assert_eq!(c.storage_backend, StorageBackend::Postgres);
    assert_eq!(c.database_url, None);
    assert_eq!(c.sqlite_path, "jxc.db");
    assert_eq!(c.redis_url, None);
    assert_eq!(c.postgres_max_connections, 10);
    assert_eq!(c.barcode_lookup_api_url, None);
    assert_eq!(c.barcode_lookup_api_key, None);
    assert_eq!(c.barcode_lookup_timeout_ms, 3000);
    assert_eq!(c.barcode_lookup_found_ttl_secs, 2_592_000);
    assert_eq!(c.barcode_lookup_not_found_ttl_secs, 86_400);
}

#[test]
fn config_reads_set_values_and_falls_back_on_bad_ones() {
    let mut v = no_vars();
    v.app_host = Some(" 127.0.0.1 ".to_string());
    v.app_port = Some("9000".to_string());
    v.jwt_access_expires = Some("abc".to_string());
    v.jwt_refresh_expires = Some("-5".to_string());
    v.allow_negative_stock = Some("yes".to_string());
    v.storage_backend = Some("SQLITE".to_string());
    v.database_url = Some("  ".to_string());
    v.sqlite_path = Some(" /data/jxc.db ".to_string());
    v.redis_url = Some(" redis://cache ".to_string());
    v.pg_max_connections = Some("99999999999".to_string());
    v.barcode_lookup_timeout_ms = Some("1500".to_string());
    let c = AppConfig::from_vars(&v);
    assert_eq!(c.host, " 127.0.0.1 ");
    assert_eq!(c.port, 9000);
    assert_eq!(c.access_token_exp_secs, 7200);
    assert_eq!(c.refresh_token_exp_secs, -5);
    assert!(c.allow_negative_stock);
    assert_eq!(c.storage_backend, StorageBackend::Sqlite);
    assert_eq!(c.database_url, None);
    assert_eq!(c.sqlite_path, "/data/jxc.db");
    assert_eq!(c.redis_url, Some("redis://cache".to_string()));
    assert_eq!(c.postgres_max_connections, 10);
    assert_eq!(c.barcode_lookup_timeout_ms, 1500);
}
