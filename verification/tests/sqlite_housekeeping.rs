use key_store::error::{DbError, ProxyError};
use key_store::sqlite::{
    database_layout_with_separator,
    is_invalid_current_month_billing_subject_error, is_observability_table,
    legacy_request_logs_inline_sidecar_migration_allowed, observability_attach_target,
    is_transient_sqlite_write_error, sqlite_qualified_table_name, sqlite_sidecar_path,
    sqlite_transient_write_retry_delay, sqlite_transient_write_retry_plan, SqliteDatabaseLayout,
};

fn db(code: Option<&str>, message: &str) -> ProxyError {
    ProxyError::Database(DbError::Database { code: code.map(str::to_string), message: message.to_string() })
}

#[test]
fn observability_tables_are_qualified() {
    assert!(is_observability_table("request_logs"));
    assert!(!is_observability_table("users"));
    assert_eq!(sqlite_qualified_table_name("request_logs"), "observability.\"request_logs\"");
    assert_eq!(sqlite_qualified_table_name("users"), "\"users\"");
}

#[test]
fn busy_and_locked_errors_are_transient() {
    assert!(is_transient_sqlite_write_error(&db(Some("5"), "x")));
    assert!(is_transient_sqlite_write_error(&db(Some("SQLITE_LOCKED"), "x")));
    assert!(is_transient_sqlite_write_error(&db(None, "Database Is Locked")));
    assert!(is_transient_sqlite_write_error(&db(Some("1"), "error: database schema is locked: main")));
    assert!(!is_transient_sqlite_write_error(&db(Some("19"), "UNIQUE constraint failed")));
    assert!(!is_transient_sqlite_write_error(&ProxyError::Database(DbError::Other("database is locked".to_string()))));
    assert!(!is_transient_sqlite_write_error(&ProxyError::Other("database is locked".to_string())));
}

#[test]
fn retry_delays_back_off() {
    let delays: Vec<u64> = (0..7).map(sqlite_transient_write_retry_delay).collect();
    assert_eq!(delays, vec![20, 50, 100, 200, 500, 500, 500]);
}

#[test]
fn retry_plans_respect_the_deadline() {
    let busy = db(Some("5"), "busy");
    assert_eq!(sqlite_transient_write_retry_plan(&busy, 2, 1_000, 5_000), Some(100));
    assert_eq!(sqlite_transient_write_retry_plan(&busy, 4, 1_000, 1_030), Some(30));
    assert_eq!(sqlite_transient_write_retry_plan(&busy, 0, 5_000, 5_000), None);
    assert_eq!(sqlite_transient_write_retry_plan(&ProxyError::Other("x".to_string()), 0, 0, 5_000), None);
}

#[test]
fn billing_subject_errors_are_recognised() {
    let err = ProxyError::QuotaDataMissing {
        reason: "found 3 charged auth_token_logs rows with invalid billing_subject".to_string(),
    };
    assert!(is_invalid_current_month_billing_subject_error(&err));
    assert!(!is_invalid_current_month_billing_subject_error(&ProxyError::QuotaDataMissing { reason: "other".to_string() }));
    assert!(!is_invalid_current_month_billing_subject_error(&ProxyError::Other(
        "charged auth_token_logs rows with invalid billing_subject".to_string()
    )));
}

#[test]
fn database_layouts() {
    let file = SqliteDatabaseLayout::from_database_path("  /data/keys.DB ");
    assert_eq!(file.core_database_path, "/data/keys.DB");
    assert_eq!(file.observability_database_path, Some("/data/keys-observability.db".to_string()));
    let dir = SqliteDatabaseLayout::from_database_path("/data/store//");
    assert_eq!(dir.core_database_path, "/data/store/core.db");
    assert_eq!(dir.observability_database_path, Some("/data/store/observability.db".to_string()));
    let root = SqliteDatabaseLayout::from_database_path("/");
    assert_eq!(root.core_database_path, "//core.db");
}

#[test]
fn sidecar_paths() {
    assert_eq!(sqlite_sidecar_path("/var/lib/app.db", "observability.db"), "/var/lib/app-observability.db");
    assert_eq!(sqlite_sidecar_path("app.db", "extra"), "app-extra");
}

#[test]
fn observability_is_attached_from_the_core_while_legacy_logs_must_stay() {
    assert!(legacy_request_logs_inline_sidecar_migration_allowed(Some(33_554_432)));
    assert!(!legacy_request_logs_inline_sidecar_migration_allowed(Some(33_554_433)));
    assert!(!legacy_request_logs_inline_sidecar_migration_allowed(None));
    assert_eq!(observability_attach_target("core.db", "obs.db", false, true, true, true, true), Some("core.db".to_string()));
    assert_eq!(observability_attach_target("core.db", "obs.db", false, false, false, true, false), Some("core.db".to_string()));
    assert_eq!(observability_attach_target("core.db", "obs.db", false, false, false, true, true), Some("obs.db".to_string()));
    assert_eq!(observability_attach_target("core.db", "obs.db", false, true, false, false, true), None);
    assert_eq!(observability_attach_target("core.db", "obs.db", true, true, false, false, true), Some("obs.db".to_string()));
    assert_eq!(observability_attach_target("core.db", "obs.db", false, true, true, false, true), Some("obs.db".to_string()));
}

#[test]
fn database_layout_with_a_backslash_separator() {
    let dir = database_layout_with_separator("C:\\data\\store\\", '\\');
    assert_eq!(dir.core_database_path, "C:\\data\\store\\core.db");
    assert_eq!(dir.observability_database_path, Some("C:\\data\\store\\observability.db".to_string()));
    let plain = database_layout_with_separator("store", ':');
    assert_eq!(plain.core_database_path, "store:core.db");
}
