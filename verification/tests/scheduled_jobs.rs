use key_store::error::{DbError, ProxyError};
use key_store::store::KeyStore;

#[test]
fn stale_groups() {
    assert_eq!(KeyStore::scheduled_job_stale_group("quota_sync"), Some("quota_sync"));
    assert_eq!(KeyStore::scheduled_job_stale_group("quota_sync/manual"), Some("quota_sync"));
    assert_eq!(KeyStore::scheduled_job_stale_group("quota_sync/hot"), Some("quota_sync/hot"));
    assert_eq!(KeyStore::scheduled_job_stale_group("request_logs_gc"), None);
}

#[test]
fn priorities_order_jobs() {
    assert_eq!(KeyStore::scheduled_job_priority("request_logs_gc", "manual"), 0);
    assert_eq!(KeyStore::scheduled_job_priority("quota_sync", "manual"), 1);
    assert_eq!(KeyStore::scheduled_job_priority("db_compaction", "scheduler"), 2);
    assert_eq!(KeyStore::scheduled_job_priority("ha_outbox_gc", "scheduler"), 3);
    assert_eq!(KeyStore::scheduled_job_priority("forward_proxy_geo_refresh", "scheduler"), 4);
    assert_eq!(KeyStore::scheduled_job_priority("quota_sync/hot", "scheduler"), 5);
    assert_eq!(KeyStore::scheduled_job_priority("something_else", "scheduler"), 6);
}

#[test]
fn promotion_only_raises_priority() {
    assert!(KeyStore::should_promote_scheduled_job_trigger_source("quota_sync", "scheduler", "manual"));
    assert!(!KeyStore::should_promote_scheduled_job_trigger_source("quota_sync", "manual", "scheduler"));
    assert!(!KeyStore::should_promote_scheduled_job_trigger_source("quota_sync", "manual", "manual"));
}

#[test]
fn priority_sql_case_expression() {
    let sql = KeyStore::scheduled_job_priority_sql("j.job_type", "j.trigger_source");
    assert!(sql.starts_with("CASE WHEN j.trigger_source = 'manual' AND (j.job_type = 'request_logs_gc' OR j.job_type = 'db_compaction') THEN 0 "));
    assert!(sql.ends_with("ELSE 6 END"));
}

#[test]
fn wal_path_sits_beside_the_database() {
    let store = KeyStore { database_path: "/data/core.db".to_string(), observability_database_path: None };
    assert_eq!(store.sqlite_wal_path(), "/data/core.db-wal");
}

fn active(id: i64, status: &str, source: &str) -> Option<(i64, String, String)> {
    Some((id, status.to_string(), source.to_string()))
}

#[test]
fn fast_path_answers_with_the_active_job_unless_promotion_is_due() {
    let r = KeyStore::scheduled_job_enqueue_fast_path("usage_aggregation", "scheduler", active(7, "queued", "manual")).unwrap();
    assert_eq!((r.job_id, r.created, r.promoted), (7, false, false));
    assert_eq!(r.status, "queued");
    assert_eq!(r.trigger_source, "manual");
    assert!(KeyStore::scheduled_job_enqueue_fast_path("usage_aggregation", "manual", active(7, "queued", "scheduler")).is_none());
    assert!(KeyStore::scheduled_job_enqueue_fast_path("quota_sync", "scheduler", active(7, "queued", "manual")).is_none());
    assert!(KeyStore::scheduled_job_enqueue_fast_path("usage_aggregation", "scheduler", None).is_none());
}

#[test]
fn joining_an_active_job_promotes_a_higher_trigger_source() {
    let r = KeyStore::scheduled_job_enqueue_join_active("request_logs_gc", "manual", active(3, "running", "scheduler")).unwrap();
    assert!(r.promoted);
    assert_eq!(r.trigger_source, "manual");
    assert_eq!(r.status, "running");
    let r = KeyStore::scheduled_job_enqueue_join_active("request_logs_gc", "scheduler", active(3, "queued", "manual")).unwrap();
    assert!(!r.promoted);
    assert_eq!(r.trigger_source, "manual");
    assert!(KeyStore::scheduled_job_enqueue_join_active("request_logs_gc", "manual", None).is_none());
}

#[test]
fn active_identity_conflicts_are_recognised_by_their_message() {
    let conflict = ProxyError::Database(DbError::Database {
        code: Some("2067".to_string()),
        message: "UNIQUE constraint failed: index 'idx_scheduled_jobs_active_identity'".to_string(),
    });
    assert!(KeyStore::is_scheduled_job_active_identity_conflict(&conflict));
    let other = ProxyError::Database(DbError::Database { code: None, message: "database is locked".to_string() });
    assert!(!KeyStore::is_scheduled_job_active_identity_conflict(&other));
    assert!(!KeyStore::is_scheduled_job_active_identity_conflict(&ProxyError::Other("scheduled_jobs.job_type".to_string())));
}
