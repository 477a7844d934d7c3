//! The key store's plain-value state and its scheduled-job rules.

use vstd::prelude::*;
use vstd::string::*;
use crate::error::{DbError, ProxyError};
use crate::text::{cat, concat_all, contains, str_contains, str_eq};

verus! {

/// The plain-value part of a key store: where its databases live.
pub struct KeyStore {
    pub database_path: String,
    pub observability_database_path: Option<String>,
}

/// The group of job types that share staleness bookkeeping.
pub open spec fn stale_group_spec(job_type: Seq<char>) -> Option<Seq<char>> {
    if job_type == "quota_sync"@ || job_type == "quota_sync/manual"@ {
        Some("quota_sync"@)
    } else if job_type == "quota_sync/hot"@ {
        Some("quota_sync/hot"@)
    } else {
        None
    }
}

/// Whether a job type is one of the given names.
pub open spec fn is_gc_heavy(job_type: Seq<char>) -> bool {
    job_type == "request_logs_gc"@ || job_type == "db_compaction"@
}

pub open spec fn is_maintenance_job(job_type: Seq<char>) -> bool {
    job_type == "auth_token_logs_gc"@ || job_type == "ha_outbox_gc"@ || job_type == "mcp_sessions_gc"@
        || job_type == "mcp_session_init_backoffs_gc"@ || job_type == "token_usage_rollup"@
        || job_type == "usage_aggregation"@
}

pub open spec fn is_refresh_job(job_type: Seq<char>) -> bool {
    job_type == "linuxdo_user_tag_binding_refresh"@ || job_type == "forward_proxy_geo_refresh"@
        || job_type == "linuxdo_user_status_sync"@
}

pub open spec fn is_quota_sync_job(job_type: Seq<char>) -> bool {
    job_type == "quota_sync"@ || job_type == "quota_sync/manual"@ || job_type == "quota_sync/hot"@
}

/// The queue priority of a job (lower runs first): manual heavy GC first, then
/// any manual job, scheduled heavy GC, maintenance, refreshes, quota syncs, the rest.
pub open spec fn job_priority_spec(job_type: Seq<char>, trigger_source: Seq<char>) -> i64 {
    if trigger_source == "manual"@ && is_gc_heavy(job_type) {
        0
    } else if trigger_source == "manual"@ {
        1
    } else if is_gc_heavy(job_type) {
        2
    } else if is_maintenance_job(job_type) {
        3
    } else if is_refresh_job(job_type) {
        4
    } else if is_quota_sync_job(job_type) {
        5
    } else {
        6
    }
}

/// A manual request ranks every job type ahead of any other trigger source:
/// priority 0 for the heavy GC jobs (`request_logs_gc`, `db_compaction`) and 1
/// for every other job type, strictly before the same job from any other
/// source, whose priority is at least 2 and does not depend on which source
/// it is. So a queued job is always promoted when it is requested manually.
pub proof fn lemma_manual_trigger_ranks_first(job_type: Seq<char>, trigger_source: Seq<char>, other_source: Seq<char>)
    requires
        trigger_source != "manual"@,
        other_source != "manual"@,
    ensures
        (job_type != "request_logs_gc"@ && job_type != "db_compaction"@) ==> job_priority_spec(job_type, "manual"@) == 1,
        (job_type == "request_logs_gc"@ || job_type == "db_compaction"@) ==> job_priority_spec(job_type, "manual"@) == 0,
        job_priority_spec(job_type, "manual"@) < job_priority_spec(job_type, trigger_source),
        job_priority_spec(job_type, trigger_source) >= 2,
        job_priority_spec(job_type, trigger_source) == job_priority_spec(job_type, other_source),
{
}

fn str_in(s: &str, names: &Vec<&str>) -> (r: bool)
    ensures
        r == exists|i: int| 0 <= i < names.len() && names@[i]@ == s@,
{
    let mut i: usize = 0;
    while i < names.len()
        invariant
            i <= names.len(),
            forall|j: int| 0 <= j < i ==> names@[j]@ != s@,
        decreases names.len() - i,
    {
        if str_eq(names[i], s) {
            return true;
        }
        i = i + 1;
    }
    false
}

impl KeyStore {
    /// The group of job types that share staleness bookkeeping.
    pub fn scheduled_job_stale_group(job_type: &str) -> (r: Option<&'static str>)
        ensures
            crate::ha::opt_view(r) == stale_group_spec(job_type@),
    {
        if str_eq(job_type, "quota_sync") || str_eq(job_type, "quota_sync/manual") {
            Some("quota_sync")
        } else if str_eq(job_type, "quota_sync/hot") {
            Some("quota_sync/hot")
        } else {
            None
        }
    }

    /// The queue priority of a job (lower runs first).
    pub fn scheduled_job_priority(job_type: &str, trigger_source: &str) -> (r: i64)
        ensures
            r == job_priority_spec(job_type@, trigger_source@),
    {
        let manual = str_eq(trigger_source, "manual");
        let heavy = str_eq(job_type, "request_logs_gc") || str_eq(job_type, "db_compaction");
        if manual && heavy {
            return 0;
        }
        if manual {
            return 1;
        }
        if heavy {
            return 2;
        }
        let maintenance = vec!["auth_token_logs_gc", "ha_outbox_gc", "mcp_sessions_gc", "mcp_session_init_backoffs_gc", "token_usage_rollup", "usage_aggregation"];
        if str_in(job_type, &maintenance) {
            return 3;
        }
        let refresh = vec!["linuxdo_user_tag_binding_refresh", "forward_proxy_geo_refresh", "linuxdo_user_status_sync"];
        if str_in(job_type, &refresh) {
            return 4;
        }
        let quota = vec!["quota_sync", "quota_sync/manual", "quota_sync/hot"];
        if str_in(job_type, &quota) {
            return 5;
        }
        6
    }

    /// Whether a queued job should take the trigger source of a new request
    /// for it: only when that raises its priority.
    pub fn should_promote_scheduled_job_trigger_source(job_type: &str, current_trigger_source: &str, next_trigger_source: &str) -> (r: bool)
        ensures
            r == (job_priority_spec(job_type@, next_trigger_source@) < job_priority_spec(job_type@, current_trigger_source@)),
    {
        Self::scheduled_job_priority(job_type, next_trigger_source) < Self::scheduled_job_priority(job_type, current_trigger_source)
    }

    /// The SQL `CASE` expression that computes a job's queue priority from its columns.
    #[verifier::spinoff_prover]
    #[verifier::rlimit(40)]
    pub fn scheduled_job_priority_sql(job_type_column: &str, trigger_source_column: &str) -> (r: String)
        ensures
            r@ == priority_sql_spec(job_type_column@, trigger_source_column@),
    {
        let j = job_type_column;
        let t = trigger_source_column;
        let r = cat(&vec![
            "CASE WHEN ", t, " = 'manual' AND (", j, " = 'request_logs_gc' OR ", j, " = 'db_compaction') THEN 0 ",
            "WHEN ", t, " = 'manual' THEN 1 ",
            "WHEN ", j, " = 'request_logs_gc' OR ", j, " = 'db_compaction' THEN 2 ",
            "WHEN ", j, " = 'auth_token_logs_gc' OR ", j, " = 'ha_outbox_gc' OR ", j, " = 'mcp_sessions_gc' OR ", j,
            " = 'mcp_session_init_backoffs_gc' OR ", j, " = 'token_usage_rollup' OR ", j, " = 'usage_aggregation' THEN 3 ",
            "WHEN ", j, " = 'linuxdo_user_tag_binding_refresh' OR ", j, " = 'forward_proxy_geo_refresh' OR ", j,
            " = 'linuxdo_user_status_sync' THEN 4 ",
            "WHEN ", j, " = 'quota_sync' OR ", j, " = 'quota_sync/manual' OR ", j, " = 'quota_sync/hot' THEN 5 ",
            "ELSE 6 END",
        ]);
        proof {
            reveal_with_fuel(concat_all, 60);
            assert(r@ =~= priority_sql_spec(j@, t@));
        }
        r
    }

    /// The path of the write-ahead log beside the core database.
    pub fn sqlite_wal_path(&self) -> (r: String)
        ensures
            r@ == self.database_path@ + "-wal"@,
    {
        let mut r = self.database_path.clone();
        r.append("-wal");
        r
    }
}

/// The SQL priority expression, the same order as `job_priority_spec`.
pub open spec fn priority_sql_spec(j: Seq<char>, t: Seq<char>) -> Seq<char> {
    "CASE WHEN "@ + t + " = 'manual' AND ("@ + j + " = 'request_logs_gc' OR "@ + j + " = 'db_compaction') THEN 0 "@
        + "WHEN "@ + t + " = 'manual' THEN 1 "@
        + "WHEN "@ + j + " = 'request_logs_gc' OR "@ + j + " = 'db_compaction' THEN 2 "@
        + "WHEN "@ + j + " = 'auth_token_logs_gc' OR "@ + j + " = 'ha_outbox_gc' OR "@ + j + " = 'mcp_sessions_gc' OR "@ + j
        + " = 'mcp_session_init_backoffs_gc' OR "@ + j + " = 'token_usage_rollup' OR "@ + j + " = 'usage_aggregation' THEN 3 "@
        + "WHEN "@ + j + " = 'linuxdo_user_tag_binding_refresh' OR "@ + j + " = 'forward_proxy_geo_refresh' OR "@ + j
        + " = 'linuxdo_user_status_sync' THEN 4 "@
        + "WHEN "@ + j + " = 'quota_sync' OR "@ + j + " = 'quota_sync/manual' OR "@ + j + " = 'quota_sync/hot' THEN 5 "@
        + "ELSE 6 END"@
}

/// What enqueueing a scheduled job came to: the job, whether it was created
/// now, whether an active job took the new trigger source, and the job's
/// status and trigger source.
pub struct ScheduledJobEnqueueResult {
    pub job_id: i64,
    pub created: bool,
    pub promoted: bool,
    pub status: String,
    pub trigger_source: String,
}

/// An active job, as the store reads it: its id, status and trigger source.
pub open spec fn active_view(a: Option<(i64, String, String)>) -> Option<(i64, Seq<char>, Seq<char>)> {
    match a {
        Some(t) => Some((t.0, t.1@, t.2@)),
        None => None,
    }
}

/// Whether a scheduled-job write failed on the unique index that allows one
/// active job per type and key.
pub open spec fn active_identity_conflict_spec(err: ProxyError) -> bool {
    match err {
        ProxyError::Database(DbError::Database { message, .. }) =>
            contains(message@, "idx_scheduled_jobs_active_identity"@) || contains(message@, "scheduled_jobs.job_type"@),
        _ => false,
    }
}

impl KeyStore {
    /// Whether a scheduled-job write failed on the unique index that allows
    /// one active job per type and key (another writer started it first).
    pub fn is_scheduled_job_active_identity_conflict(err: &ProxyError) -> (r: bool)
        ensures
            r == active_identity_conflict_spec(*err),
    {
        match err {
            ProxyError::Database(DbError::Database { message, .. }) => {
                str_contains(message.as_str(), "idx_scheduled_jobs_active_identity")
                    || str_contains(message.as_str(), "scheduled_jobs.job_type")
            },
            _ => false,
        }
    }

    /// The answer to an enqueue request read before taking the write lock:
    /// for a job type outside the staleness groups, an active job whose
    /// trigger source would not be promoted answers at once; otherwise
    /// (`None`) the request goes on under the lock.
    pub fn scheduled_job_enqueue_fast_path(job_type: &str, trigger_source: &str, active: Option<(i64, String, String)>) -> (r: Option<ScheduledJobEnqueueResult>)
        ensures
            match active_view(active) {
                Some((id, status, current)) => if stale_group_spec(job_type@) is None
                    && !(job_priority_spec(job_type@, trigger_source@) < job_priority_spec(job_type@, current)) {
                    r matches Some(x) && x.job_id == id && !x.created && !x.promoted && x.status@ == status && x.trigger_source@ == current
                } else {
                    r is None
                },
                None => r is None,
            },
    {
        if Self::scheduled_job_stale_group(job_type).is_some() {
            return None;
        }
        match active {
            Some((job_id, status, current)) => {
                if Self::should_promote_scheduled_job_trigger_source(job_type, current.as_str(), trigger_source) {
                    None
                } else {
                    Some(ScheduledJobEnqueueResult { job_id, created: false, promoted: false, status, trigger_source: current })
                }
            },
            None => None,
        }
    }

    /// The answer to an enqueue request under the write lock, given the
    /// active job of its type and key: that job, taking the new trigger
    /// source when it ranks higher (the caller then stores it); or `None`
    /// when no job is active and one is to be created.
    pub fn scheduled_job_enqueue_join_active(job_type: &str, trigger_source: &str, active: Option<(i64, String, String)>) -> (r: Option<ScheduledJobEnqueueResult>)
        ensures
            match active_view(active) {
                Some((id, status, current)) => {
                    let promoted = job_priority_spec(job_type@, trigger_source@) < job_priority_spec(job_type@, current);
                    r matches Some(x) && x.job_id == id && !x.created && x.promoted == promoted && x.status@ == status
                        && x.trigger_source@ == (if promoted { trigger_source@ } else { current })
                },
                None => r is None,
            },
    {
        match active {
            Some((job_id, status, current)) => {
                let promoted = Self::should_promote_scheduled_job_trigger_source(job_type, current.as_str(), trigger_source);
                let effective = if promoted { String::from_str(trigger_source) } else { current };
                Some(ScheduledJobEnqueueResult { job_id, created: false, promoted, status, trigger_source: effective })
            },
            None => None,
        }
    }
}

} // verus!
