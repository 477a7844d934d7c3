//! The fixed SQL text of the alert event and alert group queries.

use vstd::prelude::*;

verus! {

/// The auth-token-log half of the alerts CTE, around its two request-kind expressions. Part 1 of 3.
pub const EVENTS_AUTH_SELECT_HEAD: &'static str = r#" AS source_kind,
                CAST(atl.id AS TEXT) AS source_id,
                printf('atl:%020lld', atl.id) AS row_sort_id,
                CASE
                    WHEN atl.failure_kind = 'upstream_rate_limited_429' THEN 'upstream_rate_limited_429'
                    WHEN atl.result_status = 'quota_exhausted' AND COALESCE(atl.http_status, rl.tavily_status_code) = 432 THEN 'upstream_usage_limit_432'
                    WHEN atl.result_status = 'quota_exhausted' AND atl.counts_business_quota = 0 THEN 'user_request_rate_limited'
                    WHEN atl.result_status = 'quota_exhausted' THEN 'user_quota_exhausted'
                    ELSE ''
                END AS alert_type,
                atl.created_at AS occurred_at,
                atl.token_id AS token_id,
                COALESCE(atl.api_key_id, rl.api_key_id) AS key_id,
                atl.request_log_id AS request_log_id,
                COALESCE(NULLIF(TRIM(atl.method), ''), rl.method) AS method,
                COALESCE(NULLIF(TRIM(atl.path), ''), rl.path) AS path,
                COALESCE(atl.query, rl.query) AS query,
                "#;

/// The auth-token-log half of the alerts CTE, around its two request-kind expressions. Part 2 of 3.
pub const EVENTS_AUTH_SELECT_MID: &'static str = r#" AS request_kind_key,
                "#;

/// The auth-token-log half of the alerts CTE, around its two request-kind expressions. Part 3 of 3.
pub const EVENTS_AUTH_SELECT_TAIL: &'static str = r#" AS request_kind_label,
                atl.request_kind_detail AS request_kind_detail,
                atl.result_status AS result_status,
                atl.failure_kind AS failure_kind,
                atl.error_message AS error_message,
                atl.counts_business_quota AS counts_business_quota,
                u.id AS user_id,
                u.display_name AS user_display_name,
                u.username AS user_username,
                NULL AS reason_code,
                NULL AS reason_summary,
                NULL AS reason_detail
            FROM auth_token_logs atl
            LEFT JOIN observability.request_logs rl
              ON rl.id = atl.request_log_id
             AND (
                    atl.method IS NULL
                 OR atl.method = ''
                 OR atl.path IS NULL
                 OR atl.path = ''
                 OR atl.request_kind_key IS NULL
                 OR atl.request_kind_key = ''
                 OR atl.request_kind_label IS NULL
                 OR atl.request_kind_label = ''
                 OR atl.api_key_id IS NULL
                 OR atl.query IS NULL
                )
            LEFT JOIN user_token_bindings b ON b.token_id = atl.token_id
            LEFT JOIN users u ON u.id = b.user_id
            WHERE (
                atl.failure_kind = 'upstream_rate_limited_429'
                OR atl.result_status = 'quota_exhausted'
            )
            "#;

/// Joins the auth-token-log half of the alerts CTE to the maintenance half.
pub const EVENTS_UNION_SELECT: &'static str = r#"
            UNION ALL
            SELECT
            "#;

/// The maintenance-record half of the alerts CTE, around its two request-kind expressions. Part 1 of 3.
pub const EVENTS_MAINT_SELECT_HEAD: &'static str = r#" AS source_kind,
                m.id AS source_id,
                printf('maint:%s', m.id) AS row_sort_id,
                'upstream_key_blocked' AS alert_type,
                m.created_at AS occurred_at,
                COALESCE(m.auth_token_id, atl.token_id) AS token_id,
                m.key_id AS key_id,
                COALESCE(m.request_log_id, atl.request_log_id) AS request_log_id,
                COALESCE(NULLIF(TRIM(atl.method), ''), rl.method) AS method,
                COALESCE(NULLIF(TRIM(atl.path), ''), rl.path) AS path,
                COALESCE(atl.query, rl.query) AS query,
                "#;

/// The maintenance-record half of the alerts CTE, around its two request-kind expressions. Part 2 of 3.
pub const EVENTS_MAINT_SELECT_MID: &'static str = r#" AS request_kind_key,
                "#;

/// The maintenance-record half of the alerts CTE, around its two request-kind expressions. Part 3 of 3.
pub const EVENTS_MAINT_SELECT_TAIL: &'static str = r#" AS request_kind_label,
                atl.request_kind_detail AS request_kind_detail,
                atl.result_status AS result_status,
                atl.failure_kind AS failure_kind,
                atl.error_message AS error_message,
                NULL AS counts_business_quota,
                u.id AS user_id,
                u.display_name AS user_display_name,
                u.username AS user_username,
                m.reason_code AS reason_code,
                m.reason_summary AS reason_summary,
                m.reason_detail AS reason_detail
            FROM api_key_maintenance_records m
            LEFT JOIN auth_token_logs atl ON atl.id = m.auth_token_log_id
            LEFT JOIN observability.request_logs rl
              ON rl.id = COALESCE(m.request_log_id, atl.request_log_id)
             AND (
                    atl.id IS NULL
                 OR atl.method IS NULL
                 OR atl.method = ''
                 OR atl.path IS NULL
                 OR atl.path = ''
                 OR atl.request_kind_key IS NULL
                 OR atl.request_kind_key = ''
                 OR atl.request_kind_label IS NULL
                 OR atl.request_kind_label = ''
                 OR atl.query IS NULL
                )
            LEFT JOIN user_token_bindings b ON b.token_id = COALESCE(m.auth_token_id, atl.token_id)
            LEFT JOIN users u ON u.id = b.user_id
            WHERE COALESCE(m.reason_code, '') IN ('account_deactivated', 'key_revoked', 'invalid_api_key')
            "#;

/// The classifying CTEs of the alert groups query, around the subject, request-kind and rate-window values. Part 1 of 6.
pub const GROUPS_CLASSIFY_0: &'static str = r#",
            classified_alerts AS (
                SELECT
                    alerts.*,
                    "#;

/// The classifying CTEs of the alert groups query, around the subject, request-kind and rate-window values. Part 2 of 6.
pub const GROUPS_CLASSIFY_1: &'static str = r#" AS subject_kind,
                    "#;

/// The classifying CTEs of the alert groups query, around the subject, request-kind and rate-window values. Part 3 of 6.
pub const GROUPS_CLASSIFY_2: &'static str = r#" AS subject_id,
                    "#;

/// The classifying CTEs of the alert groups query, around the subject, request-kind and rate-window values. Part 4 of 6.
pub const GROUPS_CLASSIFY_3: &'static str = r#" AS request_kind_key_normalized,
                    CASE
                        WHEN alerts.alert_type = 'user_request_rate_limited'
                            THEN 'mother'
                        WHEN alerts.alert_type = 'user_quota_exhausted'
                             AND (
                                 instr(COALESCE(alerts.error_message, ''), 'month window') > 0
                                 OR instr(COALESCE(alerts.error_message, ''), 'day window') > 0
                                 OR instr(COALESCE(alerts.error_message, ''), 'hour window') > 0
                             )
                            THEN 'mother'
                        ELSE 'compat'
                    END AS grouping_kind,
                    CASE
                        WHEN alerts.alert_type = 'user_request_rate_limited'
                            THEN 'request_rate'
                        WHEN alerts.alert_type = 'user_quota_exhausted'
                             AND instr(COALESCE(alerts.error_message, ''), 'month window') > 0
                            THEN 'month'
                        WHEN alerts.alert_type = 'user_quota_exhausted'
                             AND instr(COALESCE(alerts.error_message, ''), 'day window') > 0
                            THEN 'day'
                        WHEN alerts.alert_type = 'user_quota_exhausted'
                             AND instr(COALESCE(alerts.error_message, ''), 'hour window') > 0
                            THEN 'rolling_hour'
                        ELSE NULL
                    END AS semantic_window_kind,
                    CASE
                        WHEN alerts.alert_type = 'user_request_rate_limited'
                            THEN "#;

/// The classifying CTEs of the alert groups query, around the subject, request-kind and rate-window values. Part 5 of 6.
pub const GROUPS_CLASSIFY_4: &'static str = r#"
                        WHEN alerts.alert_type = 'user_quota_exhausted'
                             AND instr(COALESCE(alerts.error_message, ''), 'hour window') > 0
                            THEN 60
                        ELSE NULL
                    END AS semantic_window_minutes,
                    CASE
                        WHEN alerts.alert_type = 'user_request_rate_limited'
                            THEN alerts.occurred_at - "#;

/// The classifying CTEs of the alert groups query, around the subject, request-kind and rate-window values. Part 6 of 6.
pub const GROUPS_CLASSIFY_5: &'static str = r#"
                        WHEN alerts.alert_type = 'user_quota_exhausted'
                             AND instr(COALESCE(alerts.error_message, ''), 'hour window') > 0
                            THEN alerts.occurred_at - 3540
                        WHEN alerts.alert_type = 'user_quota_exhausted'
                             AND instr(COALESCE(alerts.error_message, ''), 'day window') > 0
                            THEN CAST(strftime('%s', datetime(alerts.occurred_at, 'unixepoch', 'localtime', 'start of day', 'utc')) AS INTEGER)
                        WHEN alerts.alert_type = 'user_quota_exhausted'
                             AND instr(COALESCE(alerts.error_message, ''), 'month window') > 0
                            THEN CAST(strftime('%s', datetime(alerts.occurred_at, 'unixepoch', 'start of month')) AS INTEGER)
                        ELSE NULL
                    END AS semantic_window_start,
                    CASE
                        WHEN alerts.alert_type = 'user_request_rate_limited'
                            THEN alerts.occurred_at
                        WHEN alerts.alert_type = 'user_quota_exhausted'
                             AND instr(COALESCE(alerts.error_message, ''), 'hour window') > 0
                            THEN alerts.occurred_at
                        WHEN alerts.alert_type = 'user_quota_exhausted'
                             AND instr(COALESCE(alerts.error_message, ''), 'day window') > 0
                            THEN CAST(strftime('%s', datetime(alerts.occurred_at, 'unixepoch', 'localtime', 'start of day', '+1 day', 'utc')) AS INTEGER) - 1
                        WHEN alerts.alert_type = 'user_quota_exhausted'
                             AND instr(COALESCE(alerts.error_message, ''), 'month window') > 0
                            THEN CAST(strftime('%s', datetime(alerts.occurred_at, 'unixepoch', 'start of month', '+1 month')) AS INTEGER) - 1
                        ELSE NULL
                    END AS semantic_window_end,
                    CASE
                        WHEN alerts.alert_type = 'user_request_rate_limited'
                            THEN NULL
                        WHEN alerts.alert_type = 'user_quota_exhausted'
                             AND instr(COALESCE(alerts.error_message, ''), 'hour window') > 0
                            THEN printf('hour:%lld', alerts.occurred_at - 3540)
                        WHEN alerts.alert_type = 'user_quota_exhausted'
                             AND instr(COALESCE(alerts.error_message, ''), 'day window') > 0
                            THEN printf('day:%lld', CAST(strftime('%s', datetime(alerts.occurred_at, 'unixepoch', 'localtime', 'start of day', 'utc')) AS INTEGER))
                        WHEN alerts.alert_type = 'user_quota_exhausted'
                             AND instr(COALESCE(alerts.error_message, ''), 'month window') > 0
                            THEN printf('month:%lld', CAST(strftime('%s', datetime(alerts.occurred_at, 'unixepoch', 'start of month')) AS INTEGER))
                        ELSE NULL
                    END AS semantic_window_key
                FROM alerts
            ),
            filtered_alerts AS (
                SELECT * FROM classified_alerts
                WHERE 1 = 1
            "#;

/// The windowing CTEs of the alert groups query, around the request-rate window length. Part 1 of 3.
pub const GROUPS_WINDOW_0: &'static str = r#"
            ),
            semantic_events AS (
                SELECT
                    filtered_alerts.*,
                    LAG(filtered_alerts.semantic_window_key) OVER (
                        PARTITION BY filtered_alerts.alert_type,
                                     filtered_alerts.subject_kind,
                                     filtered_alerts.subject_id,
                                     filtered_alerts.semantic_window_kind,
                                     COALESCE(filtered_alerts.semantic_window_minutes, 0)
                        ORDER BY filtered_alerts.occurred_at ASC, filtered_alerts.row_sort_id ASC
                    ) AS prev_window_key,
                    LAG(filtered_alerts.semantic_window_kind) OVER (
                        PARTITION BY filtered_alerts.alert_type,
                                     filtered_alerts.subject_kind,
                                     filtered_alerts.subject_id,
                                     filtered_alerts.semantic_window_kind,
                                     COALESCE(filtered_alerts.semantic_window_minutes, 0)
                        ORDER BY filtered_alerts.occurred_at ASC, filtered_alerts.row_sort_id ASC
                    ) AS prev_window_kind,
                    LAG(filtered_alerts.semantic_window_minutes) OVER (
                        PARTITION BY filtered_alerts.alert_type,
                                     filtered_alerts.subject_kind,
                                     filtered_alerts.subject_id,
                                     filtered_alerts.semantic_window_kind,
                                     COALESCE(filtered_alerts.semantic_window_minutes, 0)
                        ORDER BY filtered_alerts.occurred_at ASC, filtered_alerts.row_sort_id ASC
                    ) AS prev_window_minutes,
                    LAG(filtered_alerts.semantic_window_end) OVER (
                        PARTITION BY filtered_alerts.alert_type,
                                     filtered_alerts.subject_kind,
                                     filtered_alerts.subject_id,
                                     filtered_alerts.semantic_window_kind,
                                     COALESCE(filtered_alerts.semantic_window_minutes, 0)
                        ORDER BY filtered_alerts.occurred_at ASC, filtered_alerts.row_sort_id ASC
                    ) AS prev_window_end,
                    LAG(filtered_alerts.occurred_at) OVER (
                        PARTITION BY filtered_alerts.alert_type,
                                     filtered_alerts.subject_kind,
                                     filtered_alerts.subject_id,
                                     filtered_alerts.semantic_window_kind,
                                     COALESCE(filtered_alerts.semantic_window_minutes, 0)
                        ORDER BY filtered_alerts.occurred_at ASC, filtered_alerts.row_sort_id ASC
                    ) AS prev_occurred_at
                FROM filtered_alerts
                WHERE filtered_alerts.grouping_kind = 'mother'
                  AND filtered_alerts.semantic_window_kind IS NOT NULL
            ),
            semantic_children AS (
                SELECT
                    semantic_events.*,
                    SUM(
                        CASE
                            WHEN semantic_events.semantic_window_kind = 'request_rate' THEN
                                CASE
                                    WHEN semantic_events.prev_occurred_at IS NULL THEN 1
                                    WHEN semantic_events.occurred_at - semantic_events.prev_occurred_at
                                         > COALESCE(semantic_events.prev_window_minutes, semantic_events.semantic_window_minutes, "#;

/// The windowing CTEs of the alert groups query, around the request-rate window length. Part 2 of 3.
pub const GROUPS_WINDOW_1: &'static str = r#") * 60
                                        THEN 1
                                    ELSE 0
                                END
                            ELSE
                                CASE
                                    WHEN semantic_events.prev_window_key IS NULL THEN 1
                                    WHEN semantic_events.prev_window_kind != semantic_events.semantic_window_kind THEN 1
                                    WHEN COALESCE(semantic_events.prev_window_key, '') != COALESCE(semantic_events.semantic_window_key, '') THEN 1
                                    ELSE 0
                                END
                        END
                    ) OVER (
                        PARTITION BY semantic_events.alert_type,
                                     semantic_events.subject_kind,
                                     semantic_events.subject_id,
                                     semantic_events.semantic_window_kind,
                                     COALESCE(semantic_events.semantic_window_minutes, 0)
                        ORDER BY semantic_events.occurred_at ASC, semantic_events.row_sort_id ASC
                        ROWS BETWEEN UNBOUNDED PRECEDING AND CURRENT ROW
                    ) AS child_ordinal
                FROM semantic_events
            ),
            semantic_child_ranges AS (
                SELECT
                    semantic_children.*,
                    MIN(semantic_children.occurred_at) OVER (
                        PARTITION BY semantic_children.alert_type,
                                     semantic_children.subject_kind,
                                     semantic_children.subject_id,
                                     semantic_children.semantic_window_kind,
                                     COALESCE(semantic_children.semantic_window_minutes, 0),
                                     semantic_children.child_ordinal
                    ) AS child_first_seen,
                    MAX(semantic_children.occurred_at) OVER (
                        PARTITION BY semantic_children.alert_type,
                                     semantic_children.subject_kind,
                                     semantic_children.subject_id,
                                     semantic_children.semantic_window_kind,
                                     COALESCE(semantic_children.semantic_window_minutes, 0),
                                     semantic_children.child_ordinal
                    ) AS child_last_seen,
                    COUNT(*) OVER (
                        PARTITION BY semantic_children.alert_type,
                                     semantic_children.subject_kind,
                                     semantic_children.subject_id,
                                     semantic_children.semantic_window_kind,
                                     COALESCE(semantic_children.semantic_window_minutes, 0),
                                     semantic_children.child_ordinal
                    ) AS child_event_count,
                    MIN(semantic_children.semantic_window_start) OVER (
                        PARTITION BY semantic_children.alert_type,
                                     semantic_children.subject_kind,
                                     semantic_children.subject_id,
                                     semantic_children.semantic_window_kind,
                                     COALESCE(semantic_children.semantic_window_minutes, 0),
                                     semantic_children.child_ordinal
                    ) AS child_window_start,
                    MAX(semantic_children.semantic_window_end) OVER (
                        PARTITION BY semantic_children.alert_type,
                                     semantic_children.subject_kind,
                                     semantic_children.subject_id,
                                     semantic_children.semantic_window_kind,
                                     COALESCE(semantic_children.semantic_window_minutes, 0),
                                     semantic_children.child_ordinal
                    ) AS child_window_end,
                    ROW_NUMBER() OVER (
                        PARTITION BY semantic_children.alert_type,
                                     semantic_children.subject_kind,
                                     semantic_children.subject_id,
                                     semantic_children.semantic_window_kind,
                                     COALESCE(semantic_children.semantic_window_minutes, 0),
                                     semantic_children.child_ordinal
                        ORDER BY semantic_children.occurred_at DESC, semantic_children.row_sort_id DESC
                    ) AS child_latest_rank
                FROM semantic_children
            ),
            semantic_child_heads AS (
                SELECT
                    semantic_child_ranges.alert_type,
                    semantic_child_ranges.subject_kind,
                    semantic_child_ranges.subject_id,
                    semantic_child_ranges.semantic_window_kind,
                    semantic_child_ranges.semantic_window_minutes,
                    semantic_child_ranges.child_ordinal,
                    semantic_child_ranges.row_sort_id,
                    semantic_child_ranges.child_first_seen,
                    semantic_child_ranges.child_last_seen,
                    semantic_child_ranges.child_event_count,
                    semantic_child_ranges.child_window_start,
                    semantic_child_ranges.child_window_end,
                    LAG(semantic_child_ranges.child_window_end) OVER (
                        PARTITION BY semantic_child_ranges.alert_type,
                                     semantic_child_ranges.subject_kind,
                                     semantic_child_ranges.subject_id,
                                     semantic_child_ranges.semantic_window_kind,
                                     COALESCE(semantic_child_ranges.semantic_window_minutes, 0)
                        ORDER BY semantic_child_ranges.child_first_seen ASC,
                                 semantic_child_ranges.child_ordinal ASC
                    ) AS prev_child_window_end,
                    LAG(semantic_child_ranges.child_last_seen) OVER (
                        PARTITION BY semantic_child_ranges.alert_type,
                                     semantic_child_ranges.subject_kind,
                                     semantic_child_ranges.subject_id,
                                     semantic_child_ranges.semantic_window_kind,
                                     COALESCE(semantic_child_ranges.semantic_window_minutes, 0)
                        ORDER BY semantic_child_ranges.child_first_seen ASC,
                                 semantic_child_ranges.child_ordinal ASC
                    ) AS prev_child_last_seen
                FROM semantic_child_ranges
                WHERE semantic_child_ranges.child_latest_rank = 1
            ),
            semantic_mother_heads AS (
                SELECT
                    semantic_child_heads.*,
                    SUM(
                        CASE
                            WHEN semantic_child_heads.prev_child_last_seen IS NULL THEN 1
                            WHEN semantic_child_heads.semantic_window_kind = 'request_rate'
                                 AND semantic_child_heads.child_window_start
                                     - COALESCE(semantic_child_heads.prev_child_window_end, semantic_child_heads.prev_child_last_seen)
                                     > COALESCE(semantic_child_heads.semantic_window_minutes, "#;

/// The windowing CTEs of the alert groups query, around the request-rate window length. Part 3 of 3.
pub const GROUPS_WINDOW_2: &'static str = r#") * 60
                                THEN 1
                            WHEN semantic_child_heads.semantic_window_kind = 'rolling_hour'
                                 AND semantic_child_heads.child_window_start
                                     - COALESCE(semantic_child_heads.prev_child_window_end, semantic_child_heads.prev_child_last_seen)
                                     > 3600
                                THEN 1
                            WHEN semantic_child_heads.semantic_window_kind IN ('day', 'month')
                                 AND semantic_child_heads.child_window_start
                                     - COALESCE(semantic_child_heads.prev_child_window_end, semantic_child_heads.prev_child_last_seen)
                                     > 1
                                THEN 1
                            ELSE 0
                        END
                    ) OVER (
                        PARTITION BY semantic_child_heads.alert_type,
                                     semantic_child_heads.subject_kind,
                                     semantic_child_heads.subject_id,
                                     semantic_child_heads.semantic_window_kind,
                                     COALESCE(semantic_child_heads.semantic_window_minutes, 0)
                        ORDER BY semantic_child_heads.child_first_seen ASC,
                                 semantic_child_heads.child_ordinal ASC
                        ROWS BETWEEN UNBOUNDED PRECEDING AND CURRENT ROW
                        ) AS mother_ordinal
                FROM semantic_child_heads
            ),
            semantic_grouped_alerts AS (
                SELECT
                    'mother' AS grouping_kind,
                    semantic_mother_heads.row_sort_id AS row_sort_id,
                    semantic_mother_heads.alert_type AS alert_type,
                    semantic_mother_heads.subject_kind AS subject_kind,
                    semantic_mother_heads.subject_id AS subject_id,
                    NULL AS request_kind_key_normalized,
                    SUM(semantic_mother_heads.child_event_count) OVER (
                        PARTITION BY semantic_mother_heads.alert_type,
                                     semantic_mother_heads.subject_kind,
                                     semantic_mother_heads.subject_id,
                                     semantic_mother_heads.semantic_window_kind,
                                     COALESCE(semantic_mother_heads.semantic_window_minutes, 0),
                                     semantic_mother_heads.mother_ordinal
                    ) AS total_count,
                    MIN(semantic_mother_heads.child_first_seen) OVER (
                        PARTITION BY semantic_mother_heads.alert_type,
                                     semantic_mother_heads.subject_kind,
                                     semantic_mother_heads.subject_id,
                                     semantic_mother_heads.semantic_window_kind,
                                     COALESCE(semantic_mother_heads.semantic_window_minutes, 0),
                                     semantic_mother_heads.mother_ordinal
                    ) AS first_seen,
                    MAX(semantic_mother_heads.child_last_seen) OVER (
                        PARTITION BY semantic_mother_heads.alert_type,
                                     semantic_mother_heads.subject_kind,
                                     semantic_mother_heads.subject_id,
                                     semantic_mother_heads.semantic_window_kind,
                                     COALESCE(semantic_mother_heads.semantic_window_minutes, 0),
                                     semantic_mother_heads.mother_ordinal
                    ) AS last_seen,
                    semantic_mother_heads.semantic_window_kind AS semantic_window_kind,
                    semantic_mother_heads.semantic_window_minutes AS semantic_window_minutes,
                    MIN(semantic_mother_heads.child_window_start) OVER (
                        PARTITION BY semantic_mother_heads.alert_type,
                                     semantic_mother_heads.subject_kind,
                                     semantic_mother_heads.subject_id,
                                     semantic_mother_heads.semantic_window_kind,
                                     COALESCE(semantic_mother_heads.semantic_window_minutes, 0),
                                     semantic_mother_heads.mother_ordinal
                    ) AS semantic_window_start,
                    MAX(semantic_mother_heads.child_window_end) OVER (
                        PARTITION BY semantic_mother_heads.alert_type,
                                     semantic_mother_heads.subject_kind,
                                     semantic_mother_heads.subject_id,
                                     semantic_mother_heads.semantic_window_kind,
                                     COALESCE(semantic_mother_heads.semantic_window_minutes, 0),
                                     semantic_mother_heads.mother_ordinal
                    ) AS semantic_window_end,
                    COUNT(*) OVER (
                        PARTITION BY semantic_mother_heads.alert_type,
                                     semantic_mother_heads.subject_kind,
                                     semantic_mother_heads.subject_id,
                                     semantic_mother_heads.semantic_window_kind,
                                     COALESCE(semantic_mother_heads.semantic_window_minutes, 0),
                                     semantic_mother_heads.mother_ordinal
                    ) AS child_count,
                    ROW_NUMBER() OVER (
                        PARTITION BY semantic_mother_heads.alert_type,
                                     semantic_mother_heads.subject_kind,
                                     semantic_mother_heads.subject_id,
                                     semantic_mother_heads.semantic_window_kind,
                                     COALESCE(semantic_mother_heads.semantic_window_minutes, 0),
                                     semantic_mother_heads.mother_ordinal
                        ORDER BY semantic_mother_heads.child_last_seen DESC,
                                 semantic_mother_heads.row_sort_id DESC
                    ) AS group_rank
                FROM semantic_mother_heads
            ),
            compat_grouped_alerts AS (
                SELECT
                    'compat' AS grouping_kind,
                    filtered_alerts.row_sort_id AS row_sort_id,
                    filtered_alerts.alert_type AS alert_type,
                    filtered_alerts.subject_kind AS subject_kind,
                    filtered_alerts.subject_id AS subject_id,
                    filtered_alerts.request_kind_key_normalized AS request_kind_key_normalized,
                    COUNT(*) OVER (
                        PARTITION BY filtered_alerts.alert_type,
                                     filtered_alerts.subject_kind,
                                     filtered_alerts.subject_id,
                                     filtered_alerts.request_kind_key_normalized
                    ) AS total_count,
                    MIN(filtered_alerts.occurred_at) OVER (
                        PARTITION BY filtered_alerts.alert_type,
                                     filtered_alerts.subject_kind,
                                     filtered_alerts.subject_id,
                                     filtered_alerts.request_kind_key_normalized
                    ) AS first_seen,
                    MAX(filtered_alerts.occurred_at) OVER (
                        PARTITION BY filtered_alerts.alert_type,
                                     filtered_alerts.subject_kind,
                                     filtered_alerts.subject_id,
                                     filtered_alerts.request_kind_key_normalized
                    ) AS last_seen,
                    NULL AS semantic_window_kind,
                    NULL AS semantic_window_minutes,
                    NULL AS semantic_window_start,
                    NULL AS semantic_window_end,
                    0 AS child_count,
                    ROW_NUMBER() OVER (
                        PARTITION BY filtered_alerts.alert_type,
                                     filtered_alerts.subject_kind,
                                     filtered_alerts.subject_id,
                                     filtered_alerts.request_kind_key_normalized
                        ORDER BY filtered_alerts.occurred_at DESC, filtered_alerts.row_sort_id DESC
                    ) AS group_rank
                FROM filtered_alerts
                WHERE filtered_alerts.grouping_kind = 'compat'
            ),
            grouped_alerts AS (
                SELECT * FROM semantic_grouped_alerts WHERE group_rank = 1
                UNION ALL
                SELECT * FROM compat_grouped_alerts WHERE group_rank = 1
            )"#;

} // verus!
