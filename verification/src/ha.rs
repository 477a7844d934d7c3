//! High-availability sync: channels, their tables, and the SQL text that
//! exports, counts and triggers on them.

use vstd::prelude::*;
use vstd::string::*;
use crate::error::ProxyError;
use crate::text::{cat, concat_all, join_spec, join_strings, owned, replace_char, replace_char_exec, str_eq, string_views};

verus! {

/// A replication channel.
#[derive(PartialEq, Eq, Structural, Clone, Copy, Debug)]
pub enum HaSyncChannel {
    Control,
    Billing,
    Runtime,
}

/// The name of a channel.
pub open spec fn channel_str(c: HaSyncChannel) -> Seq<char> {
    match c {
        HaSyncChannel::Control => "control"@,
        HaSyncChannel::Billing => "billing"@,
        HaSyncChannel::Runtime => "runtime"@,
    }
}

impl HaSyncChannel {
    /// The name of this channel.
    pub fn as_str(&self) -> (r: &'static str)
        ensures
            r@ == channel_str(*self),
    {
        match self {
            HaSyncChannel::Control => "control",
            HaSyncChannel::Billing => "billing",
            HaSyncChannel::Runtime => "runtime",
        }
    }
}

/// A node's role in an HA pair.
#[derive(PartialEq, Eq, Structural, Clone, Copy, Debug)]
pub enum HaNodeRole {
    FullMaster,
    ProvisionalMaster,
    Standby,
    Recovery,
}

/// How a baseline is applied to the local tables.
#[derive(PartialEq, Eq, Structural, Clone, Copy, Debug)]
pub enum HaBaselineApplyMode {
    Replace,
    Upsert,
}

/// An exported baseline of one channel.
pub struct HaBaselineExport {
    pub channel: HaSyncChannel,
    pub ndjson: String,
    pub high_watermark: i64,
    pub row_count: usize,
}

/// What applying a baseline or an event stream did.
pub struct HaApplyResult {
    pub channel: HaSyncChannel,
    pub high_watermark: i64,
    pub row_count: usize,
    pub payload_bytes: usize,
}

/// The control tables, in export order.
pub open spec fn control_tables() -> Seq<Seq<char>> {
    seq![
        "announcements"@, "account_entitlements"@, "api_key_low_quota_depletions"@,
        "api_key_maintenance_records"@, "api_key_quarantines"@, "api_keys"@, "auth_tokens"@,
        "forward_proxy_settings"@, "linuxdo_credit_recharge_entitlements"@,
        "linuxdo_credit_recharge_orders"@, "meta"@, "oauth_accounts"@, "token_api_key_bindings"@,
        "user_api_key_bindings"@, "user_tag_bindings"@, "user_tags"@, "user_token_bindings"@,
        "users"@
    ]
}

/// The billing tables.
pub open spec fn billing_tables() -> Seq<Seq<char>> {
    seq!["billing_ledger"@]
}

/// The runtime tables, in export order.
pub open spec fn runtime_tables() -> Seq<Seq<char>> {
    seq![
        "account_monthly_quota"@, "account_quota_limits"@, "account_usage_buckets"@,
        "auth_token_quota"@, "forward_proxy_key_affinity"@, "forward_proxy_node_overrides"@,
        "http_project_api_key_affinity"@, "mcp_sessions"@, "research_requests"@,
        "token_primary_api_key_affinity"@, "token_usage_buckets"@, "user_primary_api_key_affinity"@
    ]
}

/// The tables a channel exports in its baseline (and replicates as events).
pub open spec fn baseline_tables_spec(c: HaSyncChannel) -> Seq<Seq<char>> {
    match c {
        HaSyncChannel::Control => control_tables(),
        HaSyncChannel::Billing => billing_tables(),
        HaSyncChannel::Runtime => runtime_tables(),
    }
}

/// The views of string slices.
pub open spec fn str_views(s: Seq<&str>) -> Seq<Seq<char>> {
    s.map_values(|x: &str| x@)
}

fn control_tables_exec() -> (r: Vec<&'static str>)
    ensures
        str_views(r@) == control_tables(),
{
    let r = vec![
        "announcements", "account_entitlements", "api_key_low_quota_depletions",
        "api_key_maintenance_records", "api_key_quarantines", "api_keys", "auth_tokens",
        "forward_proxy_settings", "linuxdo_credit_recharge_entitlements",
        "linuxdo_credit_recharge_orders", "meta", "oauth_accounts", "token_api_key_bindings",
        "user_api_key_bindings", "user_tag_bindings", "user_tags", "user_token_bindings", "users",
    ];
    assert(str_views(r@) =~= control_tables());
    r
}

fn runtime_tables_exec() -> (r: Vec<&'static str>)
    ensures
        str_views(r@) == runtime_tables(),
{
    let r = vec![
        "account_monthly_quota", "account_quota_limits", "account_usage_buckets",
        "auth_token_quota", "forward_proxy_key_affinity", "forward_proxy_node_overrides",
        "http_project_api_key_affinity", "mcp_sessions", "research_requests",
        "token_primary_api_key_affinity", "token_usage_buckets", "user_primary_api_key_affinity",
    ];
    assert(str_views(r@) =~= runtime_tables());
    r
}

/// The tables a channel exports in its baseline.
pub fn ha_baseline_tables(channel: HaSyncChannel) -> (r: Vec<&'static str>)
    ensures
        str_views(r@) == baseline_tables_spec(channel),
{
    match channel {
        HaSyncChannel::Control => control_tables_exec(),
        HaSyncChannel::Billing => {
            let r = vec!["billing_ledger"];
            assert(str_views(r@) =~= billing_tables());
            r
        },
        HaSyncChannel::Runtime => runtime_tables_exec(),
    }
}

/// The tables whose changes a channel carries as events (the same tables as
/// its baseline).
pub fn ha_channel_event_tables(channel: HaSyncChannel) -> (r: Vec<&'static str>)
    ensures
        str_views(r@) == baseline_tables_spec(channel),
{
    ha_baseline_tables(channel)
}

/// The resources a channel accepts from a peer.
pub fn ha_channel_allowed_resources(channel: HaSyncChannel) -> (r: Vec<&'static str>)
    ensures
        str_views(r@) == baseline_tables_spec(channel),
{
    ha_baseline_tables(channel)
}

/// Whether a peer may write `resource` through `channel`.
pub open spec fn resource_allowed_spec(c: HaSyncChannel, resource: Seq<char>) -> bool {
    baseline_tables_spec(c).contains(resource) || (c == HaSyncChannel::Control && resource == "meta"@)
}

/// Whether a peer may write `resource` through `channel`.
pub fn ha_resource_allowed_for_channel(channel: HaSyncChannel, resource: &str) -> (r: bool)
    ensures
        r == resource_allowed_spec(channel, resource@),
{
    let tables = ha_baseline_tables(channel);
    let mut i: usize = 0;
    while i < tables.len()
        invariant
            i <= tables.len(),
            str_views(tables@) == baseline_tables_spec(channel),
            forall|j: int| 0 <= j < i ==> str_views(tables@)[j] != resource@,
        decreases tables.len() - i,
    {
        if str_eq(tables[i], resource) {
            proof {
                assert(str_views(tables@)[i as int] == resource@);
            }
            return true;
        }
        i = i + 1;
    }
    proof {
        assert(!baseline_tables_spec(channel).contains(resource@)) by {
            if baseline_tables_spec(channel).contains(resource@) {
                let j = choose|j: int| 0 <= j < baseline_tables_spec(channel).len() && baseline_tables_spec(channel)[j] == resource@;
                assert(str_views(tables@)[j] == resource@);
            }
        }
    }
    channel == HaSyncChannel::Control && str_eq(resource, "meta")
}

/// The outbox table that holds a channel's events.
pub open spec fn event_table_spec(c: HaSyncChannel) -> Seq<char> {
    match c {
        HaSyncChannel::Control => "ha_outbox"@,
        HaSyncChannel::Billing => "ha_billing_outbox"@,
        HaSyncChannel::Runtime => "ha_runtime_outbox"@,
    }
}

/// The outbox table that holds a channel's events.
pub fn ha_channel_event_table(channel: HaSyncChannel) -> (r: &'static str)
    ensures
        r@ == event_table_spec(channel),
{
    match channel {
        HaSyncChannel::Control => "ha_outbox",
        HaSyncChannel::Billing => "ha_billing_outbox",
        HaSyncChannel::Runtime => "ha_runtime_outbox",
    }
}

/// The sequence a channel's events are numbered by (its outbox table's name).
pub fn ha_channel_sequence_name(channel: HaSyncChannel) -> (r: &'static str)
    ensures
        r@ == event_table_spec(channel),
{
    ha_channel_event_table(channel)
}

pub const HA_SCHEMA_VERSION: i64 = 2;
pub const HA_CONTROL_OUTBOX_RETENTION_SECS: i64 = 259200;
pub const HA_CHANNEL_EXPORT_RETENTION_SECS: i64 = 7948800;
pub const HA_CONTROL_PLANE_EVENT_RETENTION_SECS: i64 = 604800;

/// How long a channel's events are kept: three days for control, 92 days otherwise.
pub fn ha_channel_retention_secs(channel: HaSyncChannel) -> (r: i64)
    ensures
        r == match channel {
            HaSyncChannel::Control => 72 * 60 * 60,
            _ => 92 * 24 * 60 * 60,
        },
{
    match channel {
        HaSyncChannel::Control => HA_CONTROL_OUTBOX_RETENTION_SECS,
        HaSyncChannel::Billing | HaSyncChannel::Runtime => HA_CHANNEL_EXPORT_RETENTION_SECS,
    }
}

/// The name prefixes of a channel's outbox triggers.
pub open spec fn trigger_prefixes_spec(c: HaSyncChannel) -> Seq<Seq<char>> {
    let first = "trg_ha_"@ + channel_str(c) + "_"@;
    if c == HaSyncChannel::Control { seq![first, "trg_ha_outbox_"@] } else { seq![first] }
}

/// The name prefixes of a channel's outbox triggers (the control channel also
/// owns the legacy `trg_ha_outbox_` triggers).
pub fn ha_channel_outbox_trigger_prefixes(channel: HaSyncChannel) -> (r: Vec<String>)
    ensures
        string_views(r@) == trigger_prefixes_spec(channel),
{
    let first = cat(&vec!["trg_ha_", channel.as_str(), "_"]);
    proof {
        reveal_with_fuel(concat_all, 4);
        assert(first@ =~= "trg_ha_"@ + channel_str(channel) + "_"@);
    }
    let mut r: Vec<String> = Vec::new();
    r.push(first);
    if channel == HaSyncChannel::Control {
        r.push(owned("trg_ha_outbox_"));
    }
    assert(string_views(r@) =~= trigger_prefixes_spec(channel));
    r
}

/// `"value"` with inner double quotes doubled: an SQLite identifier.
pub open spec fn quote_identifier_spec(v: Seq<char>) -> Seq<char> {
    seq!['"'] + replace_char(v, '"', seq!['"', '"']) + seq!['"']
}

/// `'value'` with inner single quotes doubled: an SQLite string literal.
pub open spec fn quote_string_spec(v: Seq<char>) -> Seq<char> {
    seq!['\''] + replace_char(v, '\'', seq!['\'', '\'']) + seq!['\'']
}

/// `s` with each pair of `c` read back as one `c`, pairs taken from the end.
pub open spec fn undouble_char(s: Seq<char>, c: char) -> Seq<char>
    decreases s.len(),
{
    if s.len() == 0 {
        Seq::empty()
    } else if s.len() >= 2 && s.last() == c && s[s.len() - 2] == c {
        undouble_char(s.drop_last().drop_last(), c) + seq![c]
    } else {
        undouble_char(s.drop_last(), c) + seq![s.last()]
    }
}

/// Reads a quoted SQLite name or literal back: the text between the outer
/// `q` characters, with each doubled `q` inside read as one.
pub open spec fn unquote_spec(text: Seq<char>, q: char) -> Seq<char> {
    undouble_char(text.subrange(1, text.len() - 1), q)
}

proof fn lemma_undouble_replace(v: Seq<char>, c: char)
    ensures
        undouble_char(replace_char(v, c, seq![c, c]), c) == v,
    decreases v.len(),
{
    if v.len() > 0 {
        let p = replace_char(v.drop_last(), c, seq![c, c]);
        lemma_undouble_replace(v.drop_last(), c);
        if v.last() == c {
            let t = p + seq![c, c];
            assert(t.drop_last().drop_last() =~= p);
            assert(t.last() == c && t[t.len() - 2] == c);
        } else {
            let t = p + seq![v.last()];
            assert(t.drop_last() =~= p);
        }
        assert(v.drop_last() + seq![v.last()] =~= v);
    }
}

/// Quoting a name as an identifier and reading it back gives the name.
pub proof fn lemma_quote_identifier_round_trip(v: Seq<char>)
    ensures
        unquote_spec(quote_identifier_spec(v), '"') == v,
{
    let inner = replace_char(v, '"', seq!['"', '"']);
    assert(quote_identifier_spec(v).subrange(1, quote_identifier_spec(v).len() - 1) =~= inner);
    lemma_undouble_replace(v, '"');
}

/// Quoting a value as a string literal and reading it back gives the value.
pub proof fn lemma_quote_string_round_trip(v: Seq<char>)
    ensures
        unquote_spec(quote_string_spec(v), '\'') == v,
{
    let inner = replace_char(v, '\'', seq!['\'', '\'']);
    assert(quote_string_spec(v).subrange(1, quote_string_spec(v).len() - 1) =~= inner);
    lemma_undouble_replace(v, '\'');
}

/// Quotes a name as an SQLite identifier.
pub fn quote_sqlite_identifier(value: &str) -> (r: String)
    ensures
        r@ == quote_identifier_spec(value@),
{
    let inner = replace_char_exec(value, '"', "\"\"");
    let r = cat(&vec!["\"", inner.as_str(), "\""]);
    proof {
        reveal_with_fuel(concat_all, 4);
        reveal_strlit("\"\"");
        reveal_strlit("\"");
        assert("\"\""@ =~= seq!['"', '"']);
        assert("\""@ =~= seq!['"']);
        assert(r@ =~= quote_identifier_spec(value@));
    }
    r
}

/// Quotes a value as an SQLite string literal.
pub fn quote_sqlite_string(value: &str) -> (r: String)
    ensures
        r@ == quote_string_spec(value@),
{
    let inner = replace_char_exec(value, '\'', "''");
    let r = cat(&vec!["'", inner.as_str(), "'"]);
    proof {
        reveal_with_fuel(concat_all, 4);
        reveal_strlit("''");
        reveal_strlit("'");
        assert("''"@ =~= seq!['\'', '\'']);
        assert("'"@ =~= seq!['\'']);
        assert(r@ =~= quote_string_spec(value@));
    }
    r
}

/// Quotes each string as an SQLite literal and joins them with `, `.
pub open spec fn quoted_list_spec(names: Seq<Seq<char>>) -> Seq<char> {
    join_spec(names.map_values(|n: Seq<char>| quote_string_spec(n)), ", "@)
}

fn quoted_list(names: &Vec<&str>) -> (r: String)
    ensures
        r@ == quoted_list_spec(str_views(names@)),
{
    let mut quoted: Vec<String> = Vec::new();
    let mut i: usize = 0;
    while i < names.len()
        invariant
            i <= names.len(),
            quoted.len() == i,
            forall|j: int| 0 <= j < i ==> #[trigger] quoted@[j]@ == quote_string_spec(names@[j]@),
        decreases names.len() - i,
    {
        quoted.push(quote_sqlite_string(names[i]));
        i = i + 1;
    }
    let r = join_strings(&quoted, ", ");
    assert(string_views(quoted@) =~= str_views(names@).map_values(|n: Seq<char>| quote_string_spec(n)));
    r
}

/// A channel's tables as a quoted SQL list, for `IN (...)` clauses.
pub fn ha_channel_allowed_resources_sql(channel: HaSyncChannel) -> (r: String)
    ensures
        r@ == quoted_list_spec(baseline_tables_spec(channel)),
{
    let tables = ha_channel_event_tables(channel);
    quoted_list(&tables)
}

/// The settings keys that the control channel replicates from `meta`.
pub open spec fn meta_keys() -> Seq<Seq<char>> {
    seq![
        "allow_registration_v1"@, "api_rebalance_enabled_v1"@, "api_rebalance_percent_v1"@,
        "global_ip_limit_v1"@, "ha_full_master_node_id_v1"@, "mcp_session_affinity_key_count_v1"@,
        "rebalance_mcp_enabled_v1"@, "rebalance_mcp_session_percent_v1"@,
        "recharge_feature_enabled_v1"@, "recharge_user_enabled_v1"@, "request_rate_limit_v1"@,
        "trusted_client_ip_headers_v1"@, "trusted_proxy_cidrs_v1"@, "user_blocked_key_base_limit_v1"@
    ]
}

/// The replicated `meta` keys as a quoted SQL list.
pub fn ha_meta_key_list_sql() -> (r: String)
    ensures
        r@ == quoted_list_spec(meta_keys()),
{
    let keys = vec![
        "allow_registration_v1", "api_rebalance_enabled_v1", "api_rebalance_percent_v1",
        "global_ip_limit_v1", "ha_full_master_node_id_v1", "mcp_session_affinity_key_count_v1",
        "rebalance_mcp_enabled_v1", "rebalance_mcp_session_percent_v1",
        "recharge_feature_enabled_v1", "recharge_user_enabled_v1", "request_rate_limit_v1",
        "trusted_client_ip_headers_v1", "trusted_proxy_cidrs_v1", "user_blocked_key_base_limit_v1",
    ];
    assert(str_views(keys@) =~= meta_keys());
    quoted_list(&keys)
}


/// The query that exports a table's rows as JSON objects: `meta` only for the
/// replicated keys, `billing_ledger` only for rows tied to a token log.
pub open spec fn baseline_select_spec(table: Seq<char>, json_args: Seq<char>) -> Seq<char> {
    let head = "SELECT json_object("@ + json_args + ") AS row_json FROM "@ + quote_identifier_spec(table);
    if table == "meta"@ {
        head + " WHERE key IN ("@ + quoted_list_spec(meta_keys()) + ") ORDER BY key ASC"@
    } else if table == "billing_ledger"@ {
        head + " WHERE auth_token_log_id > 0 ORDER BY rowid ASC"@
    } else {
        head + " ORDER BY rowid ASC"@
    }
}

/// The query that exports a table's rows as JSON objects.
pub fn ha_baseline_select_sql(table: &str, json_args: &str) -> (r: String)
    ensures
        r@ == baseline_select_spec(table@, json_args@),
{
    let q = quote_sqlite_identifier(table);
    proof {
        reveal_with_fuel(concat_all, 6);
    }
    if str_eq(table, "meta") {
        let keys = ha_meta_key_list_sql();
        let r = cat(&vec!["SELECT json_object(", json_args, ") AS row_json FROM ", q.as_str(), " WHERE key IN (", keys.as_str(), ") ORDER BY key ASC"]);
        proof {
            reveal_with_fuel(concat_all, 8);
            assert(r@ =~= baseline_select_spec(table@, json_args@));
        }
        return r;
    }
    if str_eq(table, "billing_ledger") {
        let r = cat(&vec!["SELECT json_object(", json_args, ") AS row_json FROM ", q.as_str(), " WHERE auth_token_log_id > 0 ORDER BY rowid ASC"]);
        proof {
            assert(r@ =~= baseline_select_spec(table@, json_args@));
        }
        return r;
    }
    let r = cat(&vec!["SELECT json_object(", json_args, ") AS row_json FROM ", q.as_str(), " ORDER BY rowid ASC"]);
    proof {
        assert(r@ =~= baseline_select_spec(table@, json_args@));
    }
    r
}

/// The query that counts the rows a baseline export of a table holds.
pub open spec fn baseline_count_spec(table: Seq<char>) -> Seq<char> {
    let head = "SELECT COUNT(*) FROM "@ + quote_identifier_spec(table);
    if table == "meta"@ {
        head + " WHERE key IN ("@ + quoted_list_spec(meta_keys()) + ")"@
    } else if table == "billing_ledger"@ {
        head + " WHERE auth_token_log_id > 0"@
    } else {
        head
    }
}

/// The query that counts the rows a baseline export of a table holds.
pub fn ha_baseline_count_sql(table: &str) -> (r: String)
    ensures
        r@ == baseline_count_spec(table@),
{
    let q = quote_sqlite_identifier(table);
    proof {
        reveal_with_fuel(concat_all, 6);
    }
    if str_eq(table, "meta") {
        let keys = ha_meta_key_list_sql();
        let r = cat(&vec!["SELECT COUNT(*) FROM ", q.as_str(), " WHERE key IN (", keys.as_str(), ")"]);
        proof {
            assert(r@ =~= baseline_count_spec(table@));
        }
        return r;
    }
    if str_eq(table, "billing_ledger") {
        let r = cat(&vec!["SELECT COUNT(*) FROM ", q.as_str(), " WHERE auth_token_log_id > 0"]);
        proof {
            assert(r@ =~= baseline_count_spec(table@));
        }
        return r;
    }
    let r = cat(&vec!["SELECT COUNT(*) FROM ", q.as_str()]);
    proof {
        assert(r@ =~= baseline_count_spec(table@));
    }
    r
}

/// The statement that empties a table before a baseline replaces it; of
/// `meta` only the replicated keys go.
pub open spec fn baseline_clear_spec(table: Seq<char>) -> Seq<char> {
    let head = "DELETE FROM "@ + quote_identifier_spec(table);
    if table == "meta"@ {
        head + " WHERE key IN ("@ + quoted_list_spec(meta_keys()) + ")"@
    } else {
        head
    }
}

/// The statement that empties a table before a baseline replaces it.
pub fn ha_baseline_clear_sql(table: &str) -> (r: String)
    ensures
        r@ == baseline_clear_spec(table@),
{
    let q = quote_sqlite_identifier(table);
    proof {
        reveal_with_fuel(concat_all, 6);
    }
    if str_eq(table, "meta") {
        let keys = ha_meta_key_list_sql();
        let r = cat(&vec!["DELETE FROM ", q.as_str(), " WHERE key IN (", keys.as_str(), ")"]);
        proof {
            assert(r@ =~= baseline_clear_spec(table@));
        }
        return r;
    }
    let r = cat(&vec!["DELETE FROM ", q.as_str()]);
    proof {
        assert(r@ =~= baseline_clear_spec(table@));
    }
    r
}

/// Refuses a resource that a channel does not replicate.
pub fn ensure_ha_resource_whitelisted(channel: HaSyncChannel, resource: &str) -> (r: Result<(), ProxyError>)
    ensures
        r is Ok <==> resource_allowed_spec(channel, resource@),
        r matches Err(ProxyError::Other(m)) ==> m@ == "HA "@ + channel_str(channel) + " resource is not whitelisted: "@ + resource@,
        r is Err ==> r matches Err(ProxyError::Other(_)),
{
    if ha_resource_allowed_for_channel(channel, resource) {
        Ok(())
    } else {
        let m = cat(&vec!["HA ", channel.as_str(), " resource is not whitelisted: ", resource]);
        proof {
            reveal_with_fuel(concat_all, 5);
            assert(m@ =~= "HA "@ + channel_str(channel) + " resource is not whitelisted: "@ + resource@);
        }
        Err(ProxyError::Other(m))
    }
}

/// The name of a channel's trigger on a table.
pub open spec fn trigger_name_spec(c: HaSyncChannel, table: Seq<char>, suffix: Seq<char>) -> Seq<char> {
    "trg_ha_"@ + channel_str(c) + "_"@ + table + "_"@ + suffix
}

/// The name of a channel's trigger on a table: `trg_ha_{channel}_{table}_{suffix}`.
pub fn ha_trigger_name(channel: HaSyncChannel, table: &str, suffix: &str) -> (r: String)
    ensures
        r@ == trigger_name_spec(channel, table@, suffix@),
{
    let r = cat(&vec!["trg_ha_", channel.as_str(), "_", table, "_", suffix]);
    proof {
        reveal_with_fuel(concat_all, 7);
        assert(r@ =~= trigger_name_spec(channel, table@, suffix@));
    }
    r
}

/// A quoted column, qualified by a table alias when one is given.
pub open spec fn column_ref_spec(alias: Option<Seq<char>>, column: Seq<char>) -> Seq<char> {
    match alias {
        Some(a) => a + "."@ + quote_identifier_spec(column),
        None => quote_identifier_spec(column),
    }
}

/// The model of an optional string slice.
pub open spec fn opt_view(o: Option<&str>) -> Option<Seq<char>> {
    match o {
        Some(s) => Some(s@),
        None => None,
    }
}

/// A quoted column, qualified by a table alias when one is given.
pub fn ha_column_ref(alias: Option<&str>, column: &str) -> (r: String)
    ensures
        r@ == column_ref_spec(opt_view(alias), column@),
{
    let q = quote_sqlite_identifier(column);
    match alias {
        Some(a) => {
            let r = cat(&vec![a, ".", q.as_str()]);
            proof {
                reveal_with_fuel(concat_all, 4);
                assert(r@ =~= column_ref_spec(opt_view(alias), column@));
            }
            r
        },
        None => q,
    }
}

/// `CAST({granularity} AS TEXT) || ':' || CAST({bucket_start} AS TEXT)`.
pub open spec fn bucket_scope_spec(alias: Option<Seq<char>>) -> Seq<char> {
    "CAST("@ + column_ref_spec(alias, "granularity"@) + " AS TEXT) || ':' || CAST("@
        + column_ref_spec(alias, "bucket_start"@) + " AS TEXT)"@
}

/// The SQL that names a runtime counter row: its resource id and its scope
/// (a month start or a `granularity:bucket` pair), for the counter tables.
pub open spec fn counter_scope_spec(table: Seq<char>, alias: Option<Seq<char>>) -> Option<(Seq<char>, Seq<char>)> {
    if table == "auth_token_quota"@ {
        Some((column_ref_spec(alias, "token_id"@), column_ref_spec(alias, "month_start"@)))
    } else if table == "account_monthly_quota"@ {
        Some((column_ref_spec(alias, "user_id"@), column_ref_spec(alias, "month_start"@)))
    } else if table == "token_usage_buckets"@ {
        Some((column_ref_spec(alias, "token_id"@), bucket_scope_spec(alias)))
    } else if table == "account_usage_buckets"@ {
        Some((column_ref_spec(alias, "user_id"@), bucket_scope_spec(alias)))
    } else {
        None
    }
}

fn bucket_scope(alias: Option<&str>) -> (r: String)
    ensures
        r@ == bucket_scope_spec(opt_view(alias)),
{
    let bucket_start = ha_column_ref(alias, "bucket_start");
    let granularity = ha_column_ref(alias, "granularity");
    let r = cat(&vec!["CAST(", granularity.as_str(), " AS TEXT) || ':' || CAST(", bucket_start.as_str(), " AS TEXT)"]);
    proof {
        reveal_with_fuel(concat_all, 6);
        assert(r@ =~= bucket_scope_spec(opt_view(alias)));
    }
    r
}

/// The SQL that names a runtime counter row (resource id and scope).
pub fn ha_runtime_counter_scope_expr(table: &str, alias: Option<&str>) -> (r: Option<(String, String)>)
    ensures
        match r {
            Some(p) => counter_scope_spec(table@, opt_view(alias)) == Some((p.0@, p.1@)),
            None => counter_scope_spec(table@, opt_view(alias)) is None,
        },
{
    if str_eq(table, "auth_token_quota") {
        Some((ha_column_ref(alias, "token_id"), ha_column_ref(alias, "month_start")))
    } else if str_eq(table, "account_monthly_quota") {
        Some((ha_column_ref(alias, "user_id"), ha_column_ref(alias, "month_start")))
    } else if str_eq(table, "token_usage_buckets") {
        Some((ha_column_ref(alias, "token_id"), bucket_scope(alias)))
    } else if str_eq(table, "account_usage_buckets") {
        Some((ha_column_ref(alias, "user_id"), bucket_scope(alias)))
    } else {
        None
    }
}

/// The counter column of a runtime counter table.
pub open spec fn counter_value_column_spec(table: Seq<char>) -> Option<Seq<char>> {
    if table == "auth_token_quota"@ || table == "account_monthly_quota"@ {
        Some("month_count"@)
    } else if table == "token_usage_buckets"@ || table == "account_usage_buckets"@ {
        Some("count"@)
    } else {
        None
    }
}

/// The counter column of a runtime counter table.
pub fn ha_runtime_counter_value_column(table: &str) -> (r: Option<&'static str>)
    ensures
        opt_view(r) == counter_value_column_spec(table@),
{
    if str_eq(table, "auth_token_quota") || str_eq(table, "account_monthly_quota") {
        Some("month_count")
    } else if str_eq(table, "token_usage_buckets") || str_eq(table, "account_usage_buckets") {
        Some("count")
    } else {
        None
    }
}

/// On the runtime channel, the locally produced part of a counter column: the
/// column minus what was imported from peers for the same row, never below zero.
pub open spec fn counter_local_value_spec(c: HaSyncChannel, table: Seq<char>, alias: Option<Seq<char>>, column: Seq<char>) -> Option<Seq<char>> {
    if c != HaSyncChannel::Runtime || counter_value_column_spec(table) != Some(column) {
        None
    } else {
        match counter_scope_spec(table, alias) {
            None => None,
            Some((rid, scope)) => {
                let imported = "COALESCE((SELECT SUM(counter_value) FROM ha_runtime_counter_imports WHERE resource = "@
                    + quote_string_spec(table) + " AND resource_id = CAST("@ + rid
                    + " AS TEXT) AND counter_scope = CAST("@ + scope + " AS TEXT)), 0)"@;
                Some("MAX(0, COALESCE("@ + column_ref_spec(alias, column) + ", 0) - "@ + imported + ")"@)
            },
        }
    }
}

/// On the runtime channel, the locally produced part of a counter column.
pub fn ha_runtime_counter_local_value_expr(channel: HaSyncChannel, table: &str, alias: Option<&str>, column: &str) -> (r: Option<String>)
    ensures
        crate::alerts::model::opt_str(r) == counter_local_value_spec(channel, table@, opt_view(alias), column@),
{
    if channel != HaSyncChannel::Runtime {
        return None;
    }
    match ha_runtime_counter_value_column(table) {
        Some(c) => {
            if !str_eq(c, column) {
                return None;
            }
        },
        None => {
            return None;
        },
    }
    let (rid, scope) = match ha_runtime_counter_scope_expr(table, alias) {
        Some(p) => p,
        None => {
            return None;
        },
    };
    let value_expr = ha_column_ref(alias, column);
    let qt = quote_sqlite_string(table);
    let imported = cat(&vec![
        "COALESCE((SELECT SUM(counter_value) FROM ha_runtime_counter_imports WHERE resource = ",
        qt.as_str(), " AND resource_id = CAST(", rid.as_str(), " AS TEXT) AND counter_scope = CAST(",
        scope.as_str(), " AS TEXT)), 0)",
    ]);
    let r = cat(&vec!["MAX(0, COALESCE(", value_expr.as_str(), ", 0) - ", imported.as_str(), ")"]);
    proof {
        reveal_with_fuel(concat_all, 8);
        assert(r@ =~= counter_local_value_spec(channel, table@, opt_view(alias), column@).unwrap());
    }
    Some(r)
}

/// One `'column', value` argument pair of an exported `json_object(...)`.
pub open spec fn export_json_arg_spec(c: HaSyncChannel, table: Seq<char>, alias: Option<Seq<char>>, column: Seq<char>) -> Seq<char> {
    let value = match counter_local_value_spec(c, table, alias, column) {
        Some(v) => v,
        None => column_ref_spec(alias, column),
    };
    quote_string_spec(column) + ", "@ + value
}

/// One `'column', value` argument pair of an exported `json_object(...)`:
/// runtime counters export only their local part.
pub fn ha_export_json_arg(channel: HaSyncChannel, table: &str, alias: Option<&str>, column: &str) -> (r: String)
    ensures
        r@ == export_json_arg_spec(channel, table@, opt_view(alias), column@),
{
    let value = match ha_runtime_counter_local_value_expr(channel, table, alias, column) {
        Some(v) => v,
        None => ha_column_ref(alias, column),
    };
    let qc = quote_sqlite_string(column);
    let r = cat(&vec![qc.as_str(), ", ", value.as_str()]);
    proof {
        reveal_with_fuel(concat_all, 4);
        assert(r@ =~= export_json_arg_spec(channel, table@, opt_view(alias), column@));
    }
    r
}

/// `json_object(...)` over the given columns of a trigger's row alias.
pub open spec fn trigger_json_object_spec(c: HaSyncChannel, table: Seq<char>, alias: Seq<char>, columns: Seq<Seq<char>>) -> Seq<char> {
    "json_object("@ + join_spec(columns.map_values(|col: Seq<char>| export_json_arg_spec(c, table, Some(alias), col)), ", "@) + ")"@
}

/// `json_object(...)` over the given columns of a trigger's row alias.
pub fn ha_trigger_json_object(channel: HaSyncChannel, table: &str, alias: &str, columns: &Vec<String>) -> (r: String)
    ensures
        r@ == trigger_json_object_spec(channel, table@, alias@, string_views(columns@)),
{
    let mut args: Vec<String> = Vec::new();
    let mut i: usize = 0;
    while i < columns.len()
        invariant
            i <= columns.len(),
            args.len() == i,
            forall|j: int| 0 <= j < i ==> #[trigger] args@[j]@ == export_json_arg_spec(channel, table@, Some(alias@), columns@[j]@),
        decreases columns.len() - i,
    {
        args.push(ha_export_json_arg(channel, table, Some(alias), columns[i].as_str()));
        i = i + 1;
    }
    let joined = join_strings(&args, ", ");
    assert(string_views(args@) =~= string_views(columns@).map_values(|col: Seq<char>| export_json_arg_spec(channel, table@, Some(alias@), col)));
    let r = cat(&vec!["json_object(", joined.as_str(), ")"]);
    proof {
        reveal_with_fuel(concat_all, 4);
        assert(r@ =~= trigger_json_object_spec(channel, table@, alias@, string_views(columns@)));
    }
    r
}

/// The SQL that identifies a trigger's row: its `id` column, else its
/// `auth_token_log_id`, falling back to the rowid.
pub open spec fn trigger_resource_id_spec(alias: Seq<char>, columns: Seq<Seq<char>>) -> Seq<char> {
    if columns.contains("id"@) {
        "COALESCE(CAST("@ + alias + "."@ + quote_identifier_spec("id"@) + " AS TEXT), CAST("@ + alias + ".rowid AS TEXT))"@
    } else if columns.contains("auth_token_log_id"@) {
        "COALESCE(CAST("@ + alias + "."@ + quote_identifier_spec("auth_token_log_id"@) + " AS TEXT), CAST("@ + alias + ".rowid AS TEXT))"@
    } else {
        "CAST("@ + alias + ".rowid AS TEXT)"@
    }
}

fn has_column(columns: &Vec<String>, name: &str) -> (r: bool)
    ensures
        r == string_views(columns@).contains(name@),
{
    let mut i: usize = 0;
    while i < columns.len()
        invariant
            i <= columns.len(),
            forall|j: int| 0 <= j < i ==> columns@[j]@ != name@,
        decreases columns.len() - i,
    {
        if str_eq(columns[i].as_str(), name) {
            assert(string_views(columns@)[i as int] == name@);
            return true;
        }
        i = i + 1;
    }
    proof {
        if string_views(columns@).contains(name@) {
            let j = choose|j: int| 0 <= j < string_views(columns@).len() && string_views(columns@)[j] == name@;
            assert(columns@[j]@ == name@);
        }
    }
    false
}

/// The SQL that identifies a trigger's row.
pub fn ha_trigger_resource_id(alias: &str, columns: &Vec<String>) -> (r: String)
    ensures
        r@ == trigger_resource_id_spec(alias@, string_views(columns@)),
{
    proof {
        reveal_with_fuel(concat_all, 8);
    }
    if has_column(columns, "id") {
        let q = quote_sqlite_identifier("id");
        let r = cat(&vec!["COALESCE(CAST(", alias, ".", q.as_str(), " AS TEXT), CAST(", alias, ".rowid AS TEXT))"]);
        proof {
            assert(r@ =~= trigger_resource_id_spec(alias@, string_views(columns@)));
        }
        r
    } else if has_column(columns, "auth_token_log_id") {
        let q = quote_sqlite_identifier("auth_token_log_id");
        let r = cat(&vec!["COALESCE(CAST(", alias, ".", q.as_str(), " AS TEXT), CAST(", alias, ".rowid AS TEXT))"]);
        proof {
            assert(r@ =~= trigger_resource_id_spec(alias@, string_views(columns@)));
        }
        r
    } else {
        let r = cat(&vec!["CAST(", alias, ".rowid AS TEXT)"]);
        proof {
            assert(r@ =~= trigger_resource_id_spec(alias@, string_views(columns@)));
        }
        r
    }
}

/// The role a stored role name denotes.
pub open spec fn node_role_spec(v: Seq<char>) -> Option<HaNodeRole> {
    if v == "full_master"@ {
        Some(HaNodeRole::FullMaster)
    } else if v == "provisional_master"@ {
        Some(HaNodeRole::ProvisionalMaster)
    } else if v == "standby"@ {
        Some(HaNodeRole::Standby)
    } else if v == "recovery"@ {
        Some(HaNodeRole::Recovery)
    } else {
        None
    }
}

/// Parses a stored node role name.
pub fn parse_ha_node_role(value: &str) -> (r: Option<HaNodeRole>)
    ensures
        r == node_role_spec(value@),
{
    if str_eq(value, "full_master") {
        Some(HaNodeRole::FullMaster)
    } else if str_eq(value, "provisional_master") {
        Some(HaNodeRole::ProvisionalMaster)
    } else if str_eq(value, "standby") {
        Some(HaNodeRole::Standby)
    } else if str_eq(value, "recovery") {
        Some(HaNodeRole::Recovery)
    } else {
        None
    }
}

/// Each of the four role names reads as its own role, and nothing else reads
/// as a role.
pub proof fn lemma_node_role_names(v: Seq<char>)
    ensures
        node_role_spec("full_master"@) == Some(HaNodeRole::FullMaster),
        node_role_spec("provisional_master"@) == Some(HaNodeRole::ProvisionalMaster),
        node_role_spec("standby"@) == Some(HaNodeRole::Standby),
        node_role_spec("recovery"@) == Some(HaNodeRole::Recovery),
        node_role_spec(v) is Some ==> (v == "full_master"@ || v == "provisional_master"@ || v == "standby"@ || v == "recovery"@),
{
    reveal_strlit("full_master");
    reveal_strlit("provisional_master");
    reveal_strlit("standby");
    reveal_strlit("recovery");
    assert("full_master"@.len() == 11);
    assert("provisional_master"@.len() == 18);
    assert("standby"@.len() == 7);
    assert("recovery"@.len() == 8);
}

/// A peer may write through a channel every table that channel exports, and
/// the control channel also the `meta` table; the billing channel admits the
/// billing ledger and nothing else.
pub proof fn lemma_channel_admits_its_tables(c: HaSyncChannel, resource: Seq<char>, i: int)
    requires
        0 <= i < baseline_tables_spec(c).len(),
    ensures
        resource_allowed_spec(c, baseline_tables_spec(c)[i]),
        resource_allowed_spec(HaSyncChannel::Control, "meta"@),
        resource_allowed_spec(HaSyncChannel::Billing, resource) <==> resource == "billing_ledger"@,
{
    reveal_strlit("meta");
    assert(control_tables()[10] == "meta"@);
    if resource_allowed_spec(HaSyncChannel::Billing, resource) {
        let j = choose|j: int| 0 <= j < billing_tables().len() && billing_tables()[j] == resource;
        assert(j == 0);
    }
    if resource == "billing_ledger"@ {
        assert(billing_tables()[0] == resource);
    }
}

} // verus!
