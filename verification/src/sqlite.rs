//! SQLite housekeeping: which tables live in the observability database,
//! how they are named in SQL, and which write errors are worth a retry.

use vstd::prelude::*;
use vstd::string::*;
use crate::error::{DbError, ProxyError};
use crate::ha::{quote_identifier_spec, quote_sqlite_identifier};
use crate::paths::{
    main_separator, path_extension, path_file_stem, path_join, path_parent, std_path_extension,
    std_path_file_stem, std_path_join, std_path_parent,
};
use crate::text::{chars_of, contains, str_contains, str_eq, string_of_chars, string_of_range, trim, trim_string};

verus! {

/// Whether a table lives in the observability database.
pub open spec fn is_observability_table_spec(t: Seq<char>) -> bool {
    t == "request_logs"@ || t == "api_key_usage_buckets"@ || t == "dashboard_request_rollup_buckets"@
        || t == "request_log_catalog_rollups"@
}

/// Whether a table lives in the observability database.
pub fn is_observability_table(table: &str) -> (r: bool)
    ensures
        r == is_observability_table_spec(table@),
{
    str_eq(table, "request_logs") || str_eq(table, "api_key_usage_buckets")
        || str_eq(table, "dashboard_request_rollup_buckets") || str_eq(table, "request_log_catalog_rollups")
}

/// The quoted name of a table, under the `observability` schema when it
/// lives there.
pub open spec fn qualified_table_name_spec(t: Seq<char>) -> Seq<char> {
    if is_observability_table_spec(t) {
        "observability."@ + quote_identifier_spec(t)
    } else {
        quote_identifier_spec(t)
    }
}

/// The quoted name of a table, under the `observability` schema when it
/// lives there.
pub fn sqlite_qualified_table_name(table: &str) -> (r: String)
    ensures
        r@ == qualified_table_name_spec(table@),
{
    let quoted = quote_sqlite_identifier(table);
    if is_observability_table(table) {
        let mut r = String::from_str("observability.");
        r.append(quoted.as_str());
        r
    } else {
        quoted
    }
}

/// The query that tells whether a table exists, in the schema of the
/// database the table lives in; it binds the table's name.
pub fn sqlite_table_exists_sql(table: &str) -> (r: &'static str)
    ensures
        r@ == (if is_observability_table_spec(table@) {
            "SELECT EXISTS(SELECT 1 FROM observability.sqlite_master WHERE type = 'table' AND name = ?)"@
        } else {
            "SELECT EXISTS(SELECT 1 FROM sqlite_master WHERE type = 'table' AND name = ?)"@
        }),
{
    if is_observability_table(table) {
        "SELECT EXISTS(SELECT 1 FROM observability.sqlite_master WHERE type = 'table' AND name = ?)"
    } else {
        "SELECT EXISTS(SELECT 1 FROM sqlite_master WHERE type = 'table' AND name = ?)"
    }
}

/// The ASCII lower-case form of a character.
pub open spec fn ascii_lower(c: char) -> char {
    if 'A' <= c && c <= 'Z' { ((c as u32) + 32) as char } else { c }
}

/// `str::to_ascii_lowercase`.
pub open spec fn ascii_lowercase(s: Seq<char>) -> Seq<char> {
    s.map_values(|c: char| ascii_lower(c))
}

/// The ASCII lower-case form of a character.
pub fn ascii_lower_exec(c: char) -> (r: char)
    ensures
        r == ascii_lower(c),
{
    if 'A' <= c && c <= 'Z' {
        let b: u8 = (c as u32) as u8;
        let r = (b + 32) as char;
        assert(r as u32 == (c as u32) + 32);
        r
    } else {
        c
    }
}

/// `str::to_ascii_lowercase`.
pub fn ascii_lowercase_exec(s: &str) -> (r: String)
    ensures
        r@ == ascii_lowercase(s@),
{
    let cs = chars_of(s);
    let mut out: Vec<char> = Vec::new();
    let mut i: usize = 0;
    while i < cs.len()
        invariant
            i <= cs.len(),
            cs@ == s@,
            out@ == ascii_lowercase(s@).take(i as int),
        decreases cs.len() - i,
    {
        out.push(ascii_lower_exec(cs[i]));
        i = i + 1;
        assert(out@ =~= ascii_lowercase(s@).take(i as int));
    }
    assert(ascii_lowercase(s@).take(cs.len() as int) =~= ascii_lowercase(s@));
    string_of_chars(&out)
}

/// The codes SQLite gives a busy or locked database.
pub open spec fn is_busy_code(code: Seq<char>) -> bool {
    code == "5"@ || code == "6"@ || code == "261"@ || code == "262"@ || code == "517"@ || code == "518"@
        || code == "SQLITE_BUSY"@ || code == "SQLITE_LOCKED"@
}

/// Whether a message, lower-cased, says the database is busy or locked.
pub open spec fn is_busy_message(message: Seq<char>) -> bool {
    let m = ascii_lowercase(message);
    contains(m, "database is locked"@) || contains(m, "database table is locked"@)
        || contains(m, "database schema is locked"@) || contains(m, "database is busy"@)
}

/// Whether an error is a transient SQLite write conflict: a database error
/// with a busy or locked code, or whose message says so.
pub open spec fn is_transient_spec(err: ProxyError) -> bool {
    match err {
        ProxyError::Database(DbError::Database { code, message }) => {
            (code matches Some(c) && is_busy_code(c@)) || is_busy_message(message@)
        }
        _ => false,
    }
}

/// Whether an error is a transient SQLite write conflict worth a retry.
pub fn is_transient_sqlite_write_error(err: &ProxyError) -> (r: bool)
    ensures
        r == is_transient_spec(*err),
{
    let (code, message) = match err {
        ProxyError::Database(DbError::Database { code, message }) => (code, message),
        _ => return false,
    };
    if let Some(c) = code {
        let c = c.as_str();
        if str_eq(c, "5") || str_eq(c, "6") || str_eq(c, "261") || str_eq(c, "262") || str_eq(c, "517")
            || str_eq(c, "518") || str_eq(c, "SQLITE_BUSY") || str_eq(c, "SQLITE_LOCKED")
        {
            return true;
        }
    }
    let m = ascii_lowercase_exec(message.as_str());
    str_contains(m.as_str(), "database is locked") || str_contains(m.as_str(), "database table is locked")
        || str_contains(m.as_str(), "database schema is locked") || str_contains(m.as_str(), "database is busy")
}

/// The back-off before retry `attempt` (counted from 0), in milliseconds:
/// 20, 50, 100, 200, then 500 from the fifth retry on.
pub open spec fn retry_delay_ms_spec(attempt: int) -> u64 {
    if attempt == 0 { 20 } else if attempt == 1 { 50 } else if attempt == 2 { 100 } else if attempt == 3 { 200 } else { 500 }
}

/// The back-off before retry `attempt` of a transient write, in milliseconds.
pub fn sqlite_transient_write_retry_delay(attempt: usize) -> (r: u64)
    ensures
        r == retry_delay_ms_spec(attempt as int),
{
    let backoff_ms: [u64; 5] = [20, 50, 100, 200, 500];
    if attempt < 5 { backoff_ms[attempt] } else { backoff_ms[4] }
}

/// The back-off never shrinks from one attempt to the next.
pub proof fn lemma_retry_delay_monotone(a: int, b: int)
    requires
        0 <= a <= b,
    ensures
        retry_delay_ms_spec(a) <= retry_delay_ms_spec(b),
{
}

/// Whether an error reports charged token-log rows with an invalid billing
/// subject in the current month.
pub open spec fn is_invalid_billing_subject_spec(err: ProxyError) -> bool {
    match err {
        ProxyError::QuotaDataMissing { reason } => contains(reason@, "charged auth_token_logs rows with invalid billing_subject"@),
        _ => false,
    }
}

/// Whether an error reports charged token-log rows with an invalid billing
/// subject in the current month.
pub fn is_invalid_current_month_billing_subject_error(err: &ProxyError) -> (r: bool)
    ensures
        r == is_invalid_billing_subject_spec(*err),
{
    match err {
        ProxyError::QuotaDataMissing { reason } => {
            str_contains(reason.as_str(), "charged auth_token_logs rows with invalid billing_subject")
        }
        _ => false,
    }
}

/// The name of the sidecar file `file_name` beside the database at `p`: in
/// the database's directory (`.` when it has none), named after the
/// database's file stem (`sqlite` when it has none), a dash and `file_name`.
pub open spec fn sidecar_path_spec(p: Seq<char>, file_name: Seq<char>) -> Seq<char> {
    let parent = match std_path_parent(p) { Some(d) => d, None => "."@ };
    let stem = match std_path_file_stem(p) { Some(s) => if s.len() > 0 { s } else { "sqlite"@ }, None => "sqlite"@ };
    std_path_join(parent, stem + "-"@ + file_name)
}

/// The path of a sidecar file beside a database file.
pub fn sqlite_sidecar_path(database_path: &str, file_name: &str) -> (r: String)
    ensures
        r@ == sidecar_path_spec(database_path@, file_name@),
{
    let parent = match path_parent(database_path) {
        Some(d) => d,
        None => String::from_str("."),
    };
    let stem = match path_file_stem(database_path) {
        Some(s) => if s.unicode_len() > 0 { s } else { String::from_str("sqlite") },
        None => String::from_str("sqlite"),
    };
    let mut name = stem;
    name.append("-");
    name.append(file_name);
    path_join(parent.as_str(), name.as_str())
}

/// `s` without the run of `c` at its end.
pub open spec fn trim_end_char(s: Seq<char>, c: char) -> Seq<char>
    decreases s.len(),
{
    if s.len() > 0 && s.last() == c { trim_end_char(s.drop_last(), c) } else { s }
}

fn trim_end_char_exec(s: &str, c: char) -> (r: String)
    ensures
        r@ == trim_end_char(s@, c),
{
    let cs = chars_of(s);
    let mut end: usize = cs.len();
    assert(cs@.take(end as int) =~= s@);
    while end > 0 && cs[end - 1] == c
        invariant
            end <= cs.len(),
            cs@ == s@,
            trim_end_char(s@, c) == trim_end_char(cs@.take(end as int), c),
        decreases end,
    {
        assert(cs@.take(end as int).drop_last() =~= cs@.take(end - 1));
        end = end - 1;
    }
    let r = string_of_range(&cs, 0, end);
    assert(cs@.subrange(0, end as int) =~= cs@.take(end as int));
    r
}

/// Where a database path puts the core and observability databases: an
/// explicit `.db` file (any case) holds the core and gets an observability
/// sidecar beside it; anything else is a directory (trailing separators
/// dropped, unless nothing else is left) holding `core.db` and
/// `observability.db`. `sep` is the platform's path separator.
pub open spec fn layout_spec(path: Seq<char>, sep: char) -> (Seq<char>, Option<Seq<char>>) {
    let p = trim(path);
    if std_path_extension(p) matches Some(e) && ascii_lowercase(e) == "db"@ {
        (p, Some(sidecar_path_spec(p, "observability.db"@)))
    } else {
        let t = trim_end_char(p, sep);
        let base = if t.len() == 0 { p } else { t };
        (base + seq![sep] + "core.db"@, Some(base + seq![sep] + "observability.db"@))
    }
}

/// The core and observability database paths of one store.
pub struct SqliteDatabaseLayout {
    pub core_database_path: String,
    pub observability_database_path: Option<String>,
}

/// The two paths of a layout, as text.
pub open spec fn layout_view(l: SqliteDatabaseLayout) -> (Seq<char>, Option<Seq<char>>) {
    (l.core_database_path@, match l.observability_database_path {
        Some(o) => Some(o@),
        None => None,
    })
}

/// Where a configured database path puts the two databases when paths
/// separate their components with `sep`.
pub fn database_layout_with_separator(database_path: &str, sep: char) -> (r: SqliteDatabaseLayout)
    ensures
        layout_view(r) == layout_spec(database_path@, sep),
{
    let trimmed = trim_string(database_path);
    let is_db = match path_extension(trimmed.as_str()) {
        Some(e) => {
            let lower = ascii_lowercase_exec(e.as_str());
            str_eq(lower.as_str(), "db")
        }
        None => false,
    };
    if is_db {
        let side = sqlite_sidecar_path(trimmed.as_str(), "observability.db");
        let r = SqliteDatabaseLayout { core_database_path: trimmed, observability_database_path: Some(side) };
        assert(layout_spec(database_path@, sep).0 == r.core_database_path@);
        return r;
    }
    let t = trim_end_char_exec(trimmed.as_str(), sep);
    let base = if t.unicode_len() == 0 { trimmed } else { t };
    let mut core = base.clone();
    let mut obs = base;
    let mut sep_text = String::new();
    crate::text::push_char(&mut sep_text, sep);
    core.append(sep_text.as_str());
    core.append("core.db");
    obs.append(sep_text.as_str());
    obs.append("observability.db");
    let r = SqliteDatabaseLayout { core_database_path: core, observability_database_path: Some(obs) };
    assert(layout_spec(database_path@, sep).0 =~= r.core_database_path@);
    r
}

impl SqliteDatabaseLayout {
    /// Where a configured database path puts the two databases, for the
    /// platform's path separator (a slash or a backslash).
    pub fn from_database_path(database_path: &str) -> (r: SqliteDatabaseLayout)
        ensures
            exists|sep: char| (sep == '/' || sep == '\\') && #[trigger] layout_spec(database_path@, sep) == layout_view(r),
    {
        let sep = main_separator();
        let r = database_layout_with_separator(database_path, sep);
        assert(layout_spec(database_path@, sep) == layout_view(r));
        r
    }
}

/// Whether to retry a failed write, and after how many milliseconds: only a
/// transient error before the deadline is retried, after the back-off for
/// this attempt or the time left, whichever is shorter.
pub open spec fn retry_plan_spec(transient: bool, attempt: int, now_ms: u64, deadline_ms: u64) -> Option<u64> {
    if !transient || now_ms >= deadline_ms {
        None
    } else {
        let left = (deadline_ms - now_ms) as u64;
        let d = retry_delay_ms_spec(attempt);
        Some(if d <= left { d } else { left })
    }
}

/// Whether to retry a failed write at `now_ms` with the given deadline, and
/// after how many milliseconds.
pub fn sqlite_transient_write_retry_plan(err: &ProxyError, attempt: usize, now_ms: u64, deadline_ms: u64) -> (r: Option<u64>)
    ensures
        r == retry_plan_spec(is_transient_spec(*err), attempt as int, now_ms, deadline_ms),
        r matches Some(b) ==> b <= 500 && now_ms + b <= deadline_ms,
{
    if !is_transient_sqlite_write_error(err) {
        return None;
    }
    if now_ms >= deadline_ms {
        return None;
    }
    let left = deadline_ms - now_ms;
    let d = sqlite_transient_write_retry_delay(attempt);
    Some(if d <= left { d } else { left })
}

/// The largest core database whose legacy request logs are migrated to the
/// sidecar while the store opens (32 MiB).
pub const LEGACY_REQUEST_LOGS_INLINE_SIDECAR_MIGRATION_MAX_BYTES: u64 = 33554432;

/// Whether the legacy request logs of a core database of `core_file_bytes`
/// may be migrated while the store opens; a size that cannot be read counts
/// as too large.
pub fn legacy_request_logs_inline_sidecar_migration_allowed(core_file_bytes: Option<u64>) -> (r: bool)
    ensures
        r == (core_file_bytes matches Some(n) && n <= LEGACY_REQUEST_LOGS_INLINE_SIDECAR_MIGRATION_MAX_BYTES),
{
    match core_file_bytes {
        Some(n) => n <= LEGACY_REQUEST_LOGS_INLINE_SIDECAR_MIGRATION_MAX_BYTES,
        None => false,
    }
}

/// Which database the observability schema is attached from: the core
/// database itself while it still holds legacy request logs that may not be
/// migrated now (a read-only open, or a core database too large); else the
/// sidecar, when the open may write, may create files, or the sidecar
/// exists; else none.
pub fn observability_attach_target(
    core_database_path: &str,
    observability_database_path: &str,
    create_if_missing: bool,
    read_only: bool,
    sidecar_exists: bool,
    legacy_request_logs_exist: bool,
    inline_migration_allowed: bool,
) -> (r: Option<String>)
    ensures
        legacy_request_logs_exist && (read_only || !inline_migration_allowed) ==> (r matches Some(p) && p@ == core_database_path@),
        !(legacy_request_logs_exist && (read_only || !inline_migration_allowed)) ==> if !read_only || create_if_missing || sidecar_exists {
            (r matches Some(p) && p@ == observability_database_path@)
        } else {
            r is None
        },
{
    if legacy_request_logs_exist && (read_only || !inline_migration_allowed) {
        return Some(String::from_str(core_database_path));
    }
    if !read_only || create_if_missing || sidecar_exists {
        return Some(String::from_str(observability_database_path));
    }
    None
}

/// A failed write is retried exactly when its error is transient and the
/// deadline has not passed; it then waits the back-off for its attempt (20,
/// 50, 100, 200 and from the fifth retry on 500 milliseconds), cut short to
/// the time left before the deadline.
pub proof fn lemma_retry_plan_waits_backoff_or_time_left(transient: bool, attempt: int, now_ms: u64, deadline_ms: u64)
    requires
        attempt >= 0,
    ensures
        retry_plan_spec(transient, attempt, now_ms, deadline_ms) is Some <==> (transient && now_ms < deadline_ms),
        retry_plan_spec(transient, attempt, now_ms, deadline_ms) matches Some(d) ==> ({
            let backoff: int = if attempt == 0 { 20 } else if attempt == 1 { 50 } else if attempt == 2 { 100 } else if attempt == 3 { 200 } else { 500 };
            &&& 0 < d <= backoff
            &&& now_ms + d <= deadline_ms
            &&& (d == backoff || now_ms + d == deadline_ms)
        }),
{
}

/// Only database errors are transient: one is whenever its code is a busy or
/// locked code (5, 6, 261, 262, 517, 518, `SQLITE_BUSY`, `SQLITE_LOCKED`)
/// whatever its message, and whenever its message says, in any letter case,
/// that the database (or a table or the schema) is locked or busy, whatever
/// its code.
pub proof fn lemma_busy_database_errors_are_transient(err: ProxyError, code: Option<String>, message: String)
    ensures
        !(err matches ProxyError::Database(DbError::Database { .. })) ==> !is_transient_spec(err),
        (code matches Some(c) && (c@ == "5"@ || c@ == "6"@ || c@ == "261"@ || c@ == "262"@ || c@ == "517"@
            || c@ == "518"@ || c@ == "SQLITE_BUSY"@ || c@ == "SQLITE_LOCKED"@))
            ==> is_transient_spec(ProxyError::Database(DbError::Database { code, message })),
        (contains(ascii_lowercase(message@), "database is locked"@) || contains(ascii_lowercase(message@), "database is busy"@)
            || contains(ascii_lowercase(message@), "database table is locked"@)
            || contains(ascii_lowercase(message@), "database schema is locked"@))
            ==> is_transient_spec(ProxyError::Database(DbError::Database { code, message })),
{
}

} // verus!
