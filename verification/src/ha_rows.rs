//! Writing a peer's replicated row into a local table: which columns the
//! row sets, the primary key it is matched on, and the SQL that upserts or
//! deletes it.

use vstd::prelude::*;
use crate::error::ProxyError;
use crate::ha_counters::{i64_field_result, ha_json_i64_field, HaJsonScalar};
use crate::ha::{quote_identifier_spec, quote_sqlite_identifier};
use crate::sort::{key_models, lemma_stable_sort_map, sort_by_keys, stable_sort, OrdKey, OrdKeyModel};
use crate::text::{cat, concat2, concat_all, join_spec, join_strings, owned, str_eq, string_views};

verus! {

/// A column of a local table, as `PRAGMA table_info` gives it: its name and
/// its place in the primary key (zero when it is not part of it).
pub struct SqliteColumnInfo {
    pub name: String,
    pub pk: i64,
}

/// The names and key places of columns.
pub open spec fn column_models(c: Seq<SqliteColumnInfo>) -> Seq<(Seq<char>, i64)> {
    c.map_values(|x: SqliteColumnInfo| (x.name@, x.pk))
}

/// The columns, in table order, that the row sets (those among `keys`).
pub open spec fn selected_columns(cols: Seq<(Seq<char>, i64)>, keys: Seq<Seq<char>>) -> Seq<Seq<char>>
    decreases cols.len(),
{
    if cols.len() == 0 {
        Seq::empty()
    } else if keys.contains(cols.last().0) {
        selected_columns(cols.drop_last(), keys).push(cols.last().0)
    } else {
        selected_columns(cols.drop_last(), keys)
    }
}

/// The primary-key columns, in table order.
pub open spec fn pk_columns(cols: Seq<(Seq<char>, i64)>) -> Seq<(Seq<char>, i64)>
    decreases cols.len(),
{
    if cols.len() == 0 {
        Seq::empty()
    } else if cols.last().1 > 0 {
        pk_columns(cols.drop_last()).push(cols.last())
    } else {
        pk_columns(cols.drop_last())
    }
}

/// The names of the primary-key columns, in table order.
pub open spec fn pk_names(cols: Seq<(Seq<char>, i64)>) -> Seq<Seq<char>> {
    pk_columns(cols).map_values(|c: (Seq<char>, i64)| c.0)
}

/// The sort key of a primary-key column: its place in the key.
pub open spec fn pk_sort_key(c: (Seq<char>, i64)) -> OrdKeyModel {
    OrdKeyModel { n1: c.1 as int, n2: 0, s1: Seq::empty(), s2: Seq::empty() }
}

/// The sort keys of the primary-key columns, in table order.
pub open spec fn pk_sort_keys(cols: Seq<(Seq<char>, i64)>) -> Seq<OrdKeyModel> {
    pk_columns(cols).map_values(|c: (Seq<char>, i64)| pk_sort_key(c))
}

/// The names of the primary-key columns in key order (ties kept in table order).
pub open spec fn sorted_pk_names(cols: Seq<(Seq<char>, i64)>) -> Seq<Seq<char>> {
    stable_sort(pk_names(cols), pk_sort_keys(cols), false).0
}

/// Each name quoted as an identifier.
pub open spec fn quoted_all(names: Seq<Seq<char>>) -> Seq<Seq<char>> {
    names.map_values(|n: Seq<char>| quote_identifier_spec(n))
}

/// `n` placeholders.
pub open spec fn placeholders(n: nat) -> Seq<Seq<char>> {
    Seq::new(n, |i: int| "?"@)
}

/// `"c" = excluded."c"` for each set column that is not part of the key.
pub open spec fn update_assignments(sel: Seq<Seq<char>>, pks: Seq<Seq<char>>) -> Seq<Seq<char>>
    decreases sel.len(),
{
    if sel.len() == 0 {
        Seq::empty()
    } else if pks.contains(sel.last()) {
        update_assignments(sel.drop_last(), pks)
    } else {
        let q = quote_identifier_spec(sel.last());
        update_assignments(sel.drop_last(), pks).push(q + " = excluded."@ + q)
    }
}

/// The upsert of a row that sets the columns named `keys`: an error when it
/// sets no column of the table or lacks a primary-key column; else the SQL
/// and the columns whose values it binds, in order. A table without a
/// primary key is written with `INSERT OR REPLACE`; one with a key with
/// `ON CONFLICT(key)`, updating the other set columns, or doing nothing
/// when the row sets only key columns.
pub open spec fn upsert_sql_spec(table: Seq<char>, cols: Seq<(Seq<char>, i64)>, keys: Seq<Seq<char>>) -> Result<(Seq<char>, Seq<Seq<char>>), Seq<char>> {
    let sel = selected_columns(cols, keys);
    let pks = pk_names(cols);
    if sel.len() == 0 {
        Err("HA row payload has no columns for "@ + table)
    } else if !(forall|i: int| 0 <= i < pks.len() ==> keys.contains(#[trigger] pks[i])) {
        Err("HA row payload is missing primary key columns for "@ + table)
    } else {
        let head = "INSERT"@;
        let body = " INTO "@ + quote_identifier_spec(table) + " ("@ + join_spec(quoted_all(sel), ", "@) + ") VALUES ("@
            + join_spec(placeholders(sel.len()), ", "@) + ")"@;
        if pks.len() == 0 {
            Ok(("INSERT OR REPLACE"@ + body, sel))
        } else {
            let conflict = " ON CONFLICT("@ + join_spec(quoted_all(sorted_pk_names(cols)), ", "@) + ")"@;
            let updates = update_assignments(sel, pks);
            if updates.len() == 0 {
                Ok((head + body + conflict + " DO NOTHING"@, sel))
            } else {
                Ok((head + body + conflict + " DO UPDATE SET "@ + join_spec(updates, ", "@), sel))
            }
        }
    }
}

/// An upsert to run: its SQL and the columns whose row values it binds.
pub struct HaRowUpsert {
    pub sql: String,
    pub columns: Vec<String>,
}

fn string_in(v: &Vec<String>, s: &str) -> (r: bool)
    ensures
        r == string_views(v@).contains(s@),
{
    let mut i: usize = 0;
    while i < v.len()
        invariant
            i <= v.len(),
            forall|j: int| 0 <= j < i ==> string_views(v@)[j] != s@,
        decreases v.len() - i,
    {
        if str_eq(v[i].as_str(), s) {
            assert(string_views(v@)[i as int] == s@);
            return true;
        }
        i = i + 1;
    }
    false
}

/// The primary-key names of a table, in table order and in key order.
fn primary_key_names(columns: &Vec<SqliteColumnInfo>) -> (r: (Vec<String>, Vec<String>))
    ensures
        string_views(r.0@) == pk_names(column_models(columns@)),
        string_views(r.1@) == sorted_pk_names(column_models(columns@)),
{
    let ghost cols = column_models(columns@);
    let mut names: Vec<String> = Vec::new();
    let mut to_sort: Vec<String> = Vec::new();
    let mut keys: Vec<OrdKey> = Vec::new();
    let mut i: usize = 0;
    while i < columns.len()
        invariant
            i <= columns.len(),
            cols == column_models(columns@),
            string_views(names@) == pk_names(cols.take(i as int)),
            string_views(to_sort@) == pk_names(cols.take(i as int)),
            key_models(keys@) == pk_sort_keys(cols.take(i as int)),
        decreases columns.len() - i,
    {
        proof {
            assert(cols.take(i + 1).drop_last() =~= cols.take(i as int));
            assert(cols.take(i + 1).last() == cols[i as int]);
        }
        let c = &columns[i];
        if c.pk > 0 {
            let ghost before = pk_columns(cols.take(i as int));
            let ghost old_names = names@;
            let ghost old_sort = to_sort@;
            let ghost old_keys = keys@;
            proof {
                assert(cols[i as int] == (c.name@, c.pk));
                assert(pk_columns(cols.take(i + 1)) == before.push(cols[i as int]));
                assert(pk_names(cols.take(i + 1)) =~= pk_names(cols.take(i as int)).push(c.name@));
                assert(pk_sort_keys(cols.take(i + 1)) =~= pk_sort_keys(cols.take(i as int)).push(pk_sort_key(cols[i as int])));
            }
            names.push(c.name.clone());
            assert(string_views(names@) =~= string_views(old_names).push(c.name@));
            to_sort.push(c.name.clone());
            assert(string_views(to_sort@) =~= string_views(old_sort).push(c.name@));
            let e1 = String::new();
            let e2 = String::new();
            let key = OrdKey { n1: c.pk, n2: 0, s1: e1, s2: e2 };
            assert(key@ == pk_sort_key(cols[i as int]));
            keys.push(key);
            assert(key_models(keys@) =~= key_models(old_keys).push(key@));
        } else {
            proof {
                assert(pk_columns(cols.take(i + 1)) == pk_columns(cols.take(i as int)));
            }
        }
        i = i + 1;
    }
    proof { assert(cols.take(columns.len() as int) =~= cols); }
    let sorted = sort_by_keys(to_sort, keys, false);
    proof {
        let items = to_sort@;
        let km = key_models(keys@);
        lemma_stable_sort_map(items, km, false, |s: String| s@);
        assert(string_views(items) == items.map_values(|s: String| s@));
    }
    (names, sorted)
}

fn quote_all(names: &Vec<String>) -> (r: Vec<String>)
    ensures
        string_views(r@) == quoted_all(string_views(names@)),
{
    let mut r: Vec<String> = Vec::new();
    let mut i: usize = 0;
    while i < names.len()
        invariant
            i <= names.len(),
            string_views(r@) == quoted_all(string_views(names@)).take(i as int),
        decreases names.len() - i,
    {
        let ghost old_r = r@;
        let q = quote_sqlite_identifier(names[i].as_str());
        r.push(q);
        assert(string_views(r@) =~= string_views(old_r).push(q@));
        proof {
            let sv = string_views(names@);
            assert(sv[i as int] == names@[i as int]@);
            assert(quoted_all(sv).take(i + 1) =~= quoted_all(sv).take(i as int).push(quoted_all(sv)[i as int]));
        }
        i = i + 1;
    }
    proof { assert(quoted_all(string_views(names@)).take(names.len() as int) =~= quoted_all(string_views(names@))); }
    r
}

/// The upsert of a peer's row, whose set fields are named `keys`, into a
/// table with `columns` (`insert_json_row_on_conn`).
pub fn ha_upsert_sql(table: &str, columns: &Vec<SqliteColumnInfo>, keys: &Vec<String>) -> (r: Result<HaRowUpsert, ProxyError>)
    ensures
        match upsert_sql_spec(table@, column_models(columns@), string_views(keys@)) {
            Ok((sql, sel)) => r matches Ok(u) && u.sql@ == sql && string_views(u.columns@) == sel,
            Err(msg) => r matches Err(ProxyError::Other(m)) && m@ == msg,
        },
{
    let ghost cols = column_models(columns@);
    let ghost ks = string_views(keys@);
    let mut selected: Vec<String> = Vec::new();
    let mut i: usize = 0;
    while i < columns.len()
        invariant
            i <= columns.len(),
            cols == column_models(columns@),
            ks == string_views(keys@),
            string_views(selected@) == selected_columns(cols.take(i as int), ks),
        decreases columns.len() - i,
    {
        proof {
            assert(cols.take(i + 1).drop_last() =~= cols.take(i as int));
            assert(cols.take(i + 1).last() == cols[i as int]);
        }
        if string_in(keys, columns[i].name.as_str()) {
            selected.push(columns[i].name.clone());
            proof {
                assert(string_views(selected@) =~= selected_columns(cols.take(i + 1), ks));
            }
        }
        i = i + 1;
    }
    proof { assert(cols.take(columns.len() as int) =~= cols); }
    if selected.len() == 0 {
        return Err(ProxyError::Other(concat2("HA row payload has no columns for ", table)));
    }
    let (pks, sorted) = primary_key_names(columns);
    let mut k: usize = 0;
    while k < pks.len()
        invariant
            k <= pks.len(),
            ks == string_views(keys@),
            cols == column_models(columns@),
            string_views(pks@) == pk_names(cols),
            string_views(selected@) == selected_columns(cols, ks),
            selected@.len() > 0,
            forall|j: int| 0 <= j < k ==> ks.contains(#[trigger] string_views(pks@)[j]),
        decreases pks.len() - k,
    {
        if !string_in(keys, pks[k].as_str()) {
            proof {
                assert(string_views(pks@)[k as int] == pks@[k as int]@);
                assert(pk_names(cols)[k as int] == pks@[k as int]@);
                assert(!ks.contains(pk_names(cols)[k as int]));
            }
            return Err(ProxyError::Other(concat2("HA row payload is missing primary key columns for ", table)));
        }
        k = k + 1;
    }
    let quoted = quote_all(&selected);
    let column_sql = join_strings(&quoted, ", ");
    let mut marks: Vec<String> = Vec::new();
    let mut m: usize = 0;
    while m < selected.len()
        invariant
            m <= selected.len(),
            string_views(marks@) == placeholders(m as nat),
        decreases selected.len() - m,
    {
        let ghost old_marks = marks@;
        let mark = owned("?");
        marks.push(mark);
        assert(string_views(marks@) =~= string_views(old_marks).push("?"@));
        m = m + 1;
        proof { assert(string_views(marks@) =~= placeholders(m as nat)); }
    }
    let marks_sql = join_strings(&marks, ", ");
    let qt = quote_sqlite_identifier(table);
    let body = cat(&vec![" INTO ", qt.as_str(), " (", column_sql.as_str(), ") VALUES (", marks_sql.as_str(), ")"]);
    proof { reveal_with_fuel(concat_all, 8); }
    if pks.len() == 0 {
        let sql = concat2("INSERT OR REPLACE", body.as_str());
        return Ok(HaRowUpsert { sql, columns: selected });
    }
    let quoted_pks = quote_all(&sorted);
    let conflict_sql = join_strings(&quoted_pks, ", ");
    let conflict = cat(&vec![" ON CONFLICT(", conflict_sql.as_str(), ")"]);
    proof { reveal_with_fuel(concat_all, 4); }
    let mut updates: Vec<String> = Vec::new();
    let mut u: usize = 0;
    while u < selected.len()
        invariant
            u <= selected.len(),
            string_views(updates@) == update_assignments(string_views(selected@).take(u as int), string_views(pks@)),
        decreases selected.len() - u,
    {
        let ghost sv = string_views(selected@);
        proof {
            assert(sv.take(u + 1).drop_last() =~= sv.take(u as int));
            assert(sv.take(u + 1).last() == selected@[u as int]@);
        }
        if !string_in(&pks, selected[u].as_str()) {
            let q = quote_sqlite_identifier(selected[u].as_str());
            let a = cat(&vec![q.as_str(), " = excluded.", q.as_str()]);
            proof { reveal_with_fuel(concat_all, 4); }
            updates.push(a);
            proof {
                assert(string_views(updates@) =~= update_assignments(sv.take(u + 1), string_views(pks@)));
            }
        }
        u = u + 1;
    }
    proof { assert(string_views(selected@).take(selected.len() as int) =~= string_views(selected@)); }
    let sql = if updates.len() == 0 {
        cat(&vec!["INSERT", body.as_str(), conflict.as_str(), " DO NOTHING"])
    } else {
        let update_sql = join_strings(&updates, ", ");
        cat(&vec!["INSERT", body.as_str(), conflict.as_str(), " DO UPDATE SET ", update_sql.as_str()])
    };
    proof { reveal_with_fuel(concat_all, 6); }
    Ok(HaRowUpsert { sql, columns: selected })
}

/// `"k" = ?` for each key column.
pub open spec fn key_conditions(pks: Seq<Seq<char>>) -> Seq<Seq<char>> {
    pks.map_values(|n: Seq<char>| quote_identifier_spec(n) + " = ?"@)
}

/// Whether a table has a column named `id`.
pub open spec fn has_id_column(cols: Seq<(Seq<char>, i64)>) -> bool {
    exists|i: int| 0 <= i < cols.len() && #[trigger] cols[i].0 == "id"@
}

/// How a peer's deleted row is found locally.
pub enum HaRowDelete {
    /// By its primary key: the SQL and the key columns whose row values it binds.
    ByPrimaryKey { sql: String, key_columns: Vec<String> },
    /// By the event's resource id, matched on `id` or on `rowid`.
    ByResourceId { sql: String },
}

/// The deletion of a peer's row from a table with `columns`; `keys` names
/// the row's fields when the row is an object (`delete_json_row_on_conn`).
/// A row holding every key column of a keyed table is deleted by its key;
/// any other by the resource id, on `id` when the table has it.
pub fn ha_delete_sql(table: &str, columns: &Vec<SqliteColumnInfo>, keys: &Option<Vec<String>>) -> (r: HaRowDelete)
    ensures
        ({
            let cols = column_models(columns@);
            let pks = pk_names(cols);
            let qt = quote_identifier_spec(table@);
            let by_key = keys matches Some(k) && pks.len() > 0
                && forall|i: int| 0 <= i < pks.len() ==> string_views(k@).contains(#[trigger] pks[i]);
            if by_key {
                r matches HaRowDelete::ByPrimaryKey { sql, key_columns }
                    && sql@ == "DELETE FROM "@ + qt + " WHERE "@ + join_spec(key_conditions(sorted_pk_names(cols)), " AND "@)
                    && string_views(key_columns@) == sorted_pk_names(cols)
            } else {
                r matches HaRowDelete::ByResourceId { sql }
                    && sql@ == "DELETE FROM "@ + qt + " WHERE "@
                        + (if has_id_column(cols) { quote_identifier_spec("id"@) } else { "rowid"@ }) + " = ?"@
            }
        }),
{
    let ghost cols = column_models(columns@);
    let (pks, sorted) = primary_key_names(columns);
    let qt = quote_sqlite_identifier(table);
    let mut by_key = false;
    if let Some(k) = keys {
        if pks.len() > 0 {
            let mut all = true;
            let mut j: usize = 0;
            while j < pks.len()
                invariant
                    j <= pks.len(),
                    all == forall|t: int| 0 <= t < j ==> string_views(k@).contains(#[trigger] string_views(pks@)[t]),
                decreases pks.len() - j,
            {
                let found = string_in(k, pks[j].as_str());
                proof {
                    assert(string_views(pks@)[j as int] == pks@[j as int]@);
                    if !found {
                        assert(!string_views(k@).contains(string_views(pks@)[j as int]));
                    }
                }
                all = all && found;
                j = j + 1;
            }
            by_key = all;
        }
    }
    if by_key {
        let mut conds: Vec<String> = Vec::new();
        let mut i: usize = 0;
        while i < sorted.len()
            invariant
                i <= sorted.len(),
                string_views(conds@) == key_conditions(string_views(sorted@)).take(i as int),
            decreases sorted.len() - i,
        {
            let q = quote_sqlite_identifier(sorted[i].as_str());
            let cond = concat2(q.as_str(), " = ?");
            let ghost old_conds = conds@;
            conds.push(cond);
            assert(string_views(conds@) =~= string_views(old_conds).push(cond@));
            proof {
                let kc = key_conditions(string_views(sorted@));
                assert(string_views(sorted@)[i as int] == sorted@[i as int]@);
                assert(kc.take(i + 1) =~= kc.take(i as int).push(kc[i as int]));
            }
            i = i + 1;
        }
        proof { assert(key_conditions(string_views(sorted@)).take(sorted.len() as int) =~= key_conditions(string_views(sorted@))); }
        let where_sql = join_strings(&conds, " AND ");
        let sql = cat(&vec!["DELETE FROM ", qt.as_str(), " WHERE ", where_sql.as_str()]);
        proof { reveal_with_fuel(concat_all, 5); }
        return HaRowDelete::ByPrimaryKey { sql, key_columns: sorted };
    }
    let mut has_id = false;
    let mut i: usize = 0;
    while i < columns.len()
        invariant
            i <= columns.len(),
            cols == column_models(columns@),
            has_id == exists|t: int| 0 <= t < i && #[trigger] cols[t].0 == "id"@,
        decreases columns.len() - i,
    {
        if str_eq(columns[i].name.as_str(), "id") {
            assert(cols[i as int].0 == "id"@);
            has_id = true;
        }
        i = i + 1;
    }
    let key_column = if has_id { quote_sqlite_identifier("id") } else { owned("rowid") };
    let sql = cat(&vec!["DELETE FROM ", qt.as_str(), " WHERE ", key_column.as_str(), " = ?"]);
    proof { reveal_with_fuel(concat_all, 6); }
    HaRowDelete::ByResourceId { sql }
}

/// An optional id, zero when absent.
pub open spec fn or_zero(v: Option<i64>) -> int {
    match v {
        Some(x) => x as int,
        None => 0,
    }
}

/// The lowest id in use among imported billing entries, never above zero.
pub open spec fn lowest_import_id(min_ledger_id: Option<i64>, min_mapping_id: Option<i64>) -> int {
    let a = or_zero(min_ledger_id);
    let b = or_zero(min_mapping_id);
    let m = if a <= b { a } else { b };
    if m <= 0 { m } else { 0 }
}

/// The local id for a peer billing entry seen for the first time: one below
/// the lowest negative id in use, in the ledger or in the import map, so
/// that imported entries never collide with local (positive) ones or with
/// each other; an error once `i64::MIN` is reached.
pub fn next_peer_billing_ledger_local_id(min_ledger_id: Option<i64>, min_mapping_id: Option<i64>) -> (r: Result<i64, ProxyError>)
    ensures
        lowest_import_id(min_ledger_id, min_mapping_id) == i64::MIN
            <==> (r matches Err(ProxyError::Other(m)) && m@ == "HA billing ledger import id namespace exhausted"@),
        r matches Ok(v) ==> v as int == lowest_import_id(min_ledger_id, min_mapping_id) - 1,
        r matches Ok(v) ==> v < 0 && v < or_zero(min_ledger_id) && v < or_zero(min_mapping_id),
{
    let a = match min_ledger_id {
        Some(x) => x,
        None => 0,
    };
    let b = match min_mapping_id {
        Some(x) => x,
        None => 0,
    };
    let m = if a <= b { a } else { b };
    let m = if m <= 0 { m } else { 0 };
    if m == i64::MIN {
        return Err(ProxyError::Other(owned("HA billing ledger import id namespace exhausted")));
    }
    Ok(m - 1)
}

/// What importing a peer's billing-ledger row needs.
#[derive(PartialEq, Eq, Structural, Clone, Copy, Debug)]
pub enum HaBillingLedgerImport {
    /// Nothing to write: the entry has no positive id.
    Skip,
    /// Write the row as it is (an operation other than upsert or delete).
    KeepRow,
    /// Map the peer's entry id to a local one (creating the mapping for an
    /// upsert, only looking it up for a delete), then write the row with
    /// the local id and without its request-log reference.
    MapId { peer_auth_token_log_id: i64, create: bool },
}

/// Reads a peer's billing-ledger row (`prepare_peer_billing_ledger_row_on_conn`):
/// it must be an object with an integer `auth_token_log_id`.
pub fn ha_billing_ledger_import_step(op: &str, row: &Option<Vec<(String, HaJsonScalar)>>) -> (r: Result<HaBillingLedgerImport, ProxyError>)
    ensures
        match row {
            None => r matches Err(ProxyError::Other(m)) && m@ == "HA billing ledger payload must be a JSON object"@,
            Some(o) => match i64_field_result(o@, "billing_ledger"@, "auth_token_log_id"@) {
                Err(msg) => r matches Err(ProxyError::Other(m)) && m@ == msg,
                Ok(id) => if id <= 0 {
                    r == Ok::<HaBillingLedgerImport, ProxyError>(HaBillingLedgerImport::Skip)
                } else if op@ == "upsert"@ {
                    r == Ok::<HaBillingLedgerImport, ProxyError>(HaBillingLedgerImport::MapId { peer_auth_token_log_id: id as i64, create: true })
                } else if op@ == "delete"@ {
                    r == Ok::<HaBillingLedgerImport, ProxyError>(HaBillingLedgerImport::MapId { peer_auth_token_log_id: id as i64, create: false })
                } else {
                    r == Ok::<HaBillingLedgerImport, ProxyError>(HaBillingLedgerImport::KeepRow)
                },
            },
        },
{
    let o = match row {
        Some(o) => o,
        None => return Err(ProxyError::Other(owned("HA billing ledger payload must be a JSON object"))),
    };
    let id = match ha_json_i64_field(o, "billing_ledger", "auth_token_log_id") {
        Ok(v) => v,
        Err(e) => return Err(e),
    };
    if id <= 0 {
        return Ok(HaBillingLedgerImport::Skip);
    }
    if str_eq(op, "upsert") {
        Ok(HaBillingLedgerImport::MapId { peer_auth_token_log_id: id, create: true })
    } else if str_eq(op, "delete") {
        Ok(HaBillingLedgerImport::MapId { peer_auth_token_log_id: id, create: false })
    } else {
        Ok(HaBillingLedgerImport::KeepRow)
    }
}

} // verus!
