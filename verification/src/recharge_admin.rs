//! The administrators' recharge lists: the page of orders and the page of
//! per-user order groups, filtered, sorted and paged as asked.

use vstd::prelude::*;
use crate::sql::{
    SqlPiece, SqlQuery, bind_int, extends, lemma_extends_then, lit, then,
};
use crate::recharge::{admin_recharge_filters_piece, push_admin_recharge_filters};
use crate::sqlite::{ascii_lowercase, ascii_lowercase_exec};
use crate::text::str_eq;
use crate::alerts::model::opt_str;

verus! {

/// What an administrator asks of a recharge list.
pub struct LinuxDoCreditRechargeAdminListQuery {
    /// Searched in the user's id, names and the order's trade numbers.
    pub user_query: Option<String>,
    pub status: Option<String>,
    pub start_at: Option<i64>,
    pub end_at: Option<i64>,
    /// `paidAt`, `refundedAt`, `status`, or anything else for creation time.
    pub sort: String,
    /// `asc` in any case for ascending; anything else is descending.
    pub order: String,
    pub page: i64,
    pub per_page: i64,
}

/// The page size: `per_page` clamped to 1 ..= 100.
pub open spec fn admin_page_size(per_page: i64) -> int {
    if per_page < 1 { 1 } else if per_page > 100 { 100 } else { per_page as int }
}

/// How many rows come before the page: pages count from 1 (anything lower
/// is the first page).
pub open spec fn admin_page_offset(page: i64, per_page: i64) -> int {
    ((if page < 1 { 1 } else { page as int }) - 1) * admin_page_size(per_page)
}

/// ` ASC` when `order` is `asc` in any case, else ` DESC`.
pub open spec fn admin_sort_direction(order: Seq<char>) -> Seq<char> {
    if ascii_lowercase(order) == "asc"@ { " ASC"@ } else { " DESC"@ }
}

/// The column the order list sorts by.
pub open spec fn order_sort_column(sort: Seq<char>) -> Seq<char> {
    if sort == "paidAt"@ {
        "o.paid_at"@
    } else if sort == "refundedAt"@ {
        "o.refunded_at"@
    } else if sort == "status"@ {
        "o.status"@
    } else {
        "o.created_at"@
    }
}

/// The column the per-user list sorts by.
pub open spec fn group_sort_column(sort: Seq<char>) -> Seq<char> {
    if sort == "paidAt"@ {
        "latest_paid_at"@
    } else if sort == "refundedAt"@ {
        "latest_refunded_at"@
    } else if sort == "status"@ {
        "refunded_order_count"@
    } else {
        "latest_order_created_at"@
    }
}

/// `?` bound to the page size, ` OFFSET ?` bound to the offset.
pub open spec fn admin_paging_piece(page: i64, per_page: i64) -> SqlPiece {
    then(then(bind_int(admin_page_size(per_page)), lit(" OFFSET "@)), bind_int(admin_page_offset(page, per_page)))
}

/// The filters of a list query.
pub open spec fn admin_filters_of(q: LinuxDoCreditRechargeAdminListQuery) -> SqlPiece {
    admin_recharge_filters_piece(opt_str(q.user_query), opt_str(q.status), q.start_at, q.end_at)
}

pub const ADMIN_RECHARGE_ORDERS_SELECT: &'static str = "SELECT o.*, u.display_name AS user_display_name, u.username AS user_username, u.avatar_template AS user_avatar_template FROM linuxdo_credit_recharge_orders o LEFT JOIN users u ON u.id = o.user_id WHERE 1 = 1";

pub const ADMIN_RECHARGE_GROUPS_SELECT: &'static str = "SELECT o.user_id, u.display_name AS user_display_name, u.username AS user_username, u.avatar_template AS user_avatar_template, COUNT(*) AS order_count, SUM(CASE WHEN o.status = 'paid' THEN 1 ELSE 0 END) AS paid_order_count, SUM(CASE WHEN o.status IN ('refunded', 'refundOnly') THEN 1 ELSE 0 END) AS refunded_order_count, COALESCE(SUM(o.credits * o.months), 0) AS total_credits, COALESCE(SUM(o.final_money_cents), 0) AS total_money_cents, MAX(o.created_at) AS latest_order_created_at, MAX(o.paid_at) AS latest_paid_at, MAX(o.refunded_at) AS latest_refunded_at FROM linuxdo_credit_recharge_orders o LEFT JOIN users u ON u.id = o.user_id WHERE 1 = 1";

/// The page of orders: joined with their users, filtered, sorted by the
/// asked column and direction and then by trade number (descending), paged.
pub open spec fn admin_orders_query_piece(q: LinuxDoCreditRechargeAdminListQuery) -> SqlPiece {
    then(then(then(lit(ADMIN_RECHARGE_ORDERS_SELECT@), admin_filters_of(q)),
        lit(" ORDER BY "@ + order_sort_column(q.sort@) + admin_sort_direction(q.order@) + ", o.out_trade_no DESC LIMIT "@)),
        admin_paging_piece(q.page, q.per_page))
}

/// The page of per-user groups: each user's order counts, totals and latest
/// times over the filtered orders, sorted by the asked figure and paged.
pub open spec fn admin_groups_query_piece(q: LinuxDoCreditRechargeAdminListQuery) -> SqlPiece {
    then(then(then(lit(ADMIN_RECHARGE_GROUPS_SELECT@), admin_filters_of(q)),
        lit(" GROUP BY o.user_id, u.display_name, u.username, u.avatar_template ORDER BY "@ + group_sort_column(q.sort@) + admin_sort_direction(q.order@) + " LIMIT "@)),
        admin_paging_piece(q.page, q.per_page))
}

/// Whether the offset of the asked page fits an `i64`.
pub open spec fn admin_page_fits(q: LinuxDoCreditRechargeAdminListQuery) -> bool {
    admin_page_offset(q.page, q.per_page) <= i64::MAX
}

fn sort_direction(order: &str) -> (r: &'static str)
    ensures
        r@ == admin_sort_direction(order@),
{
    let lower = ascii_lowercase_exec(order);
    if str_eq(lower.as_str(), "asc") { " ASC" } else { " DESC" }
}

fn push_paging(query: &mut SqlQuery, page: i64, per_page: i64)
    requires
        admin_page_offset(page, per_page) <= i64::MAX,
    ensures
        extends(*old(query), *final(query), admin_paging_piece(page, per_page)),
{
    let size: i64 = if per_page < 1 { 1 } else if per_page > 100 { 100 } else { per_page };
    let first: i64 = if page < 1 { 1 } else { page };
    assert(0 <= first - 1);
    assert((first - 1) * size >= 0) by (nonlinear_arith)
        requires
            first - 1 >= 0,
            size >= 1;
    let offset: i64 = (first - 1) * size;
    let ghost q0 = *query;
    query.push_bind_int(size);
    let ghost q1 = *query;
    query.push(" OFFSET ");
    let ghost q2 = *query;
    query.push_bind_int(offset);
    proof {
        lemma_extends_then(q0, q1, q2, bind_int(size as int), lit(" OFFSET "@));
        lemma_extends_then(q0, q2, *query, then(bind_int(size as int), lit(" OFFSET "@)), bind_int(offset as int));
    }
}

fn push_admin_list(query: &mut SqlQuery, q: &LinuxDoCreditRechargeAdminListQuery)
    ensures
        extends(*old(query), *final(query), admin_filters_of(*q)),
{
    let user_query = match &q.user_query { Some(s) => Some(s.as_str()), None => None };
    let status = match &q.status { Some(s) => Some(s.as_str()), None => None };
    push_admin_recharge_filters(query, user_query, status, q.start_at, q.end_at);
}

/// The query of a page of the administrators' order list.
pub fn admin_recharge_orders_query(q: &LinuxDoCreditRechargeAdminListQuery) -> (r: SqlQuery)
    requires
        admin_page_fits(*q),
    ensures
        r.sql@ == admin_orders_query_piece(*q).text,
        r.args() == admin_orders_query_piece(*q).args,
{
    let mut query = SqlQuery::new(ADMIN_RECHARGE_ORDERS_SELECT);
    let ghost q0 = query;
    push_admin_list(&mut query, q);
    let ghost q1 = query;
    let column: &str = if str_eq(q.sort.as_str(), "paidAt") {
        "o.paid_at"
    } else if str_eq(q.sort.as_str(), "refundedAt") {
        "o.refunded_at"
    } else if str_eq(q.sort.as_str(), "status") {
        "o.status"
    } else {
        "o.created_at"
    };
    let direction = sort_direction(q.order.as_str());
    query.push(" ORDER BY ");
    query.push(column);
    query.push(direction);
    query.push(", o.out_trade_no DESC LIMIT ");
    let ghost q2 = query;
    let ghost order_text = " ORDER BY "@ + order_sort_column(q.sort@) + admin_sort_direction(q.order@) + ", o.out_trade_no DESC LIMIT "@;
    proof {
        assert(column@ == order_sort_column(q.sort@));
        assert(q2.sql@ =~= q1.sql@ + order_text);
        assert(extends(q1, q2, lit(order_text)));
    }
    push_paging(&mut query, q.page, q.per_page);
    proof {
        let p = admin_orders_query_piece(*q);
        lemma_extends_then(q0, q1, q2, admin_filters_of(*q), lit(order_text));
        lemma_extends_then(q0, q2, query, then(admin_filters_of(*q), lit(order_text)), admin_paging_piece(q.page, q.per_page));
        assert(query.sql@ =~= p.text);
        assert(query.args() =~= p.args);
    }
    query
}

/// The query of a page of the administrators' per-user order groups.
pub fn admin_recharge_user_groups_query(q: &LinuxDoCreditRechargeAdminListQuery) -> (r: SqlQuery)
    requires
        admin_page_fits(*q),
    ensures
        r.sql@ == admin_groups_query_piece(*q).text,
        r.args() == admin_groups_query_piece(*q).args,
{
    let mut query = SqlQuery::new(ADMIN_RECHARGE_GROUPS_SELECT);
    let ghost q0 = query;
    push_admin_list(&mut query, q);
    let ghost q1 = query;
    let column: &str = if str_eq(q.sort.as_str(), "paidAt") {
        "latest_paid_at"
    } else if str_eq(q.sort.as_str(), "refundedAt") {
        "latest_refunded_at"
    } else if str_eq(q.sort.as_str(), "status") {
        "refunded_order_count"
    } else {
        "latest_order_created_at"
    };
    let direction = sort_direction(q.order.as_str());
    query.push(" GROUP BY o.user_id, u.display_name, u.username, u.avatar_template ORDER BY ");
    query.push(column);
    query.push(direction);
    query.push(" LIMIT ");
    let ghost q2 = query;
    let ghost order_text = " GROUP BY o.user_id, u.display_name, u.username, u.avatar_template ORDER BY "@ + group_sort_column(q.sort@) + admin_sort_direction(q.order@) + " LIMIT "@;
    proof {
        assert(column@ == group_sort_column(q.sort@));
        assert(q2.sql@ =~= q1.sql@ + order_text);
        assert(extends(q1, q2, lit(order_text)));
    }
    push_paging(&mut query, q.page, q.per_page);
    proof {
        let p = admin_groups_query_piece(*q);
        lemma_extends_then(q0, q1, q2, admin_filters_of(*q), lit(order_text));
        lemma_extends_then(q0, q2, query, then(admin_filters_of(*q), lit(order_text)), admin_paging_piece(q.page, q.per_page));
        assert(query.sql@ =~= p.text);
        assert(query.args() =~= p.args);
    }
    query
}

} // verus!
