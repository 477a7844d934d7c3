use key_store::quota_charge::{accumulate_quota_charge, QuotaSyncSample};
use key_store::entitlements::{
    group_account_entitlement_deltas, AccountEntitlementDeltaRow, AccountEntitlementScope,
    EntitlementQuotaDelta,
};
use key_store::error::ProxyError;
use key_store::recharge::{
    legacy_recharge_quote_anchor, push_admin_recharge_filters, recharge_refund_finalize_check,
    recharge_refund_reservation_check,
};
use key_store::recharge_admin::{
    admin_recharge_orders_query, admin_recharge_user_groups_query, LinuxDoCreditRechargeAdminListQuery,
    ADMIN_RECHARGE_GROUPS_SELECT, ADMIN_RECHARGE_ORDERS_SELECT,
};
use key_store::sql::{SqlBind, SqlQuery};

#[test]
fn admin_recharge_filters() {
    let mut q = SqlQuery::new("WHERE 1 = 1");
    push_admin_recharge_filters(&mut q, Some(" bob "), Some(" paid "), Some(10), None);
    assert_eq!(
        q.sql,
        "WHERE 1 = 1 AND (o.user_id LIKE ? OR COALESCE(u.display_name, '') LIKE ? OR COALESCE(u.username, '') LIKE ? OR o.out_trade_no LIKE ? OR COALESCE(o.trade_no, '') LIKE ?) AND o.status = ? AND o.created_at >= ?"
    );
    assert_eq!(q.binds.len(), 7);
    assert!(matches!(&q.binds[0], SqlBind::Text(s) if s == "%bob%"));
    assert!(matches!(&q.binds[5], SqlBind::Text(s) if s == "paid"));
    assert!(matches!(&q.binds[6], SqlBind::Int(10)));

    let mut q = SqlQuery::new("");
    push_admin_recharge_filters(&mut q, Some("  "), Some("all"), None, Some(20));
    assert_eq!(q.sql, " AND o.created_at <= ?");
}

#[test]
fn quote_anchor_prefers_payment_time() {
    assert_eq!(legacy_recharge_quote_anchor(10, Some(20)), 20);
    assert_eq!(legacy_recharge_quote_anchor(10, None), 10);
}

fn sample(key: &str, remaining: i64, at: i64) -> QuotaSyncSample {
    QuotaSyncSample { key_id: key.to_string(), quota_remaining: remaining, captured_at: at }
}

#[test]
fn quota_charges_sum_drops_within_the_window() {
    let samples = vec![
        sample("a", 100, 5),
        sample("a", 90, 15),
        sample("a", 95, 25),
        sample("a", 80, 35),
        sample("b", 50, 12),
        sample("b", 40, 50),
    ];
    let charge = accumulate_quota_charge(&samples, 10, 40, 3);
    assert_eq!(charge.upstream_actual_credits, 10 + 0 + 15);
    assert_eq!(charge.sampled_key_count, 2);
    assert_eq!(charge.stale_key_count, 3);
    assert_eq!(charge.latest_sync_at, Some(35));
    let empty = accumulate_quota_charge(&samples, 100, 200, 0);
    assert_eq!(empty.upstream_actual_credits, 0);
    assert_eq!(empty.sampled_key_count, 0);
    assert_eq!(empty.latest_sync_at, None);
}

#[test]
fn refunds_are_reserved_only_for_paid_orders_with_a_trade_number() {
    assert!(recharge_refund_reservation_check(true, "paid", Some("T-1")).is_ok());
    match recharge_refund_reservation_check(false, "pending", Some("T-1")) {
        Err(ProxyError::Other(m)) => assert_eq!(m, "recharge order is not refundable from status pending"),
        _ => panic!("expected a refusal"),
    }
    match recharge_refund_reservation_check(true, "paid", Some("   ")) {
        Err(ProxyError::Other(m)) => assert_eq!(m, "recharge order has no trade number"),
        _ => panic!("expected a refusal"),
    }
    assert!(recharge_refund_reservation_check(true, "paid", None).is_err());
    assert!(recharge_refund_finalize_check(true, "refunding").is_ok());
    match recharge_refund_finalize_check(false, "paid") {
        Err(ProxyError::Other(m)) => assert_eq!(m, "recharge order refund is not reserved from status paid"),
        _ => panic!("expected a refusal"),
    }
}

fn delta(hourly_delta: i64, daily_delta: i64, monthly_delta: i64) -> EntitlementQuotaDelta {
    EntitlementQuotaDelta { hourly_delta, daily_delta, monthly_delta }
}

fn entitlement_row(user: &str, scope: AccountEntitlementScope, d: EntitlementQuotaDelta) -> AccountEntitlementDeltaRow {
    AccountEntitlementDeltaRow { user_id: user.to_string(), scope, delta: d }
}

#[test]
fn account_entitlement_deltas_are_gathered_per_user() {
    let rows = vec![
        entitlement_row("bob", AccountEntitlementScope::Permanent, delta(1, 2, 3)),
        entitlement_row("amy", AccountEntitlementScope::Month, delta(10, 20, 30)),
        entitlement_row("bob", AccountEntitlementScope::Month, delta(4, 5, 6)),
        entitlement_row("cat", AccountEntitlementScope::Other, delta(7, 8, 9)),
    ];
    let grouped = group_account_entitlement_deltas(&rows);
    assert_eq!(grouped.len(), 3);
    assert_eq!(grouped[0].user_id, "bob");
    assert_eq!(grouped[0].month, delta(4, 5, 6));
    assert_eq!(grouped[0].permanent, delta(1, 2, 3));
    assert_eq!(grouped[1].user_id, "amy");
    assert_eq!(grouped[1].month, delta(10, 20, 30));
    assert_eq!(grouped[1].permanent, delta(0, 0, 0));
    assert_eq!(grouped[2].user_id, "cat");
    assert_eq!(grouped[2].month, delta(0, 0, 0));
    assert_eq!(grouped[2].permanent, delta(0, 0, 0));
    assert!(group_account_entitlement_deltas(&Vec::new()).is_empty());
}

fn admin_list(sort: &str, order: &str, page: i64, per_page: i64) -> LinuxDoCreditRechargeAdminListQuery {
    LinuxDoCreditRechargeAdminListQuery {
        user_query: None,
        status: Some("paid".to_string()),
        start_at: None,
        end_at: None,
        sort: sort.to_string(),
        order: order.to_string(),
        page,
        per_page,
    }
}

#[test]
fn admin_recharge_order_page_query() {
    let q = admin_recharge_orders_query(&admin_list("paidAt", "AsC", 3, 20));
    assert_eq!(
        q.sql,
        format!("{ADMIN_RECHARGE_ORDERS_SELECT} AND o.status = ? ORDER BY o.paid_at ASC, o.out_trade_no DESC LIMIT ? OFFSET ?")
    );
    assert_eq!(q.binds.len(), 3);
    assert!(matches!(&q.binds[0], SqlBind::Text(s) if s == "paid"));
    assert!(matches!(&q.binds[1], SqlBind::Int(20)));
    assert!(matches!(&q.binds[2], SqlBind::Int(40)));

    let q = admin_recharge_orders_query(&admin_list("anything", "up", 0, 500));
    assert!(q.sql.ends_with(" ORDER BY o.created_at DESC, o.out_trade_no DESC LIMIT ? OFFSET ?"));
    assert!(matches!(&q.binds[1], SqlBind::Int(100)));
    assert!(matches!(&q.binds[2], SqlBind::Int(0)));
}

#[test]
fn admin_recharge_user_group_page_query() {
    let q = admin_recharge_user_groups_query(&admin_list("status", "desc", 2, 0));
    assert_eq!(
        q.sql,
        format!("{ADMIN_RECHARGE_GROUPS_SELECT} AND o.status = ? GROUP BY o.user_id, u.display_name, u.username, u.avatar_template ORDER BY refunded_order_count DESC LIMIT ? OFFSET ?")
    );
    assert!(matches!(&q.binds[1], SqlBind::Int(1)));
    assert!(matches!(&q.binds[2], SqlBind::Int(1)));
    let q = admin_recharge_user_groups_query(&admin_list("refundedAt", "ASC", 1, 10));
    assert!(q.sql.contains(" ORDER BY latest_refunded_at ASC LIMIT "));
}
