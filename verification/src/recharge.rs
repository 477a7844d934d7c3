//! Credit recharge orders: the filters of the administrators' order list and
//! the month an old order's quote belongs to.

use vstd::prelude::*;
use vstd::string::*;
use crate::sql::{
    SqlPiece, SqlQuery, bind_text, concat_pieces, empty_piece, extends, lemma_extends_empty,
    lemma_extends_step, lemma_extends_then, lit, opt_int_piece, push_opt_int, then,
};
use crate::error::ProxyError;
use crate::clock::{
    CHRONO_MAX_TIMESTAMP, CHRONO_MIN_TIMESTAMP, chrono_timestamp_in_range, day_secs, local_month_start,
    now_unix_ts,
};
use crate::text::{cat, concat2, concat_all, owned, str_eq, trim, trim_string};

verus! {

/// The user search of the order list: each of five columns `LIKE %q%`, for
/// a search that is not blank once trimmed.
pub open spec fn user_search_piece(q: Option<Seq<char>>) -> SqlPiece {
    match q {
        Some(raw) => if trim(raw).len() > 0 {
            let like = "%"@ + trim(raw) + "%"@;
            concat_pieces(seq![
                lit(" AND (o.user_id LIKE "@), bind_text(like),
                lit(" OR COALESCE(u.display_name, '') LIKE "@), bind_text(like),
                lit(" OR COALESCE(u.username, '') LIKE "@), bind_text(like),
                lit(" OR o.out_trade_no LIKE "@), bind_text(like),
                lit(" OR COALESCE(o.trade_no, '') LIKE "@), bind_text(like),
                lit(")"@),
            ])
        } else {
            empty_piece()
        },
        None => empty_piece(),
    }
}

/// The status filter of the order list: none for a blank status or `all`.
pub open spec fn status_piece(status: Option<Seq<char>>) -> SqlPiece {
    match status {
        Some(raw) => if trim(raw).len() > 0 && trim(raw) != "all"@ {
            then(lit(" AND o.status = "@), bind_text(trim(raw)))
        } else {
            empty_piece()
        },
        None => empty_piece(),
    }
}

/// All filters of the order list, in order.
pub open spec fn admin_recharge_filters_piece(user_query: Option<Seq<char>>, status: Option<Seq<char>>, start_at: Option<i64>, end_at: Option<i64>) -> SqlPiece {
    concat_pieces(seq![
        user_search_piece(user_query),
        status_piece(status),
        opt_int_piece(" AND o.created_at >= "@, start_at),
        opt_int_piece(" AND o.created_at <= "@, end_at),
    ])
}


fn push_user_search(builder: &mut SqlQuery, user_query: Option<&str>)
    ensures
        extends(*old(builder), *final(builder), user_search_piece(match user_query { Some(s) => Some(s@), None => None })),
{
    let q = match user_query {
        Some(s) => trim_string(s),
        None => {
            proof { lemma_extends_empty(*builder); }
            return;
        }
    };
    if q.unicode_len() == 0 {
        proof { lemma_extends_empty(*builder); }
        return;
    }
    let like = cat(&vec!["%", q.as_str(), "%"]);
    proof { reveal_with_fuel(concat_all, 4); }
    let ghost q0 = *builder;
    proof { lemma_extends_empty(q0); }
    let ghost done: Seq<SqlPiece> = Seq::empty();
    let ghost qa = *builder;
    builder.push(" AND (o.user_id LIKE ");
    proof { lemma_extends_step(q0, qa, *builder, done, lit(" AND (o.user_id LIKE "@)); done = done.push(lit(" AND (o.user_id LIKE "@)); }
    let ghost qa = *builder;
    builder.push_bind_text(like.clone());
    proof { lemma_extends_step(q0, qa, *builder, done, bind_text(like@)); done = done.push(bind_text(like@)); }
    let ghost qa = *builder;
    builder.push(" OR COALESCE(u.display_name, '') LIKE ");
    proof {
        lemma_extends_step(q0, qa, *builder, done, lit(" OR COALESCE(u.display_name, '') LIKE "@));
        done = done.push(lit(" OR COALESCE(u.display_name, '') LIKE "@));
    }
    let ghost qa = *builder;
    builder.push_bind_text(like.clone());
    proof { lemma_extends_step(q0, qa, *builder, done, bind_text(like@)); done = done.push(bind_text(like@)); }
    let ghost qa = *builder;
    builder.push(" OR COALESCE(u.username, '') LIKE ");
    proof {
        lemma_extends_step(q0, qa, *builder, done, lit(" OR COALESCE(u.username, '') LIKE "@));
        done = done.push(lit(" OR COALESCE(u.username, '') LIKE "@));
    }
    let ghost qa = *builder;
    builder.push_bind_text(like.clone());
    proof { lemma_extends_step(q0, qa, *builder, done, bind_text(like@)); done = done.push(bind_text(like@)); }
    let ghost qa = *builder;
    builder.push(" OR o.out_trade_no LIKE ");
    proof { lemma_extends_step(q0, qa, *builder, done, lit(" OR o.out_trade_no LIKE "@)); done = done.push(lit(" OR o.out_trade_no LIKE "@)); }
    let ghost qa = *builder;
    builder.push_bind_text(like.clone());
    proof { lemma_extends_step(q0, qa, *builder, done, bind_text(like@)); done = done.push(bind_text(like@)); }
    let ghost qa = *builder;
    builder.push(" OR COALESCE(o.trade_no, '') LIKE ");
    proof {
        lemma_extends_step(q0, qa, *builder, done, lit(" OR COALESCE(o.trade_no, '') LIKE "@));
        done = done.push(lit(" OR COALESCE(o.trade_no, '') LIKE "@));
    }
    let ghost qa = *builder;
    builder.push_bind_text(like);
    proof { lemma_extends_step(q0, qa, *builder, done, bind_text(like@)); done = done.push(bind_text(like@)); }
    let ghost qa = *builder;
    builder.push(")");
    proof {
        lemma_extends_step(q0, qa, *builder, done, lit(")"@));
        done = done.push(lit(")"@));
        let l = "%"@ + q@ + "%"@;
        assert(done =~= seq![
            lit(" AND (o.user_id LIKE "@), bind_text(l),
            lit(" OR COALESCE(u.display_name, '') LIKE "@), bind_text(l),
            lit(" OR COALESCE(u.username, '') LIKE "@), bind_text(l),
            lit(" OR o.out_trade_no LIKE "@), bind_text(l),
            lit(" OR COALESCE(o.trade_no, '') LIKE "@), bind_text(l),
            lit(")"@),
        ]);
    }
}

fn push_status(builder: &mut SqlQuery, status: Option<&str>)
    ensures
        extends(*old(builder), *final(builder), status_piece(match status { Some(s) => Some(s@), None => None })),
{
    let s = match status {
        Some(s) => trim_string(s),
        None => {
            proof { lemma_extends_empty(*builder); }
            return;
        }
    };
    if s.unicode_len() == 0 || str_eq(s.as_str(), "all") {
        proof { lemma_extends_empty(*builder); }
        return;
    }
    let ghost q0 = *builder;
    builder.push(" AND o.status = ");
    let ghost q1 = *builder;
    let ghost sv = s@;
    builder.push_bind_text(s);
    proof { lemma_extends_then(q0, q1, *builder, lit(" AND o.status = "@), bind_text(sv)); }
}


/// Appends the filters of the administrators' order list.
pub fn push_admin_recharge_filters(
    builder: &mut SqlQuery,
    user_query: Option<&str>,
    status: Option<&str>,
    start_at: Option<i64>,
    end_at: Option<i64>,
)
    ensures
        extends(*old(builder), *final(builder), admin_recharge_filters_piece(
            match user_query { Some(s) => Some(s@), None => None },
            match status { Some(s) => Some(s@), None => None },
            start_at,
            end_at,
        )),
{
    let ghost uq = match user_query { Some(s) => Some(s@), None => None };
    let ghost st = match status { Some(s) => Some(s@), None => None };
    let ghost q0 = *builder;
    proof { lemma_extends_empty(q0); }
    let ghost done: Seq<SqlPiece> = Seq::empty();
    let ghost qa = *builder;
    push_user_search(builder, user_query);
    proof { lemma_extends_step(q0, qa, *builder, done, user_search_piece(uq)); done = done.push(user_search_piece(uq)); }
    let ghost qa = *builder;
    push_status(builder, status);
    proof { lemma_extends_step(q0, qa, *builder, done, status_piece(st)); done = done.push(status_piece(st)); }
    let ghost qa = *builder;
    push_opt_int(builder, " AND o.created_at >= ", start_at);
    proof {
        lemma_extends_step(q0, qa, *builder, done, opt_int_piece(" AND o.created_at >= "@, start_at));
        done = done.push(opt_int_piece(" AND o.created_at >= "@, start_at));
    }
    let ghost qa = *builder;
    push_opt_int(builder, " AND o.created_at <= ", end_at);
    proof {
        lemma_extends_step(q0, qa, *builder, done, opt_int_piece(" AND o.created_at <= "@, end_at));
        done = done.push(opt_int_piece(" AND o.created_at <= "@, end_at));
        assert(done =~= seq![
            user_search_piece(uq),
            status_piece(st),
            opt_int_piece(" AND o.created_at >= "@, start_at),
            opt_int_piece(" AND o.created_at <= "@, end_at),
        ]);
    }
}

/// The time an old order's quote month is taken from: when it was paid, or
/// else when it was created.
pub fn legacy_recharge_quote_anchor(created_at: i64, paid_at: Option<i64>) -> (r: i64)
    ensures
        r == match paid_at { Some(p) => p, None => created_at },
{
    match paid_at {
        Some(p) => p,
        None => created_at,
    }
}

/// The month an old order's quote belongs to: the local calendar month of
/// its anchor (payment, else creation), as the UTC instant of that month's
/// first local midnight. An anchor chrono cannot represent is replaced by the
/// current time; when chrono cannot find the midnight, the instant itself is
/// kept. The month depends on the machine's time zone; what holds in every
/// zone is that, for a representable anchor, the result lies within 33 days
/// before and two days after it.
pub fn legacy_recharge_quote_month_start(created_at: i64, paid_at: Option<i64>) -> (r: i64)
    ensures
        ({
            let anchor = match paid_at { Some(p) => p, None => created_at };
            chrono_timestamp_in_range(anchor) ==> anchor - 33 * day_secs() < r < anchor + 2 * day_secs()
        }),
{
    let anchor = legacy_recharge_quote_anchor(created_at, paid_at);
    let instant = if CHRONO_MIN_TIMESTAMP <= anchor && anchor <= CHRONO_MAX_TIMESTAMP { anchor } else { now_unix_ts() };
    match local_month_start(instant) {
        Some(start) => start,
        None => instant,
    }
}

/// What a payment notification does to an order: a closed order (being
/// refunded, refunded, refund-only or expired) only records the
/// notification; a pending order quoted for another month than the payment's
/// expires; any other order is marked paid and its entitlements start at its
/// quoted month, or at the payment's month when it has none.
#[derive(Clone, Copy, Debug, PartialEq, Eq, Structural)]
pub enum RechargePaymentAction {
    RecordNotificationOnly,
    ExpireForMonthMismatch,
    MarkPaid { start_month: i64 },
}

/// What a payment notification does to an order.
pub open spec fn payment_action_spec(order_closed: bool, order_pending: bool, quote_month_start: i64, paid_month_start: i64) -> RechargePaymentAction {
    if order_closed {
        RechargePaymentAction::RecordNotificationOnly
    } else if quote_month_start > 0 && quote_month_start != paid_month_start && order_pending {
        RechargePaymentAction::ExpireForMonthMismatch
    } else {
        RechargePaymentAction::MarkPaid { start_month: if quote_month_start > 0 { quote_month_start } else { paid_month_start } }
    }
}

/// What a payment notification does to an order.
pub fn recharge_payment_action(order_closed: bool, order_pending: bool, quote_month_start: i64, paid_month_start: i64) -> (r: RechargePaymentAction)
    ensures
        r == payment_action_spec(order_closed, order_pending, quote_month_start, paid_month_start),
{
    if order_closed {
        RechargePaymentAction::RecordNotificationOnly
    } else if quote_month_start > 0 && quote_month_start != paid_month_start && order_pending {
        RechargePaymentAction::ExpireForMonthMismatch
    } else {
        RechargePaymentAction::MarkPaid { start_month: if quote_month_start > 0 { quote_month_start } else { paid_month_start } }
    }
}

/// The monthly quota added in each month of a paid order: the quoted
/// schedule's figure for that month where it has one, else the order's final
/// monthly figure.
pub open spec fn monthly_deltas_spec(months: int, schedule: Seq<i64>, final_monthly_delta: i64) -> Seq<i64> {
    Seq::new(if months > 0 { months as nat } else { 0 }, |i: int| if i < schedule.len() { schedule[i] } else { final_monthly_delta })
}

/// The monthly quota added in each month of a paid order.
pub fn recharge_entitlement_monthly_deltas(months: i64, schedule: &Vec<i64>, final_monthly_delta: i64) -> (r: Vec<i64>)
    requires
        months <= usize::MAX,
    ensures
        r@ == monthly_deltas_spec(months as int, schedule@, final_monthly_delta),
{
    let n: usize = if months > 0 { months as usize } else { 0 };
    let mut r: Vec<i64> = Vec::new();
    let mut i: usize = 0;
    while i < n
        invariant
            i <= n,
            n == (if months > 0 { months as int } else { 0 }),
            r@ == monthly_deltas_spec(i as int, schedule@, final_monthly_delta),
        decreases n - i,
    {
        let v = if i < schedule.len() { schedule[i] } else { final_monthly_delta };
        r.push(v);
        i = i + 1;
        assert(r@ =~= monthly_deltas_spec(i as int, schedule@, final_monthly_delta));
    }
    r
}

/// A paid order never starts before a positive quote month it carries.
pub proof fn lemma_paid_orders_keep_their_quote_month(closed: bool, pending: bool, quote: i64, paid: i64)
    requires
        quote > 0,
        payment_action_spec(closed, pending, quote, paid) is MarkPaid,
    ensures
        payment_action_spec(closed, pending, quote, paid) == (RechargePaymentAction::MarkPaid { start_month: quote }),
{
}

/// A payment made in the month an open order was quoted for marks the order
/// paid from that month, and one for an order without a quote month marks it
/// paid from the payment's month; an order expires for a month mismatch
/// exactly when it is open, still pending, carries a quote month and was paid
/// in another month; a closed order only records the notification.
pub proof fn lemma_payment_in_quoted_month_marks_paid(closed: bool, pending: bool, quote: i64, paid: i64)
    ensures
        (!closed && quote > 0 && quote == paid) ==> payment_action_spec(closed, pending, quote, paid)
            == (RechargePaymentAction::MarkPaid { start_month: quote }),
        (!closed && quote <= 0) ==> payment_action_spec(closed, pending, quote, paid)
            == (RechargePaymentAction::MarkPaid { start_month: paid }),
        payment_action_spec(closed, pending, quote, paid) is ExpireForMonthMismatch
            <==> (!closed && pending && quote > 0 && quote != paid),
        payment_action_spec(closed, pending, quote, paid) is RecordNotificationOnly <==> closed,
{
}

/// Whether an order's refund may be reserved: only a paid order with a
/// trade number that is not blank once trimmed; else the error names why.
pub open spec fn refund_reservation_spec(order_paid: bool, status: Seq<char>, trade_no: Option<Seq<char>>) -> Result<(), Seq<char>> {
    if !order_paid {
        Err("recharge order is not refundable from status "@ + status)
    } else if match trade_no { Some(t) => trim(t).len() == 0, None => true } {
        Err("recharge order has no trade number"@)
    } else {
        Ok(())
    }
}

/// Checks that an order's refund may be reserved; `order_paid` tells
/// whether `status` is the paid status.
pub fn recharge_refund_reservation_check(order_paid: bool, status: &str, trade_no: Option<&str>) -> (r: Result<(), ProxyError>)
    ensures
        match refund_reservation_spec(order_paid, status@, match trade_no { Some(t) => Some(t@), None => None }) {
            Ok(()) => r is Ok,
            Err(msg) => r matches Err(ProxyError::Other(m)) && m@ == msg,
        },
{
    if !order_paid {
        return Err(ProxyError::Other(concat2("recharge order is not refundable from status ", status)));
    }
    let blank = match trade_no {
        Some(t) => trim_string(t).as_str().unicode_len() == 0,
        None => true,
    };
    if blank {
        return Err(ProxyError::Other(owned("recharge order has no trade number")));
    }
    Ok(())
}

/// Checks that a refund is finalized only on an order whose refund was
/// reserved; `order_refunding` tells whether `status` is the refunding status.
pub fn recharge_refund_finalize_check(order_refunding: bool, status: &str) -> (r: Result<(), ProxyError>)
    ensures
        order_refunding <==> r is Ok,
        !order_refunding ==> (r matches Err(ProxyError::Other(m)) && m@ == "recharge order refund is not reserved from status "@ + status@),
{
    if order_refunding {
        Ok(())
    } else {
        Err(ProxyError::Other(concat2("recharge order refund is not reserved from status ", status)))
    }
}

} // verus!
