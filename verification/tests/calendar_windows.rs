use key_store::alerts::semantic::{local_day_window_bounds, local_hour_window_bounds, utc_month_window_bounds};
use key_store::clock::{CHRONO_MAX_TIMESTAMP, CHRONO_MIN_TIMESTAMP};
use key_store::recharge::legacy_recharge_quote_month_start;

#[test]
fn hour_window_exists_exactly_within_chrono_range() {
    assert_eq!(local_hour_window_bounds(1_700_000_000), Some((1_700_000_000 - 3540, 1_700_000_000)));
    assert_eq!(local_hour_window_bounds(CHRONO_MAX_TIMESTAMP), Some((CHRONO_MAX_TIMESTAMP - 3540, CHRONO_MAX_TIMESTAMP)));
    assert_eq!(local_hour_window_bounds(CHRONO_MAX_TIMESTAMP + 1), None);
    assert_eq!(local_hour_window_bounds(CHRONO_MIN_TIMESTAMP), Some((CHRONO_MIN_TIMESTAMP - 3540, CHRONO_MIN_TIMESTAMP)));
    assert_eq!(local_hour_window_bounds(CHRONO_MIN_TIMESTAMP - 1), None);
    assert_eq!(local_hour_window_bounds(i64::MAX), None);
}

#[test]
fn local_day_window_does_not_panic_at_the_range_ends() {
    for ts in [CHRONO_MIN_TIMESTAMP, CHRONO_MAX_TIMESTAMP, i64::MIN, i64::MAX, 0] {
        if let Some((start, end)) = local_day_window_bounds(ts) {
            assert!(ts - 3 * 86_400 < start && start < ts + 2 * 86_400);
            assert!(ts - 2 * 86_400 <= end && end < ts + 3 * 86_400);
        }
    }
    assert!(local_day_window_bounds(1_700_000_000).is_some());
    assert_eq!(utc_month_window_bounds(1_700_000_000), Some((1_698_796_800, 1_701_388_799)));
}

#[test]
fn legacy_quote_month_is_near_its_anchor() {
    let paid = 1_700_000_000;
    let month = legacy_recharge_quote_month_start(10, Some(paid));
    assert!(paid - 33 * 86_400 < month && month < paid + 2 * 86_400);
    let created = legacy_recharge_quote_month_start(paid, None);
    assert_eq!(created, month);
    let _ = legacy_recharge_quote_month_start(i64::MAX, None);
    let _ = legacy_recharge_quote_month_start(0, Some(CHRONO_MAX_TIMESTAMP));
}

#[test]
fn month_window_exists_before_chronos_last_month() {
    let late = CHRONO_MAX_TIMESTAMP - 31 * 86_400;
    let (start, end) = utc_month_window_bounds(late).expect("a month window");
    assert!(start <= late && late <= end);
    assert_eq!(utc_month_window_bounds(CHRONO_MAX_TIMESTAMP), None);
    assert!(utc_month_window_bounds(CHRONO_MIN_TIMESTAMP).is_some());
}
