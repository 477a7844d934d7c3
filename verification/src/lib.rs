//! Verified core logic of the key store: alert grouping, SQL fragment
//! builders, HA sync helpers, scheduled job priorities, and metric arithmetic.

pub mod text;
pub mod error;
pub mod num;
pub mod clock;
pub mod sort;
pub mod alerts;
pub mod ha;
pub mod ha_json;
pub mod ha_counters;
pub mod ha_apply;
pub mod ha_lines;
pub mod ha_rows;
pub mod ha_events;
pub mod store;
pub mod sql;
pub mod metrics;
pub mod migration;
pub mod sqlite;
pub mod paths;
pub mod coalescer;
pub mod announcements;
pub mod reconciliation;
pub mod gc;
pub mod gc_runs;
pub mod recharge;
pub mod entitlements;
pub mod recharge_admin;
pub mod quota_charge;
pub mod sidecar;
pub mod flush;
pub mod rollups;
