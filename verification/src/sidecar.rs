//! Moving the observability tables out of the core database: what a
//! migration run does, given what it finds.

use vstd::prelude::*;
use crate::error::ProxyError;

verus! {

/// Which legacy observability tables the core database still holds.
#[derive(Clone, Copy, Debug, PartialEq, Eq, Structural)]
pub struct LegacyObservabilityTables {
    pub request_logs: bool,
    pub api_key_usage_buckets: bool,
    pub dashboard_request_rollup_buckets: bool,
    pub request_log_catalog_rollups: bool,
}

/// What a migration run does: whether it resumes an interrupted copy,
/// whether there was nothing left to migrate, which legacy tables it copies
/// or drops (resetting the markers of what was derived from them), and
/// whether it checks the references into the request logs.
#[derive(Clone, Copy, Debug, PartialEq, Eq, Structural)]
pub struct SidecarMigrationPlan {
    pub resumed_copy: bool,
    pub already_migrated: bool,
    pub copy_request_logs: bool,
    pub drop_api_key_usage_buckets: bool,
    pub drop_dashboard_request_rollup_buckets: bool,
    pub drop_request_log_catalog_rollups: bool,
    pub check_child_references: bool,
}

/// The plan of a run: a dry run only reports; a real run copies the legacy
/// request logs (and drops them) when there are any, drops each other legacy
/// table, and always checks references.
pub open spec fn sidecar_plan_spec(dry_run: bool, legacy: LegacyObservabilityTables, sidecar_rows_before: i64) -> SidecarMigrationPlan {
    SidecarMigrationPlan {
        resumed_copy: legacy.request_logs && sidecar_rows_before > 0,
        already_migrated: !legacy.request_logs && !legacy.api_key_usage_buckets
            && !legacy.dashboard_request_rollup_buckets && !legacy.request_log_catalog_rollups,
        copy_request_logs: !dry_run && legacy.request_logs,
        drop_api_key_usage_buckets: !dry_run && legacy.api_key_usage_buckets,
        drop_dashboard_request_rollup_buckets: !dry_run && legacy.dashboard_request_rollup_buckets,
        drop_request_log_catalog_rollups: !dry_run && legacy.request_log_catalog_rollups,
        check_child_references: !dry_run,
    }
}

/// The plan of a migration run, or an error for a batch size below one.
pub fn observability_sidecar_migration_plan(
    batch_size: i64,
    dry_run: bool,
    legacy: LegacyObservabilityTables,
    sidecar_rows_before: i64,
) -> (r: Result<SidecarMigrationPlan, ProxyError>)
    ensures
        batch_size <= 0 <==> r is Err,
        r matches Err(ProxyError::Other(m)) ==> m@ == "observability sidecar migration requires batch_size > 0"@,
        r is Err ==> r matches Err(ProxyError::Other(_)),
        r matches Ok(p) ==> p == sidecar_plan_spec(dry_run, legacy, sidecar_rows_before),
{
    if batch_size <= 0 {
        return Err(ProxyError::Other(String::from_str("observability sidecar migration requires batch_size > 0")));
    }
    Ok(SidecarMigrationPlan {
        resumed_copy: legacy.request_logs && sidecar_rows_before > 0,
        already_migrated: !legacy.request_logs && !legacy.api_key_usage_buckets
            && !legacy.dashboard_request_rollup_buckets && !legacy.request_log_catalog_rollups,
        copy_request_logs: !dry_run && legacy.request_logs,
        drop_api_key_usage_buckets: !dry_run && legacy.api_key_usage_buckets,
        drop_dashboard_request_rollup_buckets: !dry_run && legacy.dashboard_request_rollup_buckets,
        drop_request_log_catalog_rollups: !dry_run && legacy.request_log_catalog_rollups,
        check_child_references: !dry_run,
    })
}

/// A dry run changes nothing, and a migrated database has nothing to drop.
pub proof fn lemma_dry_runs_and_migrated_databases_change_nothing(dry_run: bool, legacy: LegacyObservabilityTables, rows: i64)
    ensures
        ({
            let p = sidecar_plan_spec(dry_run, legacy, rows);
            (dry_run || p.already_migrated) ==> !p.copy_request_logs && !p.drop_api_key_usage_buckets
                && !p.drop_dashboard_request_rollup_buckets && !p.drop_request_log_catalog_rollups
        }),
{
}


/// What a run that went through has done: the legacy tables it dropped, the
/// markers it reset with them, and whether the reference checks passed.
#[derive(Clone, Copy, Debug, PartialEq, Eq, Structural)]
pub struct SidecarMigrationOutcome {
    pub dropped_main_request_logs: bool,
    pub dropped_legacy_api_key_usage_buckets: bool,
    pub dropped_legacy_dashboard_request_rollup_buckets: bool,
    pub dropped_legacy_request_log_catalog_rollups: bool,
    pub reset_api_key_usage_buckets_meta: bool,
    pub reset_dashboard_request_rollup_buckets_meta: bool,
    pub reset_request_log_catalog_rollup_meta: bool,
    pub child_reference_checks_passed: bool,
}

/// What a run that carried out its plan reports: each legacy table it was
/// to copy or drop is dropped, the markers derived from a dropped table are
/// reset with it, and the references were checked when the plan said so
/// (a run whose checks fail stops with an error instead).
pub open spec fn sidecar_outcome_spec(plan: SidecarMigrationPlan) -> SidecarMigrationOutcome {
    SidecarMigrationOutcome {
        dropped_main_request_logs: plan.copy_request_logs,
        dropped_legacy_api_key_usage_buckets: plan.drop_api_key_usage_buckets,
        dropped_legacy_dashboard_request_rollup_buckets: plan.drop_dashboard_request_rollup_buckets,
        dropped_legacy_request_log_catalog_rollups: plan.drop_request_log_catalog_rollups,
        reset_api_key_usage_buckets_meta: plan.drop_api_key_usage_buckets,
        reset_dashboard_request_rollup_buckets_meta: plan.drop_dashboard_request_rollup_buckets,
        reset_request_log_catalog_rollup_meta: plan.drop_request_log_catalog_rollups,
        child_reference_checks_passed: plan.check_child_references,
    }
}

/// What a run that carried out `plan` reports.
pub fn sidecar_migration_outcome(plan: &SidecarMigrationPlan) -> (r: SidecarMigrationOutcome)
    ensures
        r == sidecar_outcome_spec(*plan),
{
    SidecarMigrationOutcome {
        dropped_main_request_logs: plan.copy_request_logs,
        dropped_legacy_api_key_usage_buckets: plan.drop_api_key_usage_buckets,
        dropped_legacy_dashboard_request_rollup_buckets: plan.drop_dashboard_request_rollup_buckets,
        dropped_legacy_request_log_catalog_rollups: plan.drop_request_log_catalog_rollups,
        reset_api_key_usage_buckets_meta: plan.drop_api_key_usage_buckets,
        reset_dashboard_request_rollup_buckets_meta: plan.drop_dashboard_request_rollup_buckets,
        reset_request_log_catalog_rollup_meta: plan.drop_request_log_catalog_rollups,
        child_reference_checks_passed: plan.check_child_references,
    }
}

/// Whether a run completed the migration: a real run whose reference checks
/// passed and that dropped every legacy table the core database held.
pub open spec fn sidecar_completed_spec(dry_run: bool, legacy: LegacyObservabilityTables, outcome: SidecarMigrationOutcome) -> bool {
    &&& !dry_run
    &&& outcome.child_reference_checks_passed
    &&& (!legacy.request_logs || outcome.dropped_main_request_logs)
    &&& (!legacy.api_key_usage_buckets || outcome.dropped_legacy_api_key_usage_buckets)
    &&& (!legacy.dashboard_request_rollup_buckets || outcome.dropped_legacy_dashboard_request_rollup_buckets)
    &&& (!legacy.request_log_catalog_rollups || outcome.dropped_legacy_request_log_catalog_rollups)
}

/// Whether a run completed the migration.
pub fn sidecar_migration_completed(dry_run: bool, legacy: LegacyObservabilityTables, outcome: &SidecarMigrationOutcome) -> (r: bool)
    ensures
        r == sidecar_completed_spec(dry_run, legacy, *outcome),
{
    !dry_run && outcome.child_reference_checks_passed
        && (!legacy.request_logs || outcome.dropped_main_request_logs)
        && (!legacy.api_key_usage_buckets || outcome.dropped_legacy_api_key_usage_buckets)
        && (!legacy.dashboard_request_rollup_buckets || outcome.dropped_legacy_dashboard_request_rollup_buckets)
        && (!legacy.request_log_catalog_rollups || outcome.dropped_legacy_request_log_catalog_rollups)
}

/// The observability database a run reports as attached: for a dry run the
/// one the core would attach by default, else the planned sidecar; for a
/// real run the one the migration store attached, else the core itself.
pub fn sidecar_attached_observability_path(
    dry_run: bool,
    attached_default: Option<String>,
    sidecar_path: String,
    store_attached: Option<String>,
    core_path: String,
) -> (r: String)
    ensures
        r@ == (if dry_run {
            match attached_default { Some(p) => p@, None => sidecar_path@ }
        } else {
            match store_attached { Some(p) => p@, None => core_path@ }
        }),
{
    if dry_run {
        match attached_default { Some(p) => p, None => sidecar_path }
    } else {
        match store_attached { Some(p) => p, None => core_path }
    }
}

/// A real run that carries out its plan completes the migration; a dry run
/// never does.
pub proof fn lemma_carried_out_plans_complete(dry_run: bool, legacy: LegacyObservabilityTables, rows: i64)
    ensures
        sidecar_completed_spec(dry_run, legacy, sidecar_outcome_spec(sidecar_plan_spec(dry_run, legacy, rows))) == !dry_run,
{
}

} // verus!
