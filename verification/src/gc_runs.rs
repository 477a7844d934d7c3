//! Bounded garbage-collection runs: after each batch, what was deleted is
//! counted and the run decides whether to go on.

use vstd::prelude::*;
use crate::metrics::fits;

verus! {

/// What one channel's HA outbox collection has deleted so far: events the
/// channel no longer accepts, events past retention, both together, and
/// the batches run.
#[derive(Clone, Copy, Debug)]
pub struct HaOutboxGcChannelProgress {
    pub invalid_legacy_deleted_rows: i64,
    pub retention_deleted_rows: i64,
    pub deleted_rows: i64,
    pub batches: i64,
}

/// Whether the total is the sum of its two parts.
pub open spec fn outbox_progress_ok(p: HaOutboxGcChannelProgress) -> bool {
    p.deleted_rows == p.invalid_legacy_deleted_rows + p.retention_deleted_rows
}

/// What an outbox collection does after a batch.
#[derive(PartialEq, Eq, Structural, Clone, Copy, Debug)]
pub enum HaOutboxGcNext {
    /// Run the next batch at once.
    NextBatch,
    /// Delete a batch of events past retention now.
    DeleteExpired,
    /// The run is cut short here: pause, then run the next batch.
    PauseThenNextBatch,
    /// This channel is done.
    ChannelDone,
}

impl HaOutboxGcChannelProgress {
    /// A channel with nothing deleted yet.
    pub fn new() -> (r: HaOutboxGcChannelProgress)
        ensures
            r.invalid_legacy_deleted_rows == 0 && r.retention_deleted_rows == 0 && r.deleted_rows == 0 && r.batches == 0,
    {
        HaOutboxGcChannelProgress { invalid_legacy_deleted_rows: 0, retention_deleted_rows: 0, deleted_rows: 0, batches: 0 }
    }

    /// Counts a batch of invalid legacy events deleted (one batch run): a
    /// short non-empty batch runs another at once; a full one cuts the run
    /// short; an empty one moves on to the events past retention.
    pub fn after_invalid_batch(&mut self, deleted: i64, batch_size: i64) -> (r: HaOutboxGcNext)
        requires
            fits(old(self).invalid_legacy_deleted_rows + deleted),
            fits(old(self).deleted_rows + deleted),
            old(self).batches < i64::MAX,
        ensures
            final(self).invalid_legacy_deleted_rows == old(self).invalid_legacy_deleted_rows + deleted,
            final(self).deleted_rows == old(self).deleted_rows + deleted,
            final(self).retention_deleted_rows == old(self).retention_deleted_rows,
            final(self).batches == old(self).batches + 1,
            outbox_progress_ok(*old(self)) ==> outbox_progress_ok(*final(self)),
            r == (if deleted > 0 {
                if deleted < batch_size { HaOutboxGcNext::NextBatch } else { HaOutboxGcNext::PauseThenNextBatch }
            } else {
                HaOutboxGcNext::DeleteExpired
            }),
    {
        self.invalid_legacy_deleted_rows = self.invalid_legacy_deleted_rows + deleted;
        self.deleted_rows = self.deleted_rows + deleted;
        self.batches = self.batches + 1;
        if deleted > 0 {
            if deleted < batch_size {
                HaOutboxGcNext::NextBatch
            } else {
                HaOutboxGcNext::PauseThenNextBatch
            }
        } else {
            HaOutboxGcNext::DeleteExpired
        }
    }

    /// Counts a batch of events past retention deleted: a short batch ends
    /// the channel; a full one cuts the run short.
    pub fn after_expired_batch(&mut self, deleted: i64, batch_size: i64) -> (r: HaOutboxGcNext)
        requires
            fits(old(self).retention_deleted_rows + deleted),
            fits(old(self).deleted_rows + deleted),
        ensures
            final(self).retention_deleted_rows == old(self).retention_deleted_rows + deleted,
            final(self).deleted_rows == old(self).deleted_rows + deleted,
            final(self).invalid_legacy_deleted_rows == old(self).invalid_legacy_deleted_rows,
            final(self).batches == old(self).batches,
            outbox_progress_ok(*old(self)) ==> outbox_progress_ok(*final(self)),
            r == (if deleted < batch_size { HaOutboxGcNext::ChannelDone } else { HaOutboxGcNext::PauseThenNextBatch }),
    {
        self.retention_deleted_rows = self.retention_deleted_rows + deleted;
        self.deleted_rows = self.deleted_rows + deleted;
        if deleted < batch_size {
            HaOutboxGcNext::ChannelDone
        } else {
            HaOutboxGcNext::PauseThenNextBatch
        }
    }
}

/// What a request-log collection has done so far: bodies cleared, logs and
/// roll-ups deleted, batches run, and whether the last body batch left
/// bodies to clear.
#[derive(Clone, Copy, Debug)]
pub struct RequestLogsGcProgress {
    pub cleaned_request_log_bodies: i64,
    pub deleted_request_logs: i64,
    pub deleted_rollups: i64,
    pub batches: i64,
    pub body_batch_has_more: bool,
}

impl RequestLogsGcProgress {
    /// A run with nothing done yet.
    pub fn new() -> (r: RequestLogsGcProgress)
        ensures
            r.cleaned_request_log_bodies == 0 && r.deleted_request_logs == 0 && r.deleted_rollups == 0
                && r.batches == 0 && !r.body_batch_has_more,
    {
        RequestLogsGcProgress {
            cleaned_request_log_bodies: 0,
            deleted_request_logs: 0,
            deleted_rollups: 0,
            batches: 0,
            body_batch_has_more: false,
        }
    }

    /// Counts one batch (bodies cleared, logs and roll-ups deleted); returns
    /// whether to go on: a batch that found nothing to do, with no bodies
    /// left, ends the run.
    pub fn after_batch(&mut self, bodies_cleaned: i64, bodies_have_more: bool, logs_deleted: i64, rollups_deleted: i64) -> (go_on: bool)
        requires
            fits(old(self).cleaned_request_log_bodies + bodies_cleaned),
            fits(old(self).deleted_request_logs + logs_deleted),
            fits(old(self).deleted_rollups + rollups_deleted),
            old(self).batches < i64::MAX,
        ensures
            final(self).cleaned_request_log_bodies == old(self).cleaned_request_log_bodies + bodies_cleaned,
            final(self).deleted_request_logs == old(self).deleted_request_logs + logs_deleted,
            final(self).deleted_rollups == old(self).deleted_rollups + rollups_deleted,
            final(self).batches == old(self).batches + 1,
            final(self).body_batch_has_more == bodies_have_more,
            go_on == (bodies_have_more || bodies_cleaned != 0 || logs_deleted != 0 || rollups_deleted != 0),
    {
        self.body_batch_has_more = bodies_have_more;
        self.cleaned_request_log_bodies = self.cleaned_request_log_bodies + bodies_cleaned;
        self.deleted_request_logs = self.deleted_request_logs + logs_deleted;
        self.deleted_rollups = self.deleted_rollups + rollups_deleted;
        self.batches = self.batches + 1;
        !(!bodies_have_more && bodies_cleaned == 0 && logs_deleted == 0 && rollups_deleted == 0)
    }
}

} // verus!
