use vstd::prelude::*;

use crate::batch::{
    abandon, batch_wf, callbacks, exhaust, fresh_batch, report_step, resolve_step, row_events, row_step,
    tag_items, BatchAction, BatchOutcome, BatchPhase, BatchView, DecodedItem, EventView,
};
use crate::notifier::{combine, DeliveryStatus, NotifierView};
use crate::streamer::{loop_step, LoopAction, LoopEvent, LoopState, StreamerView};

verus! {

/// One row handed to a batch: its size, the decoder's result, and the time it was handled.
pub ghost struct RowInput {
    pub len: nat,
    pub decoded: Option<Seq<DecodedItem>>,
    pub now: i64,
}

/// The batch after handling `rows` in order.
pub open spec fn run_rows(v: BatchView, rows: Seq<RowInput>) -> BatchView
    decreases rows.len(),
{
    if rows.len() == 0 {
        v
    } else {
        let r = rows.last();
        row_step(run_rows(v, rows.drop_last()), r.len, r.decoded, r.now)
    }
}

/// A row that decodes to exactly one log record.
pub open spec fn well_formed(r: RowInput) -> bool {
    &&& r.decoded is Some
    &&& r.decoded->Some_0.len() == 1
    &&& r.decoded->Some_0[0] is Log
}

/// Number of well-formed rows.
pub open spec fn count_well_formed(rows: Seq<RowInput>) -> nat
    decreases rows.len(),
{
    if rows.len() == 0 {
        0
    } else {
        count_well_formed(rows.drop_last()) + if well_formed(rows.last()) { 1nat } else { 0nat }
    }
}

proof fn lemma_single_log_yields_one(items: Seq<DecodedItem>, batch: Option<u64>, stamp: i64)
    requires
        items.len() == 1,
        items[0] is Log,
    ensures
        tag_items(items, batch, stamp).len() == 1,
{
    assert(items.subrange(1, 1) =~= Seq::<DecodedItem>::empty());
    assert(tag_items(items.subrange(1, 1), batch, stamp) == Seq::<EventView>::empty());
}

/// Handling rows never changes a batch's phase or delivery status, and with
/// acknowledgements on attaches to its notifier exactly the events it forwards.
pub proof fn lemma_rows_keep_status(v: BatchView, rows: Seq<RowInput>)
    ensures
        run_rows(v, rows).phase == v.phase,
        run_rows(v, rows).acknowledge == v.acknowledge,
        run_rows(v, rows).batch_id == v.batch_id,
        run_rows(v, rows).notifier.status == v.notifier.status,
        run_rows(v, rows).notifier.released == v.notifier.released,
        run_rows(v, rows).emitted >= v.emitted,
        v.acknowledge ==> run_rows(v, rows).notifier.pending == v.notifier.pending + (run_rows(v, rows).emitted - v.emitted),
        !v.acknowledge ==> run_rows(v, rows).notifier.pending == v.notifier.pending,
    decreases rows.len(),
{
    if rows.len() > 0 {
        lemma_rows_keep_status(v, rows.drop_last());
    }
}

/// Rows that the decoder refuses never fail the batch: with well-formed rows and
/// refused rows interleaved in any order, exactly one event is forwarded per
/// well-formed row and none per refused row.
pub proof fn lemma_malformed_rows_are_skipped(v: BatchView, rows: Seq<RowInput>)
    requires
        forall|i: int| 0 <= i < rows.len() ==> well_formed(#[trigger] rows[i]) || rows[i].decoded is None,
    ensures
        run_rows(v, rows).emitted == v.emitted + count_well_formed(rows),
        count_well_formed(rows) <= rows.len(),
    decreases rows.len(),
{
    if rows.len() > 0 {
        let init = rows.drop_last();
        assert forall|i: int| 0 <= i < init.len() implies well_formed(#[trigger] init[i]) || init[i].decoded is None by {
            assert(init[i] == rows[i]);
        }
        lemma_malformed_rows_are_skipped(v, init);
        let r = rows.last();
        assert(r == rows[rows.len() - 1]);
        let w = run_rows(v, init);
        if well_formed(r) {
            lemma_single_log_yields_one(r.decoded->Some_0, crate::batch::batch_tag(w), r.now);
        }
    }
}

/// The batch after `k` reports `Delivered` addressed to it.
pub open spec fn deliver_n(v: BatchView, k: nat) -> BatchView
    decreases k,
{
    if k == 0 {
        v
    } else {
        report_step(deliver_n(v, (k - 1) as nat), v.batch_id, DeliveryStatus::Delivered).0
    }
}

proof fn lemma_deliveries_keep_waiting(v: BatchView, k: nat)
    requires
        v.phase == BatchPhase::AwaitingStatus,
        v.acknowledge,
        v.notifier.released,
        v.notifier.status == DeliveryStatus::Delivered,
        k < v.notifier.pending,
    ensures
        deliver_n(v, k) == (BatchView {
            notifier: NotifierView { pending: (v.notifier.pending - k) as nat, ..v.notifier },
            ..v
        }),
    decreases k,
{
    if k > 0 {
        lemma_deliveries_keep_waiting(v, (k - 1) as nat);
    }
}

/// What "the callback runs exactly once, at the last of `n` reports `Delivered`"
/// means for `e`, the batch and action right after its rows ran out.
pub open spec fn completes_once_delivered(e: (BatchView, BatchAction), n: nat) -> bool {
    &&& n == 0 ==> e.1 == BatchAction::RunCallback && callbacks(e.0) == 1
    &&& n > 0 ==> {
        &&& e.1 == BatchAction::Continue
        &&& callbacks(e.0) == 0
        &&& forall|k: nat| k + 1 < n ==> {
            &&& (#[trigger] report_step(deliver_n(e.0, k), e.0.batch_id, DeliveryStatus::Delivered)).1
                == BatchAction::Continue
            &&& callbacks(report_step(deliver_n(e.0, k), e.0.batch_id, DeliveryStatus::Delivered).0) == 0
        }
        &&& report_step(deliver_n(e.0, (n - 1) as nat), e.0.batch_id, DeliveryStatus::Delivered).1
            == BatchAction::RunCallback
        &&& callbacks(deliver_n(e.0, n)) == 1
    }
}

/// With acknowledgements, a batch of any rows whose forwarded events are all
/// reported `Delivered` asks for its completion callback exactly once: at the
/// last report, or when its rows run out if it forwarded no event; every
/// earlier step asks for nothing.
pub proof fn lemma_acknowledged_batch_completes_when_delivered(batch_id: u64, rows: Seq<RowInput>)
    ensures
        run_rows(fresh_batch(batch_id, true), rows).notifier.pending == run_rows(fresh_batch(batch_id, true), rows).emitted,
        completes_once_delivered(
            exhaust(run_rows(fresh_batch(batch_id, true), rows)),
            run_rows(fresh_batch(batch_id, true), rows).emitted,
        ),
{
    let f = fresh_batch(batch_id, true);
    lemma_rows_keep_status(f, rows);
    let v = run_rows(f, rows);
    let e = exhaust(v);
    let n = v.emitted;
    if n > 0 {
        assert forall|k: nat| k + 1 < n implies {
            &&& (#[trigger] report_step(deliver_n(e.0, k), e.0.batch_id, DeliveryStatus::Delivered)).1
                == BatchAction::Continue
            &&& callbacks(report_step(deliver_n(e.0, k), e.0.batch_id, DeliveryStatus::Delivered).0) == 0
        } by {
            lemma_deliveries_keep_waiting(e.0, k);
        }
        lemma_deliveries_keep_waiting(e.0, (n - 1) as nat);
    }
}

/// With acknowledgements, a batch of well-formed and refused rows interleaved in
/// any order forwards one event per well-formed row, and once each of them is
/// reported `Delivered` asks for its completion callback exactly once.
pub proof fn lemma_mixed_batch_completes_when_delivered(batch_id: u64, rows: Seq<RowInput>)
    requires
        forall|i: int| 0 <= i < rows.len() ==> well_formed(#[trigger] rows[i]) || rows[i].decoded is None,
    ensures
        run_rows(fresh_batch(batch_id, true), rows).emitted == count_well_formed(rows),
        completes_once_delivered(exhaust(run_rows(fresh_batch(batch_id, true), rows)), count_well_formed(rows)),
{
    lemma_malformed_rows_are_skipped(fresh_batch(batch_id, true), rows);
    lemma_acknowledged_batch_completes_when_delivered(batch_id, rows);
}

/// A finished batch is final: a report, the only step it still takes, changes
/// nothing and asks for nothing. So a batch asks for its callback at most once.
pub proof fn lemma_finished_batch_is_final(v: BatchView, id: u64, s: DeliveryStatus)
    requires
        v.phase is Finished,
    ensures
        report_step(v, id, s) == (v, BatchAction::Continue),
        callbacks(report_step(v, id, s).0) == callbacks(v),
{
}

/// Without acknowledgements, a batch of any rows asks for its completion callback
/// exactly once, as soon as its rows run out, and whatever is reported later
/// changes nothing.
pub proof fn lemma_unacknowledged_batch_completes(batch_id: u64, rows: Seq<RowInput>, id: u64, s: DeliveryStatus)
    ensures
        exhaust(run_rows(fresh_batch(batch_id, false), rows)).1 == BatchAction::RunCallback,
        callbacks(exhaust(run_rows(fresh_batch(batch_id, false), rows)).0) == 1,
        report_step(exhaust(run_rows(fresh_batch(batch_id, false), rows)).0, id, s)
            == (exhaust(run_rows(fresh_batch(batch_id, false), rows)).0, BatchAction::Continue),
{
    lemma_rows_keep_status(fresh_batch(batch_id, false), rows);
}

/// The batch after each of `reports` in turn, all addressed to it.
pub open spec fn report_all(v: BatchView, reports: Seq<DeliveryStatus>) -> BatchView
    decreases reports.len(),
{
    if reports.len() == 0 {
        v
    } else {
        report_step(report_all(v, reports.drop_last()), v.batch_id, reports.last()).0
    }
}

proof fn lemma_failed_reports_invariant(v: BatchView, reports: Seq<DeliveryStatus>)
    requires
        batch_wf(v),
        v.acknowledge,
        v.phase == BatchPhase::AwaitingStatus,
        forall|i: int| 0 <= i < reports.len() ==> #[trigger] reports[i] != DeliveryStatus::Delivered,
    ensures
        ({
            let w = report_all(v, reports);
            &&& w.batch_id == v.batch_id
            &&& w.acknowledge
            &&& w.notifier.released
            &&& w.phase == BatchPhase::AwaitingStatus ==> w.notifier.pending > 0
            &&& w.phase == BatchPhase::AwaitingStatus || w.phase is Finished
            &&& w.phase is Finished ==> w.phase != BatchPhase::Finished(BatchOutcome::Completed)
            &&& reports.len() > 0 ==> w.notifier.status != DeliveryStatus::Delivered
        }),
    decreases reports.len(),
{
    if reports.len() > 0 {
        let init = reports.drop_last();
        assert forall|i: int| 0 <= i < init.len() implies #[trigger] init[i] != DeliveryStatus::Delivered by {
            assert(init[i] == reports[i]);
        }
        lemma_failed_reports_invariant(v, init);
        assert(reports.last() == reports[reports.len() - 1]);
    }
}

/// With acknowledgements, once a batch's rows have run out and its events are
/// reported `Errored` or `Rejected`, no report asks for its completion callback.
pub proof fn lemma_failed_reports_never_complete(v: BatchView, reports: Seq<DeliveryStatus>)
    requires
        batch_wf(v),
        v.acknowledge,
        v.phase == BatchPhase::AwaitingStatus,
        forall|i: int| 0 <= i < reports.len() ==> #[trigger] reports[i] != DeliveryStatus::Delivered,
    ensures
        forall|k: int| 0 <= k < reports.len() ==>
            (#[trigger] report_step(report_all(v, reports.take(k)), v.batch_id, reports[k])).1 != BatchAction::RunCallback,
        callbacks(report_all(v, reports)) == 0,
{
    lemma_failed_reports_invariant(v, reports);
    assert forall|k: int| 0 <= k < reports.len() implies
        (#[trigger] report_step(report_all(v, reports.take(k)), v.batch_id, reports[k])).1 != BatchAction::RunCallback by {
        let p = reports.take(k);
        assert forall|i: int| 0 <= i < p.len() implies #[trigger] p[i] != DeliveryStatus::Delivered by {
            assert(p[i] == reports[i]);
        }
        lemma_failed_reports_invariant(v, p);
    }
}

/// Without shutdown, a batch that arrives and finishes, whatever its outcome,
/// brings the loop back to exactly where it was, ready for the next one; the end
/// of the upstream then stops it.
pub proof fn lemma_loop_takes_every_batch(s: StreamerView)
    requires
        s.state == LoopState::AwaitingNextBatch,
        !s.shutdown_seen,
    ensures
        loop_step(s, LoopEvent::BatchArrived).1 == LoopAction::ProcessBatch,
        loop_step(loop_step(s, LoopEvent::BatchArrived).0, LoopEvent::BatchFinished) == (s, LoopAction::PullNext),
        loop_step(s, LoopEvent::UpstreamEnded).1 == LoopAction::Stop,
{
}

/// Every event of a row is stamped with the time the row was handled, which
/// becomes the batch's latest; so as long as the clock does not go back, stamps
/// never decrease within a batch.
pub proof fn lemma_stamps_follow_clock(v: BatchView, len: nat, decoded: Option<Seq<DecodedItem>>, now: i64)
    ensures
        row_step(v, len, decoded, now).last_stamp == now,
        forall|i: int| 0 <= i < row_events(v, decoded, now).len() ==>
            (#[trigger] row_events(v, decoded, now)[i]).ingest_timestamp == now,
        now >= v.last_stamp ==> forall|i: int| 0 <= i < row_events(v, decoded, now).len() ==>
            (#[trigger] row_events(v, decoded, now)[i]).ingest_timestamp >= v.last_stamp,
{
    if let Some(items) = decoded {
        lemma_tagged_stamps(items, crate::batch::batch_tag(v), now);
    }
}

proof fn lemma_tagged_stamps(items: Seq<DecodedItem>, batch: Option<u64>, stamp: i64)
    ensures
        forall|i: int| 0 <= i < tag_items(items, batch, stamp).len() ==>
            (#[trigger] tag_items(items, batch, stamp)[i]).ingest_timestamp == stamp
                && tag_items(items, batch, stamp)[i].batch == batch,
    decreases items.len(),
{
    if items.len() > 0 {
        lemma_tagged_stamps(items.subrange(1, items.len() as int), batch, stamp);
    }
}

/// With acknowledgements, a batch whose status comes to `Delivered` asks for its
/// completion callback exactly once: when its rows run out if every event was
/// already reported, or at the last report otherwise.
pub proof fn lemma_delivered_batch_runs_callback(v: BatchView, s: DeliveryStatus)
    requires
        batch_wf(v),
        v.acknowledge,
    ensures
        v.phase == BatchPhase::Streaming && v.notifier.pending == 0 && v.notifier.status == DeliveryStatus::Delivered
            ==> exhaust(v).1 == BatchAction::RunCallback && callbacks(exhaust(v).0) == 1,
        v.phase == BatchPhase::AwaitingStatus && v.notifier.pending == 1
            && combine(v.notifier.status, s) == DeliveryStatus::Delivered
            ==> resolve_step(v, s).1 == BatchAction::RunCallback && callbacks(resolve_step(v, s).0) == 1,
{
}

/// With acknowledgements, once any event is reported `Errored` or `Rejected` the
/// batch's status can never become `Delivered` again, and no step asks for the
/// completion callback.
pub proof fn lemma_failed_batch_skips_callback(v: BatchView, s: DeliveryStatus)
    requires
        batch_wf(v),
        v.acknowledge,
        v.notifier.status != DeliveryStatus::Delivered || s != DeliveryStatus::Delivered,
    ensures
        combine(v.notifier.status, s) != DeliveryStatus::Delivered,
        v.phase == BatchPhase::Streaming && v.notifier.status != DeliveryStatus::Delivered
            ==> exhaust(v).1 != BatchAction::RunCallback && callbacks(exhaust(v).0) == 0,
        v.phase == BatchPhase::AwaitingStatus ==> resolve_step(v, s).1 != BatchAction::RunCallback
            && callbacks(resolve_step(v, s).0) == 0,
{
}

/// When the output refuses the stream, after any rows, the batch ends without
/// its completion callback and no later report changes that; the loop goes on
/// to the next batch unless shutdown already fired.
pub proof fn lemma_refused_stream_abandons_batch(
    batch_id: u64,
    acknowledge: bool,
    rows: Seq<RowInput>,
    unsent: u64,
    id: u64,
    st: DeliveryStatus,
    s: StreamerView,
)
    requires
        s.state == LoopState::ProcessingBatch,
        !s.shutdown_seen,
    ensures
        callbacks(abandon(run_rows(fresh_batch(batch_id, acknowledge), rows), unsent)) == 0,
        abandon(run_rows(fresh_batch(batch_id, acknowledge), rows), unsent).phase
            == BatchPhase::Finished(BatchOutcome::Abandoned(unsent)),
        report_step(abandon(run_rows(fresh_batch(batch_id, acknowledge), rows), unsent), id, st)
            == (abandon(run_rows(fresh_batch(batch_id, acknowledge), rows), unsent), BatchAction::Continue),
        loop_step(s, LoopEvent::BatchFinished).0.state == LoopState::AwaitingNextBatch,
        loop_step(s, LoopEvent::BatchFinished).1 == LoopAction::PullNext,
{
}

/// Shutdown between batches ends the loop at once, and a finished loop takes no
/// further batch, whatever it observes.
pub proof fn lemma_shutdown_between_batches(s: StreamerView, e: LoopEvent)
    requires
        s.state == LoopState::AwaitingNextBatch,
    ensures
        loop_step(s, LoopEvent::ShutdownFired).0.state == LoopState::Terminated,
        loop_step(s, LoopEvent::ShutdownFired).1 == LoopAction::Stop,
        loop_step(loop_step(s, LoopEvent::ShutdownFired).0, e).0.state == LoopState::Terminated,
        loop_step(loop_step(s, LoopEvent::ShutdownFired).0, e).1 == LoopAction::Stop,
{
}

/// Shutdown during a batch lets that batch run to its end; the loop stops right after it.
pub proof fn lemma_shutdown_during_batch(s: StreamerView)
    requires
        s.state == LoopState::ProcessingBatch,
    ensures
        loop_step(s, LoopEvent::ShutdownFired).0.state == LoopState::ProcessingBatch,
        loop_step(s, LoopEvent::ShutdownFired).1 == LoopAction::Proceed,
        loop_step(loop_step(s, LoopEvent::ShutdownFired).0, LoopEvent::BatchFinished).0.state == LoopState::Terminated,
        loop_step(loop_step(s, LoopEvent::ShutdownFired).0, LoopEvent::BatchFinished).1 == LoopAction::Stop,
{
}

/// A batch with no rows finishes as soon as its rows run out: with acknowledgements
/// on, having no event it counts as vacuously delivered; either way its completion
/// callback is asked for exactly once.
pub proof fn lemma_empty_batch_completes(batch_id: u64, acknowledge: bool)
    ensures
        run_rows(fresh_batch(batch_id, acknowledge), seq![]) == fresh_batch(batch_id, acknowledge),
        exhaust(fresh_batch(batch_id, acknowledge)).1 == BatchAction::RunCallback,
        exhaust(fresh_batch(batch_id, acknowledge)).0.phase == BatchPhase::Finished(BatchOutcome::Completed),
        callbacks(exhaust(fresh_batch(batch_id, acknowledge)).0) == 1,
{
}

} // verus!
