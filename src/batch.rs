use vstd::prelude::*;

use crate::clock::{current_micros, rfc3339_from_micros, rfc3339_of_micros, MAX_RFC3339_MICROS};
use crate::notifier::{terminal_of, BatchNotifier, DeliveryStatus, NotifierView};

verus! {

/// One structured item that the decoder produced from a row.
pub enum DecodedItem {
    /// A log record, with its encoded message.
    Log(Vec<u8>),
    /// A metric, which this source does not forward.
    Metric,
    /// A trace, which this source does not forward.
    Trace,
}

/// A log event ready to be forwarded downstream.
pub struct DecodedEvent {
    /// The encoded log message.
    pub message: Vec<u8>,
    /// The batch whose delivery status this event counts toward, when acknowledgements are on.
    pub batch: Option<u64>,
    /// Ingest time, in microseconds since the Unix epoch.
    pub ingest_timestamp: i64,
}

/// A forwarded event, as a value.
pub ghost struct EventView {
    pub message: Seq<u8>,
    pub batch: Option<u64>,
    pub ingest_timestamp: i64,
}

impl View for DecodedEvent {
    type V = EventView;

    open spec fn view(&self) -> EventView {
        EventView {
            message: self.message@,
            batch: self.batch,
            ingest_timestamp: self.ingest_timestamp,
        }
    }
}

impl DecodedEvent {
    /// The ingest timestamp as RFC 3339 text; always there for instants from the
    /// epoch to the end of the year 9999, `None` for an instant chrono cannot represent.
    pub fn ingest_timestamp_rfc3339(&self) -> (r: Option<String>)
        ensures
            r matches Some(s) ==> s@ == rfc3339_of_micros(self.ingest_timestamp as int),
            0 <= self.ingest_timestamp <= MAX_RFC3339_MICROS ==> (r is Some),
    {
        rfc3339_from_micros(self.ingest_timestamp)
    }
}

/// The events that a row's items give: each log item in order, tagged and stamped;
/// every other item is dropped.
pub open spec fn tag_items(items: Seq<DecodedItem>, batch: Option<u64>, stamp: i64) -> Seq<EventView>
    decreases items.len(),
{
    if items.len() == 0 {
        seq![]
    } else {
        let rest = tag_items(items.subrange(1, items.len() as int), batch, stamp);
        match items[0] {
            DecodedItem::Log(m) => seq![EventView { message: m@, batch, ingest_timestamp: stamp }] + rest,
            _ => rest,
        }
    }
}

/// Number of items that are not log records.
pub open spec fn invalid_count(items: Seq<DecodedItem>) -> nat
    decreases items.len(),
{
    if items.len() == 0 {
        0
    } else {
        let rest = invalid_count(items.subrange(1, items.len() as int));
        match items[0] {
            DecodedItem::Log(_) => rest,
            _ => rest + 1,
        }
    }
}

/// How a finished batch ended.
#[derive(Clone, Copy, Debug, PartialEq, Eq, Structural)]
pub enum BatchOutcome {
    /// The completion callback was due.
    Completed,
    /// Delivery ended with this status, other than `Delivered`; the callback is skipped.
    Failed(DeliveryStatus),
    /// The output refused the stream, with this many events left unsent.
    Abandoned(u64),
}

/// Where a batch stands.
#[derive(Clone, Copy, Debug, PartialEq, Eq, Structural)]
pub enum BatchPhase {
    /// Rows are being decoded and forwarded.
    Streaming,
    /// All rows are consumed; waiting for the delivery status.
    AwaitingStatus,
    /// Nothing more happens to this batch.
    Finished(BatchOutcome),
}

/// What the driver of a batch does next.
#[derive(Clone, Copy, Debug, PartialEq, Eq, Structural)]
pub enum BatchAction {
    /// Nothing yet: keep forwarding, or keep waiting for delivery reports.
    Continue,
    /// Run the batch's completion callback (this is asked at most once per batch).
    RunCallback,
    /// The batch is over and its completion callback must not run.
    SkipCallback,
}

/// A batch in progress, as a value.
pub ghost struct BatchView {
    pub batch_id: u64,
    pub acknowledge: bool,
    pub phase: BatchPhase,
    pub notifier: NotifierView,
    /// Rows pulled so far (saturating).
    pub rows: u64,
    /// Bytes of the rows pulled so far (saturating).
    pub bytes: u64,
    /// Rows that the decoder refused (saturating).
    pub decode_failures: u64,
    /// Decoded items that were not log records (saturating).
    pub invalid_items: u64,
    /// Events forwarded so far.
    pub emitted: nat,
    /// Time at which the latest row was handled.
    pub last_stamp: i64,
}

/// The state invariant of a batch.
pub open spec fn batch_wf(v: BatchView) -> bool {
    &&& v.notifier.pending <= v.emitted
    &&& v.emitted <= u64::MAX
    &&& !v.acknowledge ==> v.notifier.pending == 0
    &&& v.phase == BatchPhase::Streaming ==> !v.notifier.released
    &&& v.phase == BatchPhase::AwaitingStatus ==> v.acknowledge && v.notifier.released
        && v.notifier.pending > 0
}

/// A fresh batch.
pub open spec fn fresh_batch(batch_id: u64, acknowledge: bool) -> BatchView {
    BatchView {
        batch_id,
        acknowledge,
        phase: BatchPhase::Streaming,
        notifier: NotifierView { pending: 0, status: DeliveryStatus::Delivered, released: false },
        rows: 0,
        bytes: 0,
        decode_failures: 0,
        invalid_items: 0,
        emitted: 0,
        last_stamp: i64::MIN,
    }
}

/// `a + b`, or `u64::MAX` where that overflows.
pub open spec fn sat_add(a: u64, b: nat) -> u64 {
    if a + b > u64::MAX {
        u64::MAX
    } else {
        (a + b) as u64
    }
}

/// The tag that events of this batch carry.
pub open spec fn batch_tag(v: BatchView) -> Option<u64> {
    if v.acknowledge {
        Some(v.batch_id)
    } else {
        None
    }
}

/// The events forwarded for one row.
pub open spec fn row_events(v: BatchView, decoded: Option<Seq<DecodedItem>>, now: i64) -> Seq<EventView> {
    match decoded {
        Some(items) => tag_items(items, batch_tag(v), now),
        None => seq![],
    }
}

/// The batch after one row of `len` bytes, with the decoder's result, at time `now`.
pub open spec fn row_step(v: BatchView, len: nat, decoded: Option<Seq<DecodedItem>>, now: i64) -> BatchView {
    let n = row_events(v, decoded, now).len();
    let base = BatchView {
        rows: sat_add(v.rows, 1),
        bytes: sat_add(v.bytes, len),
        last_stamp: now,
        ..v
    };
    match decoded {
        None => BatchView { decode_failures: sat_add(v.decode_failures, 1), ..base },
        Some(items) => BatchView {
            invalid_items: sat_add(v.invalid_items, invalid_count(items)),
            emitted: v.emitted + n,
            notifier: if v.acknowledge {
                NotifierView { pending: v.notifier.pending + n, ..v.notifier }
            } else {
                v.notifier
            },
            ..base
        },
    }
}

/// The outcome and action that a terminal status calls for.
pub open spec fn gate(s: DeliveryStatus) -> (BatchOutcome, BatchAction) {
    if s == DeliveryStatus::Delivered {
        (BatchOutcome::Completed, BatchAction::RunCallback)
    } else {
        (BatchOutcome::Failed(s), BatchAction::SkipCallback)
    }
}

/// The batch once its rows are exhausted, and what to do.
pub open spec fn exhaust(v: BatchView) -> (BatchView, BatchAction) {
    let rel = BatchView { notifier: NotifierView { released: true, ..v.notifier }, ..v };
    if !v.acknowledge {
        (BatchView { phase: BatchPhase::Finished(BatchOutcome::Completed), ..rel }, BatchAction::RunCallback)
    } else {
        match terminal_of(rel.notifier) {
            Some(s) => (BatchView { phase: BatchPhase::Finished(gate(s).0), ..rel }, gate(s).1),
            None => (BatchView { phase: BatchPhase::AwaitingStatus, ..rel }, BatchAction::Continue),
        }
    }
}

/// The batch once one of its events is reported with `s`, and what to do.
pub open spec fn resolve_step(v: BatchView, s: DeliveryStatus) -> (BatchView, BatchAction) {
    let n = BatchView {
        notifier: NotifierView {
            pending: (v.notifier.pending - 1) as nat,
            status: crate::notifier::combine(v.notifier.status, s),
            released: v.notifier.released,
        },
        ..v
    };
    if v.phase == BatchPhase::AwaitingStatus {
        match terminal_of(n.notifier) {
            Some(t) => (BatchView { phase: BatchPhase::Finished(gate(t).0), ..n }, gate(t).1),
            None => (n, BatchAction::Continue),
        }
    } else {
        (n, BatchAction::Continue)
    }
}

/// The batch once a delivery report for batch `id` comes in: it counts only where
/// it is addressed to this batch, an event of the batch is outstanding and the
/// batch is not finished; otherwise it is ignored.
pub open spec fn report_step(v: BatchView, id: u64, s: DeliveryStatus) -> (BatchView, BatchAction) {
    if id == v.batch_id && v.acknowledge && v.notifier.pending > 0 && !(v.phase is Finished) {
        resolve_step(v, s)
    } else {
        (v, BatchAction::Continue)
    }
}

/// The batch once the output refused its stream with `unsent` events left.
pub open spec fn abandon(v: BatchView, unsent: u64) -> BatchView {
    BatchView { phase: BatchPhase::Finished(BatchOutcome::Abandoned(unsent)), ..v }
}

/// 1 where the batch finished with its completion callback due, else 0. A
/// finished batch never changes again, so this is how many times the batch has
/// asked for its callback.
pub open spec fn callbacks(v: BatchView) -> nat {
    if v.phase == BatchPhase::Finished(BatchOutcome::Completed) {
        1
    } else {
        0
    }
}

/// The decoder's result, as a value.
pub open spec fn items_of(decoded: Option<Vec<DecodedItem>>) -> Option<Seq<DecodedItem>> {
    match decoded {
        Some(v) => Some(v@),
        None => None,
    }
}

/// Decodes, tags and gates one batch.
pub struct BatchRun {
    batch_id: u64,
    acknowledge: bool,
    phase: BatchPhase,
    notifier: BatchNotifier,
    rows: u64,
    bytes: u64,
    decode_failures: u64,
    invalid_items: u64,
    emitted: u64,
    last_stamp: i64,
}

impl View for BatchRun {
    type V = BatchView;

    closed spec fn view(&self) -> BatchView {
        BatchView {
            batch_id: self.batch_id,
            acknowledge: self.acknowledge,
            phase: self.phase,
            notifier: self.notifier@,
            rows: self.rows,
            bytes: self.bytes,
            decode_failures: self.decode_failures,
            invalid_items: self.invalid_items,
            emitted: self.emitted as nat,
            last_stamp: self.last_stamp,
        }
    }
}

impl BatchRun {
    /// The state invariant.
    pub open spec fn wf(&self) -> bool {
        batch_wf(self@)
    }

    /// A batch about to stream its first row.
    pub fn new(batch_id: u64, acknowledge: bool) -> (r: BatchRun)
        ensures
            r@ == fresh_batch(batch_id, acknowledge),
            r.wf(),
    {
        BatchRun {
            batch_id,
            acknowledge,
            phase: BatchPhase::Streaming,
            notifier: BatchNotifier::new(),
            rows: 0,
            bytes: 0,
            decode_failures: 0,
            invalid_items: 0,
            emitted: 0,
            last_stamp: i64::MIN,
        }
    }

    /// Handles one pulled row of `row_len` bytes, given what the decoder made of it
    /// (`None` where it failed), at time `now`: returns the events to forward.
    ///
    /// A refused row is only counted; items that are not log records are dropped
    /// and counted. Every returned event is stamped with `now`.
    pub fn on_row_at(&mut self, row_len: usize, decoded: Option<Vec<DecodedItem>>, now: i64) -> (events: Vec<DecodedEvent>)
        requires
            old(self).wf(),
            old(self)@.phase == BatchPhase::Streaming,
            decoded matches Some(items) ==> old(self)@.emitted + items.len() <= u64::MAX,
        ensures
            final(self).wf(),
            final(self)@ == row_step(old(self)@, row_len as nat, items_of(decoded), now),
            events@.map_values(|e: DecodedEvent| e@) == row_events(old(self)@, items_of(decoded), now),
            forall|i: int| 0 <= i < events@.len() ==> (#[trigger] events@[i]).ingest_timestamp == now,
    {
        let ghost start = self@;
        self.rows = self.rows.saturating_add(1);
        self.bytes = self.bytes.saturating_add(row_len as u64);
        let stamp: i64 = now;
        self.last_stamp = now;
        let tag: Option<u64> = if self.acknowledge { Some(self.batch_id) } else { None };
        let mut events: Vec<DecodedEvent> = Vec::new();
        match decoded {
            None => {
                self.decode_failures = self.decode_failures.saturating_add(1);
                assert(events@.map_values(|e: DecodedEvent| e@) =~= seq![]);
            },
            Some(items) => {
                let mut items = items;
                let ghost orig = items@;
                let ghost mid = self@;
                let total: usize = items.len();
                let mut invalid: usize = 0;
                assert(events@.map_values(|e: DecodedEvent| e@) =~= seq![]);
                while items.len() > 0
                    invariant
                        tag_items(orig, tag, stamp) == events@.map_values(|e: DecodedEvent| e@) + tag_items(items@, tag, stamp),
                        invalid_count(orig) == invalid + invalid_count(items@),
                        events.len() + invalid + items.len() == orig.len(),
                        orig.len() == total,
                        stamp == now,
                        forall|j: int| 0 <= j < events@.len() ==> (#[trigger] events@[j]).ingest_timestamp == now,
                        mid.emitted + orig.len() <= u64::MAX,
                        batch_wf(mid),
                        mid.phase == BatchPhase::Streaming,
                        tag == batch_tag(mid),
                        self@ == (BatchView {
                            emitted: (mid.emitted + events.len()) as nat,
                            notifier: if mid.acknowledge {
                                NotifierView { pending: (mid.notifier.pending + events.len()) as nat, ..mid.notifier }
                            } else {
                                mid.notifier
                            },
                            ..mid
                        }),
                    decreases items.len(),
                {
                    let ghost before = items@;
                    let ghost evs = events@.map_values(|e: DecodedEvent| e@);
                    let item = items.remove(0);
                    assert(items@ =~= before.subrange(1, before.len() as int));
                    match item {
                        DecodedItem::Log(m) => {
                            if self.acknowledge {
                                self.notifier.attach();
                            }
                            self.emitted = self.emitted + 1;
                            let ghost ev = EventView { message: m@, batch: tag, ingest_timestamp: stamp };
                            events.push(DecodedEvent { message: m, batch: tag, ingest_timestamp: stamp });
                            assert(events@.map_values(|e: DecodedEvent| e@) =~= evs.push(ev));
                            assert(tag_items(before, tag, stamp) == seq![ev] + tag_items(items@, tag, stamp));
                            assert(evs.push(ev) + tag_items(items@, tag, stamp) =~= evs + (seq![ev] + tag_items(items@, tag, stamp)));
                        },
                        _ => {
                            invalid = invalid + 1;
                        },
                    }
                }
                assert(items@ =~= seq![]);
                assert(events@.map_values(|e: DecodedEvent| e@) =~= tag_items(orig, tag, stamp));
                self.invalid_items = self.invalid_items.saturating_add(invalid as u64);
            },
        }
        events
    }

    /// Handles one pulled row as `on_row_at` does, stamped with the current wall-clock time.
    pub fn on_row(&mut self, row_len: usize, decoded: Option<Vec<DecodedItem>>) -> (events: Vec<DecodedEvent>)
        requires
            old(self).wf(),
            old(self)@.phase == BatchPhase::Streaming,
            decoded matches Some(items) ==> old(self)@.emitted + items.len() <= u64::MAX,
        ensures
            final(self).wf(),
            exists|now: i64|
                final(self)@ == row_step(old(self)@, row_len as nat, items_of(decoded), now)
                    && events@.map_values(|e: DecodedEvent| e@) == row_events(old(self)@, items_of(decoded), now),
    {
        let now = current_micros();
        self.on_row_at(row_len, decoded, now)
    }

    /// The row sequence is exhausted: releases the batch's handle on its notifier
    /// and says whether the completion callback is due.
    ///
    /// Without acknowledgements the callback is due at once. With them, it is due
    /// when the delivery status is already known to be `Delivered`, skipped when it
    /// is known to be otherwise (a batch with no events is delivered vacuously),
    /// and otherwise the batch waits for the outstanding reports.
    pub fn on_rows_exhausted(&mut self) -> (r: BatchAction)
        requires
            old(self).wf(),
            old(self)@.phase == BatchPhase::Streaming,
        ensures
            final(self).wf(),
            (final(self)@, r) == exhaust(old(self)@),
    {
        self.notifier.release();
        if !self.acknowledge {
            self.phase = BatchPhase::Finished(BatchOutcome::Completed);
            BatchAction::RunCallback
        } else {
            match self.notifier.terminal() {
                Some(s) => self.finish_with(s),
                None => {
                    self.phase = BatchPhase::AwaitingStatus;
                    BatchAction::Continue
                },
            }
        }
    }

    /// Records the downstream outcome of one forwarded event of this batch.
    /// Once all rows are consumed and the last report is in, says whether the
    /// completion callback is due.
    pub fn on_event_status(&mut self, status: DeliveryStatus) -> (r: BatchAction)
        requires
            old(self).wf(),
            old(self)@.phase == BatchPhase::Streaming || old(self)@.phase == BatchPhase::AwaitingStatus,
            old(self)@.notifier.pending > 0,
        ensures
            final(self).wf(),
            (final(self)@, r) == resolve_step(old(self)@, status),
    {
        self.notifier.resolve(status);
        if self.phase == BatchPhase::AwaitingStatus {
            match self.notifier.terminal() {
                Some(s) => self.finish_with(s),
                None => BatchAction::Continue,
            }
        } else {
            BatchAction::Continue
        }
    }

    /// Takes a delivery report addressed to batch `id`, as `report_step` says:
    /// a report for another batch, or one with nothing outstanding, changes nothing.
    pub fn on_report(&mut self, id: u64, status: DeliveryStatus) -> (r: BatchAction)
        requires
            old(self).wf(),
        ensures
            final(self).wf(),
            (final(self)@, r) == report_step(old(self)@, id, status),
    {
        let finished = match self.phase {
            BatchPhase::Finished(_) => true,
            _ => false,
        };
        if id == self.batch_id && self.acknowledge && self.notifier.pending() > 0 && !finished {
            self.on_event_status(status)
        } else {
            BatchAction::Continue
        }
    }

    /// The output refused the stream with `unsent` events left: the batch is
    /// abandoned without waiting for any status, and its callback never runs.
    /// `unsent` counts the events already produced that the output did not take;
    /// rows not yet pulled are never read, so their events are not counted.
    pub fn on_send_failed(&mut self, unsent: u64) -> (r: BatchAction)
        requires
            old(self).wf(),
            old(self)@.phase == BatchPhase::Streaming,
        ensures
            final(self).wf(),
            final(self)@ == abandon(old(self)@, unsent),
            r == BatchAction::SkipCallback,
    {
        self.phase = BatchPhase::Finished(BatchOutcome::Abandoned(unsent));
        BatchAction::SkipCallback
    }

    fn finish_with(&mut self, s: DeliveryStatus) -> (r: BatchAction)
        ensures
            final(self)@ == (BatchView { phase: BatchPhase::Finished(gate(s).0), ..old(self)@ }),
            r == gate(s).1,
    {
        if s == DeliveryStatus::Delivered {
            self.phase = BatchPhase::Finished(BatchOutcome::Completed);
            BatchAction::RunCallback
        } else {
            self.phase = BatchPhase::Finished(BatchOutcome::Failed(s));
            BatchAction::SkipCallback
        }
    }

    /// The identifier that this batch's events carry when acknowledgements are on.
    pub fn batch_id(&self) -> (r: u64)
        ensures
            r == self@.batch_id,
    {
        self.batch_id
    }

    /// Where the batch stands.
    pub fn phase(&self) -> (r: BatchPhase)
        ensures
            r == self@.phase,
    {
        self.phase
    }

    /// Events forwarded so far.
    pub fn events_emitted(&self) -> (r: u64)
        ensures
            r as nat == self@.emitted,
    {
        self.emitted
    }

    /// Rows that the decoder refused.
    pub fn decode_failures(&self) -> (r: u64)
        ensures
            r == self@.decode_failures,
    {
        self.decode_failures
    }

    /// Decoded items dropped for not being log records.
    pub fn invalid_items(&self) -> (r: u64)
        ensures
            r == self@.invalid_items,
    {
        self.invalid_items
    }

    /// Bytes of the rows pulled so far.
    pub fn bytes_received(&self) -> (r: u64)
        ensures
            r == self@.bytes,
    {
        self.bytes
    }

    /// Events of this batch not yet reported downstream.
    pub fn pending(&self) -> (r: u64)
        ensures
            r as nat == self@.notifier.pending,
    {
        self.notifier.pending()
    }
}

} // verus!
