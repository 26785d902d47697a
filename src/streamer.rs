use vstd::prelude::*;

use crate::batch::{fresh_batch, BatchRun};

verus! {

/// Where the outer loop stands.
#[derive(Clone, Copy, Debug, PartialEq, Eq, Structural)]
pub enum LoopState {
    /// Racing the next batch against the shutdown signal.
    AwaitingNextBatch,
    /// A batch is in flight; it runs to its end whatever else happens.
    ProcessingBatch,
    /// The loop is over.
    Terminated,
}

/// What the outer loop observed.
#[derive(Clone, Copy, Debug, PartialEq, Eq, Structural)]
pub enum LoopEvent {
    /// The upstream produced a batch.
    BatchArrived,
    /// The upstream batch sequence ended.
    UpstreamEnded,
    /// The shutdown signal fired.
    ShutdownFired,
    /// The batch in flight reached its end, whatever its outcome.
    BatchFinished,
}

/// What the driver of the outer loop does next.
#[derive(Clone, Copy, Debug, PartialEq, Eq, Structural)]
pub enum LoopAction {
    /// Process the batch that arrived.
    ProcessBatch,
    /// Race the next batch against shutdown again.
    PullNext,
    /// Keep doing what is being done.
    Proceed,
    /// Leave the loop, reporting success.
    Stop,
}

/// The outer loop, as a value.
pub ghost struct StreamerView {
    pub acknowledge: bool,
    pub state: LoopState,
    /// Whether shutdown fired while a batch was in flight.
    pub shutdown_seen: bool,
    /// Identifier that the next batch gets.
    pub next_batch_id: u64,
}

/// The outer loop after `e`, and what to do.
pub open spec fn loop_step(s: StreamerView, e: LoopEvent) -> (StreamerView, LoopAction) {
    match s.state {
        LoopState::AwaitingNextBatch => match e {
            LoopEvent::BatchArrived => (StreamerView { state: LoopState::ProcessingBatch, ..s }, LoopAction::ProcessBatch),
            LoopEvent::UpstreamEnded => (StreamerView { state: LoopState::Terminated, ..s }, LoopAction::Stop),
            LoopEvent::ShutdownFired => (StreamerView { state: LoopState::Terminated, ..s }, LoopAction::Stop),
            LoopEvent::BatchFinished => (s, LoopAction::PullNext),
        },
        LoopState::ProcessingBatch => match e {
            LoopEvent::ShutdownFired => (StreamerView { shutdown_seen: true, ..s }, LoopAction::Proceed),
            LoopEvent::BatchFinished => if s.shutdown_seen {
                (StreamerView { state: LoopState::Terminated, ..s }, LoopAction::Stop)
            } else {
                (StreamerView { state: LoopState::AwaitingNextBatch, ..s }, LoopAction::PullNext)
            },
            _ => (s, LoopAction::Proceed),
        },
        LoopState::Terminated => (s, LoopAction::Stop),
    }
}

/// The identifier after `id`, wrapping around.
pub open spec fn next_id(id: u64) -> u64 {
    if id == u64::MAX {
        0
    } else {
        (id + 1) as u64
    }
}

/// Pulls batches one at a time and hands each to a `BatchRun`, until the
/// upstream ends or shutdown fires between batches.
pub struct AzureBlobStreamer {
    acknowledge: bool,
    state: LoopState,
    shutdown_seen: bool,
    next_batch_id: u64,
}

impl View for AzureBlobStreamer {
    type V = StreamerView;

    closed spec fn view(&self) -> StreamerView {
        StreamerView {
            acknowledge: self.acknowledge,
            state: self.state,
            shutdown_seen: self.shutdown_seen,
            next_batch_id: self.next_batch_id,
        }
    }
}

impl AzureBlobStreamer {
    /// A loop waiting for its first batch; `acknowledge` says whether batches
    /// wait for delivery before their completion callback.
    pub fn new(acknowledge: bool) -> (r: AzureBlobStreamer)
        ensures
            r@ == (StreamerView {
                acknowledge,
                state: LoopState::AwaitingNextBatch,
                shutdown_seen: false,
                next_batch_id: 0,
            }),
    {
        AzureBlobStreamer { acknowledge, state: LoopState::AwaitingNextBatch, shutdown_seen: false, next_batch_id: 0 }
    }

    /// Where the loop stands.
    pub fn state(&self) -> (r: LoopState)
        ensures
            r == self@.state,
    {
        self.state
    }

    /// Takes one observation and says what to do next.
    ///
    /// Shutdown is only acted on between batches: fired during a batch, it ends
    /// the loop once that batch is finished. A batch's own failure never ends the loop.
    pub fn on_event(&mut self, e: LoopEvent) -> (r: LoopAction)
        ensures
            (final(self)@, r) == loop_step(old(self)@, e),
    {
        match self.state {
            LoopState::AwaitingNextBatch => match e {
                LoopEvent::BatchArrived => {
                    self.state = LoopState::ProcessingBatch;
                    LoopAction::ProcessBatch
                },
                LoopEvent::UpstreamEnded | LoopEvent::ShutdownFired => {
                    self.state = LoopState::Terminated;
                    LoopAction::Stop
                },
                LoopEvent::BatchFinished => LoopAction::PullNext,
            },
            LoopState::ProcessingBatch => match e {
                LoopEvent::ShutdownFired => {
                    self.shutdown_seen = true;
                    LoopAction::Proceed
                },
                LoopEvent::BatchFinished => {
                    if self.shutdown_seen {
                        self.state = LoopState::Terminated;
                        LoopAction::Stop
                    } else {
                        self.state = LoopState::AwaitingNextBatch;
                        LoopAction::PullNext
                    }
                },
                _ => LoopAction::Proceed,
            },
            LoopState::Terminated => LoopAction::Stop,
        }
    }

    /// Opens the batch that just arrived, under a fresh identifier.
    pub fn open_batch(&mut self) -> (r: BatchRun)
        ensures
            r@ == fresh_batch(old(self)@.next_batch_id, old(self)@.acknowledge),
            r.wf(),
            final(self)@ == (StreamerView { next_batch_id: next_id(old(self)@.next_batch_id), ..old(self)@ }),
    {
        let id = self.next_batch_id;
        self.next_batch_id = if id == u64::MAX { 0 } else { id + 1 };
        BatchRun::new(id, self.acknowledge)
    }
}

} // verus!
