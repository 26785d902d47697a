use vstd::prelude::*;

verus! {

/// Terminal outcome of delivering events downstream.
#[derive(Clone, Copy, Debug, PartialEq, Eq, Structural)]
pub enum DeliveryStatus {
    /// Every event was delivered.
    Delivered,
    /// At least one event failed to be delivered, and none was rejected.
    Errored,
    /// At least one event was rejected downstream.
    Rejected,
}

/// Combines two outcomes: `Rejected` wins over `Errored`, which wins over `Delivered`.
pub open spec fn combine(a: DeliveryStatus, b: DeliveryStatus) -> DeliveryStatus {
    if a == DeliveryStatus::Rejected || b == DeliveryStatus::Rejected {
        DeliveryStatus::Rejected
    } else if a == DeliveryStatus::Errored || b == DeliveryStatus::Errored {
        DeliveryStatus::Errored
    } else {
        DeliveryStatus::Delivered
    }
}

impl DeliveryStatus {
    /// The aggregate of this outcome and `other`.
    pub fn merge(self, other: DeliveryStatus) -> (r: DeliveryStatus)
        ensures
            r == combine(self, other),
    {
        if self == DeliveryStatus::Rejected || other == DeliveryStatus::Rejected {
            DeliveryStatus::Rejected
        } else if self == DeliveryStatus::Errored || other == DeliveryStatus::Errored {
            DeliveryStatus::Errored
        } else {
            DeliveryStatus::Delivered
        }
    }
}

/// What a notifier is, as a value.
pub ghost struct NotifierView {
    /// Events attached to the batch and not yet resolved downstream.
    pub pending: nat,
    /// Aggregate of the outcomes resolved so far.
    pub status: DeliveryStatus,
    /// Whether the batch's own handle has been released (no more events will attach).
    pub released: bool,
}

/// The status of a notifier, once it can no longer change.
///
/// A released notifier with no pending event is terminal; one that never had an
/// event is vacuously `Delivered`.
pub open spec fn terminal_of(v: NotifierView) -> Option<DeliveryStatus> {
    if v.released && v.pending == 0 {
        Some(v.status)
    } else {
        None
    }
}

/// Tracks the aggregate delivery status of all events derived from one batch.
pub struct BatchNotifier {
    pending: u64,
    status: DeliveryStatus,
    released: bool,
}

impl View for BatchNotifier {
    type V = NotifierView;

    closed spec fn view(&self) -> NotifierView {
        NotifierView { pending: self.pending as nat, status: self.status, released: self.released }
    }
}

impl BatchNotifier {
    /// A notifier with no event attached, not yet released.
    pub fn new() -> (r: BatchNotifier)
        ensures
            r@ == (NotifierView { pending: 0, status: DeliveryStatus::Delivered, released: false }),
    {
        BatchNotifier { pending: 0, status: DeliveryStatus::Delivered, released: false }
    }

    /// Number of attached events not yet resolved.
    pub fn pending(&self) -> (r: u64)
        ensures
            r as nat == self@.pending,
    {
        self.pending
    }

    /// Attaches one more event to the batch.
    pub fn attach(&mut self)
        requires
            !old(self)@.released,
            old(self)@.pending < u64::MAX,
        ensures
            final(self)@ == (NotifierView { pending: old(self)@.pending + 1, ..old(self)@ }),
    {
        self.pending = self.pending + 1;
    }

    /// Records the downstream outcome of one attached event.
    pub fn resolve(&mut self, status: DeliveryStatus)
        requires
            old(self)@.pending > 0,
        ensures
            final(self)@ == (NotifierView {
                pending: (old(self)@.pending - 1) as nat,
                status: combine(old(self)@.status, status),
                released: old(self)@.released,
            }),
    {
        self.pending = self.pending - 1;
        self.status = self.status.merge(status);
    }

    /// Releases the batch's own handle: no further event will be attached.
    pub fn release(&mut self)
        ensures
            final(self)@ == (NotifierView { released: true, ..old(self)@ }),
    {
        self.released = true;
    }

    /// The terminal status, once every attached event is resolved and the handle released.
    pub fn terminal(&self) -> (r: Option<DeliveryStatus>)
        ensures
            r == terminal_of(self@),
    {
        if self.released && self.pending == 0 {
            Some(self.status)
        } else {
            None
        }
    }
}

/// A batch that produced no event resolves, once released, to `Delivered`.
pub proof fn lemma_empty_batch_is_delivered(v: NotifierView)
    requires
        v.pending == 0,
        v.status == DeliveryStatus::Delivered,
    ensures
        terminal_of(NotifierView { released: true, ..v }) == Some(DeliveryStatus::Delivered),
{
}

} // verus!
