//! One overlapped kernel call, from issue to its single resolution.
use vstd::prelude::*;
use crate::codes::{ERROR_IO_PENDING, ERROR_OPERATION_ABORTED};

verus! {

/// Where one overlapped operation stands.
#[derive(PartialEq, Eq, Structural, Clone, Copy, Debug)]
pub enum OpState {
    /// The kernel call is being made and has not returned.
    Issued,
    /// The call reported that it will complete later.
    Pending,
    /// The call completed at once, with this code and byte count.
    CompletedSync { code: u32, bytes: u32 },
    /// The completion notification arrived with this code and byte count.
    Completed { code: u32, bytes: u32 },
    /// The completion notification reported that the operation was cancelled.
    Cancelled { code: u32 },
}

/// Something the platform reports about an operation.
#[derive(PartialEq, Eq, Structural, Clone, Copy, Debug)]
pub enum OpEvent {
    /// The issuing call returned this code and byte count.
    Returned { code: u32, bytes: u32 },
    /// The completion mechanism delivered this code and byte count.
    Notified { code: u32, bytes: u32 },
}

pub open spec fn is_resolved(s: OpState) -> bool {
    match s {
        OpState::Issued | OpState::Pending => false,
        _ => true,
    }
}

/// An event that settles an operation which is not settled yet.
pub open spec fn is_terminal(e: OpEvent) -> bool {
    match e {
        OpEvent::Returned { code, bytes: _ } => code != ERROR_IO_PENDING,
        OpEvent::Notified { .. } => true,
    }
}

/// The state after an event. A settled operation ignores every later event; a
/// notification may overtake the return of the issuing call.
pub open spec fn next_state(s: OpState, e: OpEvent) -> OpState {
    if is_resolved(s) {
        s
    } else {
        match e {
            OpEvent::Returned { code, bytes } => {
                if code == ERROR_IO_PENDING {
                    OpState::Pending
                } else {
                    OpState::CompletedSync { code, bytes }
                }
            },
            OpEvent::Notified { code, bytes } => {
                if code == ERROR_OPERATION_ABORTED {
                    OpState::Cancelled { code }
                } else {
                    OpState::Completed { code, bytes }
                }
            },
        }
    }
}

/// The state after a sequence of events.
pub open spec fn run(s: OpState, events: Seq<OpEvent>) -> OpState
    decreases events.len(),
{
    if events.len() == 0 {
        s
    } else {
        run(next_state(s, events[0]), events.drop_first())
    }
}

/// How many events of the sequence settle the operation.
pub open spec fn resolutions(s: OpState, events: Seq<OpEvent>) -> nat
    decreases events.len(),
{
    if events.len() == 0 {
        0
    } else {
        let t = next_state(s, events[0]);
        (if !is_resolved(s) && is_resolved(t) { 1nat } else { 0nat }) + resolutions(t, events.drop_first())
    }
}

pub open spec fn has_terminal(events: Seq<OpEvent>) -> bool {
    exists|i: int| 0 <= i < events.len() && is_terminal(#[trigger] events[i])
}

/// One overlapped operation: the request it reads, its state, and the capacity of
/// the buffer it writes.
pub struct PendingOperation {
    pub id: u64,
    pub state: OpState,
    pub capacity: u32,
}

impl PendingOperation {
    /// An operation on request `id` (0: the next unclaimed request) about to be
    /// issued against a buffer of `capacity` bytes.
    pub fn new(id: u64, capacity: u32) -> (r: PendingOperation)
        ensures
            r.id == id,
            r.state == OpState::Issued,
            r.capacity == capacity,
    {
        PendingOperation { id, state: OpState::Issued, capacity }
    }

    /// Records an event; returns whether it was the one that settled the operation.
    pub fn observe(&mut self, e: OpEvent) -> (resolved_now: bool)
        ensures
            final(self).state == next_state(old(self).state, e),
            final(self).capacity == old(self).capacity,
            final(self).id == old(self).id,
            resolved_now == (!is_resolved(old(self).state) && is_resolved(final(self).state)),
    {
        let was = self.is_resolved();
        if !was {
            self.state = match e {
                OpEvent::Returned { code, bytes } => {
                    if code == ERROR_IO_PENDING {
                        OpState::Pending
                    } else {
                        OpState::CompletedSync { code, bytes }
                    }
                },
                OpEvent::Notified { code, bytes } => {
                    if code == ERROR_OPERATION_ABORTED {
                        OpState::Cancelled { code }
                    } else {
                        OpState::Completed { code, bytes }
                    }
                },
            };
        }
        !was && self.is_resolved()
    }

    /// The issuing call returned `code` having transferred `bytes`.
    pub fn issued(&mut self, code: u32, bytes: u32) -> (resolved_now: bool)
        ensures
            final(self).state == next_state(old(self).state, OpEvent::Returned { code, bytes }),
            final(self).capacity == old(self).capacity,
            final(self).id == old(self).id,
            resolved_now == (!is_resolved(old(self).state) && is_resolved(final(self).state)),
    {
        self.observe(OpEvent::Returned { code, bytes })
    }

    /// The completion mechanism delivered `code` and `bytes`.
    pub fn notified(&mut self, code: u32, bytes: u32) -> (resolved_now: bool)
        ensures
            final(self).state == next_state(old(self).state, OpEvent::Notified { code, bytes }),
            final(self).capacity == old(self).capacity,
            final(self).id == old(self).id,
            resolved_now == (!is_resolved(old(self).state) && is_resolved(final(self).state)),
    {
        self.observe(OpEvent::Notified { code, bytes })
    }

    pub fn is_resolved(&self) -> (r: bool)
        ensures
            r == is_resolved(self.state),
    {
        match self.state {
            OpState::Issued | OpState::Pending => false,
            _ => true,
        }
    }

    /// Whether the caller must wait for a completion notification.
    pub fn must_wait(&self) -> (r: bool)
        ensures
            r == (self.state == OpState::Pending),
    {
        match self.state {
            OpState::Pending => true,
            _ => false,
        }
    }

    /// The final code and byte count, once settled.
    pub fn result(&self) -> (r: Option<(u32, u32)>)
        ensures
            r == match self.state {
                OpState::CompletedSync { code, bytes } => Some((code, bytes)),
                OpState::Completed { code, bytes } => Some((code, bytes)),
                OpState::Cancelled { code } => Some((code, 0u32)),
                _ => None::<(u32, u32)>,
            },
    {
        match self.state {
            OpState::CompletedSync { code, bytes } => Some((code, bytes)),
            OpState::Completed { code, bytes } => Some((code, bytes)),
            OpState::Cancelled { code } => Some((code, 0u32)),
            _ => None,
        }
    }
}

/// A settled operation stays settled, whatever else the platform reports.
pub proof fn lemma_resolved_stays(s: OpState, events: Seq<OpEvent>)
    requires
        is_resolved(s),
    ensures
        run(s, events) == s,
        resolutions(s, events) == 0,
    decreases events.len(),
{
    if events.len() > 0 {
        lemma_resolved_stays(next_state(s, events[0]), events.drop_first());
    }
}

/// Every issued operation is settled exactly once by any sequence of platform
/// events that holds a settling event (a completion notification, which the platform
/// delivers also for an operation cancelled mid-flight, or a return that is not
/// "pending"), and never more than once by any sequence.
pub proof fn lemma_resolves_exactly_once(events: Seq<OpEvent>)
    ensures
        resolutions(OpState::Issued, events) <= 1,
        has_terminal(events) <==> resolutions(OpState::Issued, events) == 1,
        has_terminal(events) <==> is_resolved(run(OpState::Issued, events)),
{
    lemma_unresolved_run(OpState::Issued, events);
}

proof fn lemma_unresolved_run(s: OpState, events: Seq<OpEvent>)
    requires
        !is_resolved(s),
    ensures
        resolutions(s, events) <= 1,
        has_terminal(events) <==> resolutions(s, events) == 1,
        has_terminal(events) <==> is_resolved(run(s, events)),
    decreases events.len(),
{
    if events.len() > 0 {
        let t = next_state(s, events[0]);
        let rest = events.drop_first();
        if is_resolved(t) {
            lemma_resolved_stays(t, rest);
            assert(is_terminal(events[0]));
        } else {
            lemma_unresolved_run(t, rest);
            assert(!is_terminal(events[0]));
            if has_terminal(events) {
                let i = choose|i: int| 0 <= i < events.len() && is_terminal(#[trigger] events[i]);
                assert(i > 0);
                assert(rest[i - 1] == events[i]);
            }
            if has_terminal(rest) {
                let j = choose|j: int| 0 <= j < rest.len() && is_terminal(#[trigger] rest[j]);
                assert(events[j + 1] == rest[j]);
            }
        }
    }
}

/// A cancelled in-flight operation settles with the cancellation code.
pub proof fn lemma_cancel_resolves(bytes: u32)
    ensures
        next_state(OpState::Pending, OpEvent::Notified { code: ERROR_OPERATION_ABORTED, bytes })
            == (OpState::Cancelled { code: ERROR_OPERATION_ABORTED }),
{
}

} // verus!
