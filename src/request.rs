//! A request handle: issues receive operations and cancels them.
use vstd::prelude::*;
use crate::handle::{HandleRef, HandleView};
use crate::operation::{OpState, PendingOperation};

verus! {

/// Bytes a head or body receive asks for when its caller names no size.
pub const DEFAULT_RECEIVE_SIZE: u32 = 4096;

/// The buffer size for a receive: the caller's, or the default.
pub fn requested_size(size: Option<u32>) -> (r: u32)
    ensures
        r == match size {
            Some(n) => n,
            None => DEFAULT_RECEIVE_SIZE,
        },
{
    match size {
        Some(n) => n,
        None => DEFAULT_RECEIVE_SIZE,
    }
}

/// Where a receive writes: memory that the operation allocates itself, or a
/// caller's region that must stay valid until the operation settles.
#[derive(PartialEq, Eq, Structural, Clone, Copy, Debug)]
pub enum Buffer {
    /// Allocate this many bytes; the allocation goes back to the caller.
    Auto(u32),
    /// A caller's region of this many bytes.
    Slice(u32),
}

pub open spec fn capacity_of(b: Buffer) -> u32 {
    match b {
        Buffer::Auto(n) => n,
        Buffer::Slice(n) => n,
    }
}

impl Buffer {
    /// How many bytes the kernel may write.
    pub fn capacity(&self) -> (r: u32)
        ensures
            r == capacity_of(*self),
    {
        match self {
            Buffer::Auto(n) => *n,
            Buffer::Slice(n) => *n,
        }
    }

    /// The memory of an automatic buffer, zeroed; `None` for a caller's region.
    pub fn allocate(&self) -> (r: Option<Vec<u8>>)
        ensures
            match *self {
                Buffer::Auto(n) => r is Some && r.unwrap()@ == Seq::new(n as nat, |i: int| 0u8),
                Buffer::Slice(_) => r is None,
            },
    {
        match self {
            Buffer::Auto(n) => {
                let mut v: Vec<u8> = Vec::new();
                let mut i: u32 = 0;
                while i < *n
                    invariant
                        i <= *n,
                        v@ == Seq::new(i as nat, |k: int| 0u8),
                    decreases *n - i,
                {
                    v.push(0u8);
                    i = i + 1;
                    assert(v@ =~= Seq::new(i as nat, |k: int| 0u8));
                }
                Some(v)
            },
            Buffer::Slice(_) => None,
        }
    }
}

/// A duplicate of a session's queue handle, bound to the completion mechanism. The
/// request and each of its in-flight operations hold the handle.
pub struct Request {
    pub handle: HandleRef,
    pub cancelled: bool,
}

impl Request {
    pub fn new(handle: HandleRef) -> (r: Request)
        ensures
            r.handle == handle,
            !r.cancelled,
    {
        Request { handle, cancelled: false }
    }

    /// Issues a receive of the next request head (`id` 0) or of the rest of head
    /// `id`; the operation holds the handle until it settles.
    pub fn receive(&mut self, id: u64, target: Buffer) -> (op: PendingOperation)
        requires
            old(self).handle@.holders < u64::MAX,
        ensures
            final(self).handle@ == (HandleView {
                holders: old(self).handle@.holders + 1,
                ..old(self).handle@
            }),
            final(self).cancelled == old(self).cancelled,
            op.id == id,
            op.state == OpState::Issued,
            op.capacity == capacity_of(target),
    {
        self.handle.acquire();
        PendingOperation::new(id, target.capacity())
    }

    /// Issues a receive of the next body chunk of request `id`; the operation
    /// holds the handle until it settles.
    pub fn receive_data(&mut self, id: u64, target: Buffer) -> (op: PendingOperation)
        requires
            old(self).handle@.holders < u64::MAX,
        ensures
            final(self).handle@ == (HandleView {
                holders: old(self).handle@.holders + 1,
                ..old(self).handle@
            }),
            final(self).cancelled == old(self).cancelled,
            op.id == id,
            op.state == OpState::Issued,
            op.capacity == capacity_of(target),
    {
        self.handle.acquire();
        PendingOperation::new(id, target.capacity())
    }

    /// A settled operation lets go of the handle; returns the handle to close when
    /// it was the last holder.
    pub fn settle(&mut self, op: &PendingOperation) -> (r: Option<u64>)
        requires
            old(self).handle@.holders > 0,
            crate::operation::is_resolved(op.state),
        ensures
            final(self).cancelled == old(self).cancelled,
            final(self).handle@.holders == old(self).handle@.holders - 1,
            final(self).handle@.raw == old(self).handle@.raw,
            final(self).handle@.closed == (old(self).handle@.closed || final(self).handle@.holders == 0),
            r == if !old(self).handle@.closed && final(self).handle@.holders == 0 {
                Some(old(self).handle@.raw)
            } else {
                None::<u64>
            },
    {
        self.handle.release()
    }

    /// Cancels every outstanding operation: returns the handle whose I/O to cancel.
    /// Each cancelled operation still settles once, with the cancellation code; the
    /// handle stays open until the last holder lets go.
    pub fn close(&mut self) -> (r: u64)
        ensures
            final(self).handle == old(self).handle,
            final(self).cancelled,
            r == old(self).handle@.raw,
    {
        self.cancelled = true;
        self.handle.raw()
    }
}

} // verus!
