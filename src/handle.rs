//! A kernel handle shared by a request and its in-flight operations.
use vstd::prelude::*;

verus! {

pub struct HandleView {
    pub raw: u64,
    pub holders: nat,
    pub closed: bool,
}

/// Something done to a shared handle.
#[derive(PartialEq, Eq, Structural, Clone, Copy, Debug)]
pub enum HandleOp {
    Acquire,
    Release,
    Close,
}

/// The handle after one operation, and whether that operation closes it. A release
/// without a holder changes nothing.
pub open spec fn handle_step(h: HandleView, op: HandleOp) -> (HandleView, bool) {
    match op {
        HandleOp::Acquire => (HandleView { holders: h.holders + 1, ..h }, false),
        HandleOp::Release => {
            if h.holders == 0 {
                (h, false)
            } else {
                let left = (h.holders - 1) as nat;
                (
                    HandleView { holders: left, closed: h.closed || left == 0, ..h },
                    !h.closed && left == 0,
                )
            }
        },
        HandleOp::Close => (HandleView { closed: true, ..h }, !h.closed),
    }
}

/// How many operations of the sequence close the handle.
pub open spec fn handle_closes(h: HandleView, ops: Seq<HandleOp>) -> nat
    decreases ops.len(),
{
    if ops.len() == 0 {
        0
    } else {
        let (next, closes) = handle_step(h, ops[0]);
        (if closes { 1nat } else { 0nat }) + handle_closes(next, ops.drop_first())
    }
}

/// Owns one raw handle. Every holder (the request, each in-flight operation) counts;
/// the handle is closed by an explicit close or when the last holder lets go,
/// whichever comes first, and never twice.
pub struct HandleRef {
    raw: u64,
    holders: u64,
    closed: bool,
}

impl View for HandleRef {
    type V = HandleView;

    closed spec fn view(&self) -> HandleView {
        HandleView { raw: self.raw, holders: self.holders as nat, closed: self.closed }
    }
}

impl HandleRef {
    /// Takes ownership of `raw`, with one holder.
    pub fn new(raw: u64) -> (r: HandleRef)
        ensures
            r@ == (HandleView { raw, holders: 1, closed: false }),
    {
        HandleRef { raw, holders: 1, closed: false }
    }

    pub fn raw(&self) -> (r: u64)
        ensures
            r == self@.raw,
    {
        self.raw
    }

    pub fn holders(&self) -> (r: u64)
        ensures
            r == self@.holders,
    {
        self.holders
    }

    pub fn is_closed(&self) -> (r: bool)
        ensures
            r == self@.closed,
    {
        self.closed
    }

    /// One more holder.
    pub fn acquire(&mut self)
        requires
            old(self)@.holders < u64::MAX,
        ensures
            final(self)@ == (HandleView { holders: old(self)@.holders + 1, ..old(self)@ }),
            final(self)@ == handle_step(old(self)@, HandleOp::Acquire).0,
    {
        self.holders = self.holders + 1;
    }

    /// A holder lets go; returns the handle to close when it was the last one and
    /// the handle is still open.
    pub fn release(&mut self) -> (r: Option<u64>)
        requires
            old(self)@.holders > 0,
        ensures
            (final(self)@, r is Some) == handle_step(old(self)@, HandleOp::Release),
            final(self)@.raw == old(self)@.raw,
            final(self)@.holders == old(self)@.holders - 1,
            final(self)@.closed == (old(self)@.closed || final(self)@.holders == 0),
            r == if !old(self)@.closed && final(self)@.holders == 0 {
                Some(old(self)@.raw)
            } else {
                None::<u64>
            },
    {
        self.holders = self.holders - 1;
        if !self.closed && self.holders == 0 {
            self.closed = true;
            Some(self.raw)
        } else {
            None
        }
    }

    /// Closes now: returns the handle to close on the first call, nothing after.
    pub fn close(&mut self) -> (r: Option<u64>)
        ensures
            final(self)@ == (HandleView { closed: true, ..old(self)@ }),
            r == if old(self)@.closed { None::<u64> } else { Some(old(self)@.raw) },
            (final(self)@, r is Some) == handle_step(old(self)@, HandleOp::Close),
    {
        if self.closed {
            None
        } else {
            self.closed = true;
            Some(self.raw)
        }
    }
}

/// Whatever a request and its operations do to a shared handle, in whatever order,
/// the handle is closed at most once, and never again once closed.
pub proof fn lemma_closed_at_most_once(h: HandleView, ops: Seq<HandleOp>)
    ensures
        handle_closes(h, ops) <= 1,
        h.closed ==> handle_closes(h, ops) == 0,
    decreases ops.len(),
{
    if ops.len() > 0 {
        let (next, closes) = handle_step(h, ops[0]);
        lemma_closed_at_most_once(next, ops.drop_first());
        assert(closes ==> next.closed);
        assert(h.closed ==> next.closed && !closes);
    }
}

} // verus!
