//! A registry of notification targets keyed by the token that registration hands out.
use vstd::prelude::*;

verus! {

pub open spec fn tokens_ordered<T>(s: Seq<(usize, T)>, next: usize) -> bool {
    &&& forall|i: int, j: int| 0 <= i < j < s.len() ==> s[i].0 < s[j].0
    &&& forall|i: int| 0 <= i < s.len() ==> s[i].0 < next
}

/// Registered targets in registration order, each under its own token; `remove` goes
/// by token, never by comparing targets.
pub struct CallbackList<T> {
    entries: Vec<(usize, T)>,
    next: usize,
}

impl<T> CallbackList<T> {
    pub closed spec fn entries(&self) -> Seq<(usize, T)> {
        self.entries@
    }

    pub closed spec fn next_token(&self) -> usize {
        self.next
    }

    pub closed spec fn wf(&self) -> bool {
        tokens_ordered(self.entries@, self.next) && self.next > 0
    }

    pub fn new() -> (r: CallbackList<T>)
        ensures
            r.wf(),
            r.entries() == Seq::<(usize, T)>::empty(),
            r.next_token() == 1,
    {
        CallbackList { entries: Vec::new(), next: 1 }
    }

    /// Registers `item`; returns its token, which no other entry has.
    pub fn add(&mut self, item: T) -> (token: usize)
        requires
            old(self).wf(),
            old(self).next_token() < usize::MAX,
        ensures
            final(self).wf(),
            token == old(self).next_token(),
            final(self).next_token() == old(self).next_token() + 1,
            final(self).entries() == old(self).entries().push((token, item)),
            forall|i: int| 0 <= i < old(self).entries().len() ==> old(self).entries()[i].0 != token,
    {
        let token = self.next;
        self.entries.push((token, item));
        self.next = self.next + 1;
        token
    }

    /// Removes the entry registered under `token`, if any.
    pub fn remove(&mut self, token: usize)
        requires
            old(self).wf(),
        ensures
            final(self).wf(),
            final(self).next_token() == old(self).next_token(),
            (exists|i: int|
                0 <= i < old(self).entries().len() && old(self).entries()[i].0 == token
                    && final(self).entries() == old(self).entries().remove(i))
                || ((forall|i: int|
                0 <= i < old(self).entries().len() ==> old(self).entries()[i].0 != token)
                && final(self).entries() == old(self).entries()),
    {
        let mut i: usize = 0;
        while i < self.entries.len()
            invariant
                self.entries@ == old(self).entries@,
                self.next == old(self).next,
                self.next > 0,
                tokens_ordered(self.entries@, self.next),
                i <= self.entries@.len(),
                forall|k: int| 0 <= k < i ==> self.entries@[k].0 != token,
            decreases self.entries@.len() - i,
        {
            if self.entries[i].0 == token {
                let ghost before = self.entries@;
                let _ = self.entries.remove(i);
                assert(self.entries@ == before.remove(i as int));
                assert forall|a: int, b: int| 0 <= a < b < self.entries@.len() implies
                    self.entries@[a].0 < self.entries@[b].0 by {
                    if a >= i {
                        assert(self.entries@[a] == before[a + 1]);
                    } else {
                        assert(self.entries@[a] == before[a]);
                    }
                    if b >= i {
                        assert(self.entries@[b] == before[b + 1]);
                    } else {
                        assert(self.entries@[b] == before[b]);
                    }
                }
                assert forall|a: int| 0 <= a < self.entries@.len() implies self.entries@[a].0
                    < self.next by {
                    if a >= i {
                        assert(self.entries@[a] == before[a + 1]);
                    } else {
                        assert(self.entries@[a] == before[a]);
                    }
                }
                return;
            }
            i = i + 1;
        }
    }

    /// Removes every entry; tokens are not handed out again.
    pub fn clear(&mut self)
        requires
            old(self).wf(),
        ensures
            final(self).wf(),
            final(self).next_token() == old(self).next_token(),
            final(self).entries() == Seq::<(usize, T)>::empty(),
    {
        self.entries.clear();
    }

    /// Whether every token has been handed out, so that `add` cannot register more.
    pub fn is_full(&self) -> (r: bool)
        ensures
            r == (self.next_token() == usize::MAX),
    {
        self.next == usize::MAX
    }

    pub fn len(&self) -> (r: usize)
        ensures
            r == self.entries().len(),
    {
        self.entries.len()
    }

    /// The registered targets, in registration order.
    pub fn extract(&self) -> (r: Vec<&T>)
        ensures
            r@.len() == self.entries().len(),
            forall|i: int| 0 <= i < r@.len() ==> *r@[i] == self.entries()[i].1,
    {
        let mut r: Vec<&T> = Vec::new();
        let mut i: usize = 0;
        while i < self.entries.len()
            invariant
                i <= self.entries@.len(),
                r@.len() == i,
                forall|k: int| 0 <= k < i ==> *r@[k] == self.entries@[k].1,
            decreases self.entries@.len() - i,
        {
            r.push(&self.entries[i].1);
            i = i + 1;
        }
        r
    }
}

} // verus!
