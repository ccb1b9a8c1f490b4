//! A fixed-capacity ring buffer that keeps the latest entries written to it.
use vstd::prelude::*;

verus! {

pub struct Logger<A> {
    pub logging: bool,
    pub buffer: Vec<A>,
    pub cap: usize,
    pub pos: usize,
    pub overflow: bool,
}

impl<A: Default + Clone> Logger<A> {
    /// Number of slots.
    pub open spec fn capacity(&self) -> nat {
        self.cap as nat
    }

    /// Slot of the latest entry.
    pub open spec fn position(&self) -> nat {
        self.pos as nat
    }

    /// Whether the ring has wrapped at least once.
    pub open spec fn wrapped(&self) -> bool {
        self.overflow
    }

    pub open spec fn wf(&self) -> bool {
        &&& self.buffer@.len() == self.cap
        &&& self.pos < self.cap
    }

    /// `next` is `self` after `a` was written: when logging is on, the next
    /// slot, wrapping to the first after the last, holds `a`.
    pub open spec fn wrote(self, next: Self, a: A) -> bool {
        &&& next.wf()
        &&& next.logging == self.logging
        &&& next.capacity() == self.capacity()
        &&& !self.logging ==> next == self
        &&& self.logging ==> {
            let p = if self.position() + 1 < self.capacity() {
                self.position() + 1
            } else {
                0
            };
            &&& next.position() == p
            &&& next.buffer@ == self.buffer@.update(p as int, a)
            &&& next.wrapped() == (self.wrapped() || p == 0)
        }
    }

    /// A ring of `cap` default entries, with logging on.
    pub fn new(cap: usize) -> (r: Logger<A>)
        requires
            cap >= 1,
        ensures
            r.wf(),
            r.logging,
            r.capacity() == cap,
            r.position() == 0,
            !r.wrapped(),
            r.buffer@.len() == cap,
    {
        let mut v: Vec<A> = Vec::with_capacity(cap);
        v.resize(cap, A::default());
        Logger { logging: true, buffer: v, cap: cap, pos: 0, overflow: false }
    }

    /// When logging is on, moves to the next slot, wrapping to the first
    /// after the last, and stores `a` there.
    pub fn write(&mut self, a: A)
        requires
            old(self).wf(),
        ensures
            old(self).wrote(*final(self), a),
    {
        if self.logging {
            if self.pos + 1 < self.cap {
                self.pos += 1;
            } else {
                self.pos = 0;
                self.overflow = true;
            }
            self.buffer.set(self.pos, a);
        }
    }

    /// The latest entry.
    pub fn read(&self) -> (r: &A)
        requires
            self.wf(),
        ensures
            *r == self.buffer@[self.position() as int],
    {
        &self.buffer[self.pos]
    }

    /// The latest `n + 1` entries, oldest first, when they lie in one run of
    /// the ring.
    pub fn reads(&self, n: usize) -> (r: &[A])
        requires
            self.wf(),
            n <= self.position(),
        ensures
            r@ == self.buffer@.subrange(self.position() - n, self.position() + 1int),
    {
        &self.buffer.as_slice()[self.pos - n..self.pos + 1]
    }
}

} // verus!
