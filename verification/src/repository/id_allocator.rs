use vstd::prelude::*;

verus! {

/// Hands out identifiers in increasing order, starting at 1, and never the
/// same one twice.
#[derive(Debug)]
pub struct IdAllocator {
    last: i32,
}

impl IdAllocator {
    #[verifier::type_invariant]
    spec fn never_negative(self) -> bool {
        self.last >= 0
    }

    /// The identifier issued last, or 0 while none has been issued.
    pub closed spec fn last_issued(&self) -> i32 {
        self.last
    }

    /// An allocator that has issued nothing yet.
    pub fn new() -> (ids: Self)
        ensures
            ids.last_issued() == 0,
    {
        IdAllocator { last: 0 }
    }

    /// The identifier issued last, or 0 while none has been issued.
    pub fn current(&self) -> (last: i32)
        ensures
            last == self.last_issued(),
            last >= 0,
    {
        proof {
            use_type_invariant(self);
        }
        self.last
    }

    /// Whether every identifier has been issued already.
    pub fn is_exhausted(&self) -> (exhausted: bool)
        ensures
            exhausted == (self.last_issued() == i32::MAX),
    {
        self.last == i32::MAX
    }

    /// Issues the next identifier: one more than the last.
    pub fn next(&mut self) -> (id: i32)
        requires
            old(self).last_issued() < i32::MAX,
        ensures
            id == old(self).last_issued() + 1,
            final(self).last_issued() == id,
    {
        proof {
            use_type_invariant(&*self);
        }
        self.last = self.last + 1;
        self.last
    }
}

} // verus!
