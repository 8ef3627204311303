//! Fresh binding names for one compilation: `v0`, `v1`, `v2`, ...
use vstd::prelude::*;
use crate::text::{decimal, decimal_string, cat};

verus! {

/// The name issued for counter value `c`.
pub open spec fn fresh_name(c: u64) -> Seq<char> {
    seq!['v'] + decimal(c as nat)
}

/// The counter value after `c`. The counter wraps only after 2^64 names,
/// which no compilation can reach.
pub open spec fn after(c: u64) -> u64 {
    if c == u64::MAX {
        0
    } else {
        (c + 1) as u64
    }
}

/// A monotonic counter handing out collision-free temporary names. Each
/// compilation owns its own allocator, so compilations do not share state.
pub struct Namer {
    pub next: u64,
}

impl Namer {
    /// An allocator whose first name is `v0`.
    pub fn new() -> (r: Namer)
        ensures
            r.next == 0,
    {
        Namer { next: 0 }
    }

    /// Starts the numbering over at `v0`.
    pub fn reset(&mut self)
        ensures
            final(self).next == 0,
    {
        self.next = 0;
    }

    /// The next fresh name.
    pub fn new_id(&mut self) -> (r: String)
        ensures
            r@ == fresh_name(old(self).next),
            final(self).next == after(old(self).next),
    {
        let i = self.next;
        self.next = self.next.wrapping_add(1);
        proof { reveal_strlit("v"); }
        cat("v", decimal_string(i).as_str())
    }
}

} // verus!
