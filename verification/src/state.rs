use vstd::prelude::*;

verus! {

/// The one piece of shared mutable data: an integer counter.
///
/// Callers that share one `SharedState` across threads must serialize
/// access to it (for example behind a mutual-exclusion lock); every
/// operation here is a plain sequential mutation with an exact contract.
pub struct SharedState {
    counter: i32,
}

impl SharedState {
    /// The mathematical value of the counter.
    pub closed spec fn value(&self) -> int {
        self.counter as int
    }

    /// A fresh state starts at zero.
    pub fn new() -> (r: SharedState)
        ensures
            r.value() == 0,
    {
        SharedState { counter: 0 }
    }

    /// Adds one to the counter and returns the new value.
    pub fn increment(&mut self) -> (r: i32)
        requires
            old(self).value() < i32::MAX,
        ensures
            final(self).value() == old(self).value() + 1,
            r as int == final(self).value(),
    {
        self.counter = self.counter + 1;
        self.counter
    }

    /// Returns the current value without mutating it.
    pub fn get(&self) -> (r: i32)
        ensures
            r as int == self.value(),
    {
        self.counter
    }

    /// Sets the counter back to zero and returns zero.
    pub fn reset(&mut self) -> (r: i32)
        ensures
            final(self).value() == 0,
            r == 0,
    {
        self.counter = 0;
        self.counter
    }
}

/// The value of a counter that started at `v` after `n` serialized
/// increments, each of which adds exactly one (as `increment` ensures).
pub open spec fn value_after_increments(v: int, n: nat) -> int
    decreases n,
{
    if n == 0 {
        v
    } else {
        value_after_increments(v, (n - 1) as nat) + 1
    }
}

/// No update is lost: after `n` serialized increments the counter has
/// grown by exactly `n`, the number of increments issued. In particular,
/// `n` increments from zero leave the counter at exactly `n`.
pub proof fn lemma_no_lost_updates(v: int, n: nat)
    ensures
        value_after_increments(v, n) == v + n,
    decreases n,
{
    if n > 0 {
        lemma_no_lost_updates(v, (n - 1) as nat);
    }
}

} // verus!
