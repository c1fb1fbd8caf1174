use vstd::prelude::*;

verus! {

/// How often a refused grab or ungrab is tried, and how long to wait after
/// each refusal.
#[derive(Clone, Copy, Debug)]
pub struct RetryPolicy {
    attempts: u32,
    delay_ms: u64,
}

impl RetryPolicy {
    #[verifier::type_invariant]
    spec fn at_least_once(self) -> bool {
        self.attempts >= 1
    }

    pub closed spec fn attempts_spec(self) -> nat {
        self.attempts as nat
    }

    pub closed spec fn delay_spec(self) -> u64 {
        self.delay_ms
    }

    /// A policy of `attempts` tries `delay_ms` milliseconds apart; a policy
    /// that never tries is refused.
    pub fn new(attempts: u32, delay_ms: u64) -> (r: Option<RetryPolicy>)
        ensures
            r is Some <==> attempts >= 1,
            r matches Some(p) ==> p.attempts_spec() == attempts && p.delay_spec() == delay_ms,
    {
        if attempts == 0 {
            None
        } else {
            Some(RetryPolicy { attempts, delay_ms })
        }
    }

    /// Fifty tries, ten milliseconds apart.
    pub fn standard() -> (r: RetryPolicy)
        ensures
            r.attempts_spec() == 50,
            r.delay_spec() == 10,
    {
        RetryPolicy { attempts: 50, delay_ms: 10 }
    }

    pub fn attempts(&self) -> (r: u32)
        ensures
            r == self.attempts_spec(),
            r >= 1,
    {
        proof {
            use_type_invariant(self);
        }
        self.attempts
    }

    pub fn delay_ms(&self) -> (r: u64)
        ensures
            r == self.delay_spec(),
    {
        self.delay_ms
    }
}

} // verus!
