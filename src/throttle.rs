//! Fires an action once every fixed number of calls.

use vstd::prelude::*;

verus! {

/// Counts calls and fires on every `interval`-th one.
pub struct Throttler {
    interval: usize,
    count: usize,
    calls: Ghost<nat>,
}

/// Whether the `k`-th call (counting from one) to a throttler with the given
/// interval fires.
pub open spec fn fires_on_call(interval: nat, k: nat) -> bool {
    k % interval == 0
}

impl Throttler {
    /// The configured interval.
    pub closed spec fn interval_spec(&self) -> nat {
        self.interval as nat
    }

    /// Number of calls made to `throttle` since creation.
    pub closed spec fn calls(&self) -> nat {
        self.calls@
    }

    /// Counter within the interval matches the call count.
    pub closed spec fn wf(&self) -> bool {
        &&& self.interval > 0
        &&& self.count < self.interval
        &&& self.count as nat == self.calls@ % (self.interval as nat)
    }

    /// Create a throttler that fires once every `interval` calls.
    pub fn new(interval: usize) -> (r: Self)
        requires
            interval > 0,
        ensures
            r.wf(),
            r.interval_spec() == interval,
            r.calls() == 0,
    {
        proof {
            vstd::arithmetic::div_mod::lemma_small_mod(0, interval as nat);
        }
        Throttler { interval, count: 0, calls: Ghost(0) }
    }

    /// The configured interval.
    pub fn interval(&self) -> (r: usize)
        ensures
            r == self.interval_spec(),
    {
        self.interval
    }

    /// Record one call; return whether it is a multiple of the interval, in
    /// which case the caller performs the throttled action.
    pub fn throttle(&mut self) -> (fire: bool)
        requires
            old(self).wf(),
        ensures
            final(self).wf(),
            final(self).interval_spec() == old(self).interval_spec(),
            final(self).calls() == old(self).calls() + 1,
            fire == fires_on_call(old(self).interval_spec(), final(self).calls()),
    {
        let ghost n = self.interval as nat;
        let ghost c = self.calls@;
        proof {
            lemma_step_mod(c, n);
        }
        self.calls = Ghost(c + 1);
        if self.count + 1 == self.interval {
            self.count = 0;
            true
        } else {
            self.count = self.count + 1;
            false
        }
    }
}

/// Within each run of `interval` consecutive calls, starting after a multiple
/// of the interval, exactly the last call fires.
pub proof fn lemma_fires_once_per_interval(interval: nat, run: nat, j: nat)
    requires
        interval > 0,
        1 <= j <= interval,
    ensures
        fires_on_call(interval, run * interval + j) <==> j == interval,
{
    if j == interval {
        assert(run * interval + j == (run + 1) * interval) by (nonlinear_arith)
            requires
                j == interval,
        ;
        vstd::arithmetic::div_mod::lemma_mod_multiples_basic((run + 1) as int, interval as int);
    } else {
        vstd::arithmetic::div_mod::lemma_mod_multiples_vanish(run as int, j as int, interval as int);
        vstd::arithmetic::div_mod::lemma_small_mod(j, interval);
        assert(interval * run + j == run * interval + j) by (nonlinear_arith);
    }
}

/// Taking one more step moves the remainder up by one, wrapping to zero.
proof fn lemma_step_mod(c: nat, n: nat)
    requires
        n > 0,
    ensures
        (c + 1) % n == if c % n + 1 == n { 0 } else { c % n + 1 },
{
    vstd::arithmetic::div_mod::lemma_fundamental_div_mod(c as int, n as int);
    vstd::arithmetic::div_mod::lemma_fundamental_div_mod((c + 1) as int, n as int);
    vstd::arithmetic::div_mod::lemma_mod_bound(c as int, n as int);
    vstd::arithmetic::div_mod::lemma_add_mod_noop(c as int, 1, n as int);
    if n == 1 {
        vstd::arithmetic::div_mod::lemma_mod_self_0(1);
    } else {
        vstd::arithmetic::div_mod::lemma_small_mod(1, n);
        if c % n + 1 == n {
            vstd::arithmetic::div_mod::lemma_mod_self_0(n as int);
        } else {
            vstd::arithmetic::div_mod::lemma_small_mod((c % n + 1) as nat, n);
        }
    }
}

} // verus!
