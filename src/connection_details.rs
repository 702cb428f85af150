use vstd::prelude::*;

verus! {

/// Delay before the first attempt, and after every successful handshake.
pub const MIN_DELAY_MS: u64 = 1000;

/// Largest delay between two attempts.
pub const MAX_DELAY_MS: u64 = 60000;

/// The failure count stops growing here: the delay has reached its maximum.
pub const FAILURE_CEILING: u64 = 6;

/// Delay before the next attempt after `failures` consecutive failures:
/// the minimum, doubled for each failure, capped at the maximum.
pub open spec fn backoff_delay_ms(failures: nat) -> nat
    decreases failures,
{
    if failures == 0 {
        MIN_DELAY_MS as nat
    } else {
        let doubled = 2 * backoff_delay_ms((failures - 1) as nat);
        if doubled < MAX_DELAY_MS { doubled } else { MAX_DELAY_MS as nat }
    }
}

/// The delay never falls below the minimum nor rises above the maximum.
pub proof fn lemma_backoff_bounds(failures: nat)
    ensures
        MIN_DELAY_MS <= backoff_delay_ms(failures) <= MAX_DELAY_MS,
    decreases failures,
{
    if failures > 0 {
        lemma_backoff_bounds((failures - 1) as nat);
    }
}

/// One more failure never shortens the delay.
pub proof fn lemma_backoff_step(failures: nat)
    ensures
        backoff_delay_ms(failures) <= backoff_delay_ms(failures + 1),
{
    lemma_backoff_bounds(failures);
}

/// The delay is non-decreasing in the number of consecutive failures.
pub proof fn lemma_backoff_monotone(a: nat, b: nat)
    requires
        a <= b,
    ensures
        backoff_delay_ms(a) <= backoff_delay_ms(b),
    decreases b - a,
{
    if a < b {
        lemma_backoff_step(a);
        lemma_backoff_monotone(a + 1, b);
    }
}

/// Past the ceiling, further failures leave the delay at the maximum.
pub proof fn lemma_backoff_saturates(failures: nat)
    requires
        failures >= FAILURE_CEILING,
    ensures
        backoff_delay_ms(failures) == MAX_DELAY_MS,
    decreases failures,
{
    if failures > FAILURE_CEILING {
        lemma_backoff_saturates((failures - 1) as nat);
        lemma_backoff_bounds((failures - 1) as nat);
    } else {
        reveal_with_fuel(backoff_delay_ms, 7);
    }
}

/// Failure count after a run of attempt outcomes, `true` for a successful
/// handshake: a success resets the count, a failure adds one up to the ceiling.
pub open spec fn failures_after(start: nat, outcomes: Seq<bool>) -> nat
    decreases outcomes.len(),
{
    if outcomes.len() == 0 {
        start
    } else {
        let before = failures_after(start, outcomes.drop_last());
        if outcomes.last() {
            0
        } else if before < FAILURE_CEILING {
            before + 1
        } else {
            before
        }
    }
}

/// Over any run of attempts, a failure never shortens the delay before the
/// next attempt, and a success brings it back to the minimum at once.
pub proof fn law_backoff_run(start: nat, outcomes: Seq<bool>, i: int)
    requires
        0 < i <= outcomes.len(),
    ensures
        outcomes[i - 1] ==> backoff_delay_ms(failures_after(start, outcomes.take(i)))
            == MIN_DELAY_MS,
        !outcomes[i - 1] ==> backoff_delay_ms(failures_after(start, outcomes.take(i - 1)))
            <= backoff_delay_ms(failures_after(start, outcomes.take(i))),
{
    let run = outcomes.take(i);
    assert(run.drop_last() =~= outcomes.take(i - 1));
    lemma_backoff_step(failures_after(start, run.drop_last()));
}

/// Reconnection state: consecutive failed attempts and whether the link is up.
pub struct ConnectionDetails {
    count: u64,
    is_alive: bool,
}

impl ConnectionDetails {
    /// Consecutive failed attempts since the last successful handshake.
    pub closed spec fn failures(&self) -> nat {
        self.count as nat
    }

    /// Whether the last attempt succeeded.
    pub closed spec fn alive(&self) -> bool {
        self.is_alive
    }

    pub closed spec fn wf(&self) -> bool {
        self.count <= FAILURE_CEILING
    }

    /// Delay owed before the next attempt.
    pub open spec fn delay_ms(&self) -> nat {
        backoff_delay_ms(self.failures())
    }

    pub fn new() -> (r: Self)
        ensures
            r.wf(),
            r.failures() == 0,
            !r.alive(),
            r.delay_ms() == MIN_DELAY_MS,
    {
        ConnectionDetails { count: 0, is_alive: false }
    }

    /// Record a failed attempt: the count grows by one, up to the ceiling.
    pub fn fail_connect(&mut self)
        requires
            old(self).wf(),
        ensures
            final(self).wf(),
            !final(self).alive(),
            final(self).failures() == if old(self).failures() < FAILURE_CEILING {
                old(self).failures() + 1
            } else {
                old(self).failures()
            },
            old(self).delay_ms() <= final(self).delay_ms(),
    {
        proof {
            lemma_backoff_step(self.count as nat);
        }
        if self.count < FAILURE_CEILING {
            self.count = self.count + 1;
        }
        self.is_alive = false;
    }

    /// Record a successful handshake: the count goes back to zero.
    pub fn valid_connect(&mut self)
        ensures
            final(self).wf(),
            final(self).alive(),
            final(self).failures() == 0,
            final(self).delay_ms() == MIN_DELAY_MS,
    {
        self.count = 0;
        self.is_alive = true;
    }

    pub fn is_alive(&self) -> (r: bool)
        ensures
            r == self.alive(),
    {
        self.is_alive
    }

    /// Milliseconds to wait before the next attempt.
    pub fn get_delay_ms(&self) -> (r: u64)
        requires
            self.wf(),
        ensures
            r == self.delay_ms(),
    {
        let mut delay: u64 = MIN_DELAY_MS;
        let mut i: u64 = 0;
        while i < self.count
            invariant
                self.wf(),
                i <= self.count,
                delay == backoff_delay_ms(i as nat),
            decreases self.count - i,
        {
            proof {
                lemma_backoff_bounds(i as nat);
            }
            let doubled = delay * 2;
            delay = if doubled < MAX_DELAY_MS { doubled } else { MAX_DELAY_MS };
            i = i + 1;
        }
        delay
    }
}

} // verus!
