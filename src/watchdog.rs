use vstd::prelude::*;

verus! {

/// Idle window: without a ping for this long, the session is closed.
pub const WATCHDOG_WINDOW_MS: u64 = 40000;

/// Idle timer of a live session, on a monotonic millisecond clock.
pub struct Watchdog {
    last_reset_ms: u64,
    fired: bool,
}

/// What the watchdog knows: when it was last reset and whether it has fired.
pub struct WatchdogView {
    pub last_reset: nat,
    pub fired: bool,
}

/// Whether a check at `now` fires the watchdog.
pub open spec fn fires_at(w: WatchdogView, now: nat) -> bool {
    !w.fired && now >= w.last_reset + WATCHDOG_WINDOW_MS
}

/// The watchdog after a check at `now`.
pub open spec fn after_check(w: WatchdogView, now: nat) -> WatchdogView {
    if fires_at(w, now) {
        WatchdogView { last_reset: w.last_reset, fired: true }
    } else {
        w
    }
}

/// One input of the watchdog: a ping, or a check of the clock.
pub enum WatchdogInput {
    Ping(nat),
    Check(nat),
}

/// The watchdog after a run of inputs.
pub open spec fn run_watchdog(w: WatchdogView, inputs: Seq<WatchdogInput>) -> WatchdogView
    decreases inputs.len(),
{
    if inputs.len() == 0 {
        w
    } else {
        let before = run_watchdog(w, inputs.drop_last());
        match inputs.last() {
            WatchdogInput::Ping(t) => WatchdogView { last_reset: t, fired: false },
            WatchdogInput::Check(t) => after_check(before, t),
        }
    }
}

/// Number of checks in a run that fire the watchdog.
pub open spec fn fire_count(w: WatchdogView, inputs: Seq<WatchdogInput>) -> nat
    decreases inputs.len(),
{
    if inputs.len() == 0 {
        0
    } else {
        let before = run_watchdog(w, inputs.drop_last());
        let earlier = fire_count(w, inputs.drop_last());
        match inputs.last() {
            WatchdogInput::Ping(_) => earlier,
            WatchdogInput::Check(t) => if fires_at(before, t) {
                earlier + 1
            } else {
                earlier
            },
        }
    }
}

/// Time of the last reset before the end of a run.
pub open spec fn last_reset_after(w: WatchdogView, inputs: Seq<WatchdogInput>) -> nat {
    run_watchdog(w, inputs).last_reset
}

/// Every check of the run comes less than one window after the latest reset
/// before it.
pub open spec fn pinged_in_time(w: WatchdogView, inputs: Seq<WatchdogInput>) -> bool {
    forall|i: int|
        0 <= i < inputs.len() ==> match #[trigger] inputs[i] {
            WatchdogInput::Check(t) => t < last_reset_after(w, inputs.take(i))
                + WATCHDOG_WINDOW_MS,
            WatchdogInput::Ping(_) => true,
        }
}

/// A run holds no ping.
pub open spec fn no_pings(inputs: Seq<WatchdogInput>) -> bool {
    forall|i: int| 0 <= i < inputs.len() ==> (#[trigger] inputs[i]) is Check
}

/// Pings that come within every window keep the watchdog from firing.
pub proof fn law_watchdog_quiet(w: WatchdogView, inputs: Seq<WatchdogInput>)
    requires
        !w.fired,
        pinged_in_time(w, inputs),
    ensures
        fire_count(w, inputs) == 0,
        !run_watchdog(w, inputs).fired,
    decreases inputs.len(),
{
    if inputs.len() > 0 {
        let prefix = inputs.drop_last();
        assert forall|i: int| 0 <= i < prefix.len() implies match #[trigger] prefix[i] {
            WatchdogInput::Check(t) => t < last_reset_after(w, prefix.take(i))
                + WATCHDOG_WINDOW_MS,
            WatchdogInput::Ping(_) => true,
        } by {
            assert(prefix[i] == inputs[i]);
            assert(prefix.take(i) =~= inputs.take(i));
        }
        law_watchdog_quiet(w, prefix);
        assert(inputs.take(inputs.len() - 1) =~= prefix);
        assert(inputs[inputs.len() - 1] == inputs.last());
    }
}

/// Without pings, the checks of a run fire the watchdog at most once, and
/// exactly once when a check comes a full window after the last reset.
pub proof fn law_watchdog_fires_once(w: WatchdogView, inputs: Seq<WatchdogInput>)
    requires
        !w.fired,
        no_pings(inputs),
    ensures
        fire_count(w, inputs) <= 1,
        run_watchdog(w, inputs).last_reset == w.last_reset,
        run_watchdog(w, inputs).fired <==> fire_count(w, inputs) == 1,
        (exists|i: int|
            0 <= i < inputs.len() && #[trigger] inputs[i] is Check && inputs[i]->Check_0
                >= w.last_reset + WATCHDOG_WINDOW_MS) ==> fire_count(w, inputs) == 1,
    decreases inputs.len(),
{
    if inputs.len() > 0 {
        let prefix = inputs.drop_last();
        assert forall|i: int| 0 <= i < prefix.len() implies (#[trigger] prefix[i]) is Check by {
            assert(prefix[i] == inputs[i]);
        }
        law_watchdog_fires_once(w, prefix);
        assert(inputs[inputs.len() - 1] == inputs.last());
        if exists|i: int|
            0 <= i < inputs.len() && #[trigger] inputs[i] is Check && inputs[i]->Check_0
                >= w.last_reset + WATCHDOG_WINDOW_MS {
            let i = choose|i: int|
                0 <= i < inputs.len() && #[trigger] inputs[i] is Check && inputs[i]->Check_0
                    >= w.last_reset + WATCHDOG_WINDOW_MS;
            if i < prefix.len() {
                assert(prefix[i] == inputs[i]);
            }
        }
    }
}

impl Watchdog {
    pub closed spec fn view(&self) -> WatchdogView {
        WatchdogView { last_reset: self.last_reset_ms as nat, fired: self.fired }
    }

    /// A watchdog armed at `now_ms`.
    pub fn new(now_ms: u64) -> (r: Self)
        ensures
            r.view() == (WatchdogView { last_reset: now_ms as nat, fired: false }),
    {
        Watchdog { last_reset_ms: now_ms, fired: false }
    }

    /// A ping restarts the window at `now_ms`.
    pub fn reset(&mut self, now_ms: u64)
        ensures
            final(self).view() == (WatchdogView { last_reset: now_ms as nat, fired: false }),
    {
        self.last_reset_ms = now_ms;
        self.fired = false;
    }

    /// Check the clock: returns whether the watchdog fires now. It fires at
    /// most once per window.
    pub fn check(&mut self, now_ms: u64) -> (r: bool)
        ensures
            r == fires_at(old(self).view(), now_ms as nat),
            final(self).view() == after_check(old(self).view(), now_ms as nat),
    {
        if !self.fired && now_ms >= self.last_reset_ms && now_ms - self.last_reset_ms
            >= WATCHDOG_WINDOW_MS {
            self.fired = true;
            true
        } else {
            false
        }
    }

    /// Clock reading at which the current window ends.
    pub fn deadline_ms(&self) -> (r: u64)
        ensures
            r == if self.view().last_reset + WATCHDOG_WINDOW_MS <= u64::MAX {
                self.view().last_reset + WATCHDOG_WINDOW_MS
            } else {
                u64::MAX as int
            },
    {
        self.last_reset_ms.saturating_add(WATCHDOG_WINDOW_MS)
    }
}

} // verus!
