//! The periodic poll of run-loop and managed-runtime platforms.
//!
//! Where the native loop has no idle hook, a repeating timer of a short,
//! fixed interval asks for a poll; on a managed runtime that runtime's own
//! callback does. Either way the tick advances the runtime only if the
//! runtime is still there to be advanced. The runtime itself is the
//! caller's: a tick is given what the weak handle resolved to and the call
//! that polls it.

use vstd::prelude::*;

verus! {

/// The interval, in milliseconds, at which the runtime is polled unless the
/// application chooses another.
pub const DEFAULT_INTERVAL_MS: u64 = 10;

/// The longest interval, in milliseconds, at which polling still appears
/// interactive.
pub const INTERACTIVE_LIMIT_MS: u64 = 16;

/// What a tick did.
#[derive(Clone, Copy, Debug, PartialEq, Eq, Structural)]
pub enum TickAction {
    /// The runtime was alive and has been polled once.
    Polled,
    /// The runtime was gone: nothing was done.
    Skipped,
}

/// What a tick does, given whether the runtime is still alive.
pub open spec fn tick_action(alive: bool) -> TickAction {
    if alive {
        TickAction::Polled
    } else {
        TickAction::Skipped
    }
}

/// Handles one tick. `runtime` is what resolving the tick's weak handle
/// gave, and `poll` advances a runtime once. A live runtime is handed to
/// `poll`; a vanished one makes the tick a no-op, and `poll` is dropped
/// unused.
pub fn on_tick<T, P>(runtime: Option<T>, poll: P) -> (action: TickAction) where P: FnOnce(T)
    requires
        runtime matches Some(rt) ==> call_requires(poll, (rt,)),
    ensures
        action == tick_action(runtime is Some),
        runtime matches Some(rt) ==> call_ensures(poll, (rt,), ()),
{
    match runtime {
        Some(rt) => {
            poll(rt);
            TickAction::Polled
        },
        None => TickAction::Skipped,
    }
}

/// How the polling timer is set up.
#[derive(Clone, Copy, Debug)]
pub struct TimerConfig {
    interval_ms: u64,
}

impl TimerConfig {
    #[verifier::type_invariant]
    spec fn positive(self) -> bool {
        self.interval_ms >= 1
    }

    /// The interval between two firings, in milliseconds.
    pub closed spec fn interval(self) -> int {
        self.interval_ms as int
    }

    /// The default setup: a repeating timer of `DEFAULT_INTERVAL_MS`.
    pub fn new() -> (config: TimerConfig)
        ensures
            config.interval() == DEFAULT_INTERVAL_MS,
    {
        TimerConfig { interval_ms: DEFAULT_INTERVAL_MS }
    }

    /// A repeating timer of `interval_ms` milliseconds; none of zero, which
    /// would never leave the native loop a turn.
    pub fn with_interval(interval_ms: u64) -> (config: Option<TimerConfig>)
        ensures
            interval_ms == 0 ==> config is None,
            interval_ms >= 1 ==> (config matches Some(c) && c.interval() == interval_ms),
    {
        if interval_ms == 0 {
            None
        } else {
            Some(TimerConfig { interval_ms })
        }
    }

    /// The interval between two firings, in milliseconds; never zero.
    pub fn interval_ms(&self) -> (ms: u64)
        ensures
            ms == self.interval(),
            ms >= 1,
    {
        proof {
            use_type_invariant(self);
        }
        self.interval_ms
    }

    /// Whether the timer fires again after it has fired. The polling timer
    /// always does.
    pub fn repeats(&self) -> (repeats: bool)
        ensures
            repeats,
    {
        true
    }

    /// Whether the interval is short enough to appear interactive.
    pub fn is_interactive(&self) -> (interactive: bool)
        ensures
            interactive == (self.interval() <= INTERACTIVE_LIMIT_MS),
    {
        self.interval_ms <= INTERACTIVE_LIMIT_MS
    }
}

/// A repeating timer driven by readings of a clock, in milliseconds: the
/// polling timer for a loop that offers a clock and no timer of its own, and
/// a stand-in for the native timer wherever time is injected.
pub struct PollTimer {
    interval_ms: u64,
    due_ms: u64,
}

impl PollTimer {
    #[verifier::type_invariant]
    spec fn positive(self) -> bool {
        self.interval_ms >= 1
    }

    /// The interval between a firing and the next time the timer is due.
    pub closed spec fn interval(self) -> int {
        self.interval_ms as int
    }

    /// The time from which the timer fires.
    pub closed spec fn due(self) -> int {
        self.due_ms as int
    }

    /// When a timer of `interval` that was started or has fired at `now` is
    /// due next; a time beyond the clock's range is never reached.
    pub open spec fn due_after(now: int, interval: int) -> int {
        if now + interval <= u64::MAX {
            now + interval
        } else {
            u64::MAX as int
        }
    }

    /// Starts the timer at `now`: it is first due one interval later.
    pub fn start(config: &TimerConfig, now: u64) -> (timer: PollTimer)
        ensures
            timer.interval() == config.interval(),
            timer.due() == Self::due_after(now as int, config.interval()),
    {
        let interval_ms = config.interval_ms();
        PollTimer { interval_ms, due_ms: now.saturating_add(interval_ms) }
    }

    /// Shows the timer the clock. It fires if and only if it is due, and is
    /// then due again one interval after `now`; otherwise nothing changes.
    pub fn on_clock(&mut self, now: u64) -> (fired: bool)
        ensures
            fired == (now >= old(self).due()),
            final(self).interval() == old(self).interval(),
            fired ==> final(self).due() == Self::due_after(now as int, old(self).interval()),
            !fired ==> final(self).due() == old(self).due(),
    {
        proof {
            use_type_invariant(&*self);
        }
        if now >= self.due_ms {
            self.due_ms = now.saturating_add(self.interval_ms);
            true
        } else {
            false
        }
    }
}

/// The times at which a timer of `interval` that is due at `due` fires when
/// it is shown `readings` one after the other: the readings at which
/// `on_clock` answers `true`.
pub open spec fn fire_times(due: int, interval: int, readings: Seq<u64>) -> Seq<u64>
    decreases readings.len(),
{
    if readings.len() == 0 {
        Seq::empty()
    } else if readings[0] >= due {
        seq![readings[0]] + fire_times(
            PollTimer::due_after(readings[0] as int, interval),
            interval,
            readings.skip(1),
        )
    } else {
        fire_times(due, interval, readings.skip(1))
    }
}

/// Starts a timer of `config` at `started_at`, shows it `readings` one after
/// the other, and returns the readings at which it fired, which are the
/// times at which the runtime is polled.
pub fn poll_times(config: &TimerConfig, started_at: u64, readings: &Vec<u64>) -> (fired: Vec<u64>)
    ensures
        fired@ == fire_times(
            PollTimer::due_after(started_at as int, config.interval()),
            config.interval(),
            readings@,
        ),
{
    let mut timer = PollTimer::start(config, started_at);
    let mut fired: Vec<u64> = Vec::new();
    let ghost first_due = timer.due();
    let ghost interval = config.interval();
    let mut i: usize = 0;
    assert(readings@.skip(0) == readings@);
    assert(fired@ + fire_times(first_due, interval, readings@) == fire_times(
        first_due,
        interval,
        readings@,
    ));
    while i < readings.len()
        invariant
            i <= readings.len(),
            timer.interval() == interval,
            fired@ + fire_times(timer.due(), interval, readings@.skip(i as int)) == fire_times(
                first_due,
                interval,
                readings@,
            ),
        decreases readings.len() - i,
    {
        let ghost rest = readings@.skip(i as int);
        let ghost due = timer.due();
        assert(rest.len() > 0 && rest[0] == readings@[i as int]);
        assert(rest.skip(1) == readings@.skip(i + 1));
        let now = readings[i];
        if timer.on_clock(now) {
            fired.push(now);
            assert(fired@ + fire_times(timer.due(), interval, rest.skip(1)) == fired@.drop_last() + (
            seq![now] + fire_times(timer.due(), interval, rest.skip(1))));
        }
        i = i + 1;
    }
    assert(readings@.skip(i as int).len() == 0);
    assert(fired@ + Seq::<u64>::empty() == fired@);
    fired
}

/// Whether `readings` are successive readings of a clock that is read at
/// least every `jitter` milliseconds, the first of them no later than
/// `jitter` after `since`.
pub open spec fn read_within(since: int, jitter: int, readings: Seq<u64>) -> bool {
    &&& readings.len() > 0 ==> since <= readings[0] <= since + jitter
    &&& forall|i: int|
        0 <= i < readings.len() - 1 ==> readings[i] <= #[trigger] readings[i + 1] <= readings[i]
            + jitter
}

/// Whether each of `fired` lies at least `interval` and at most `interval`
/// and `jitter` after the one before it, the first of them after `since`.
pub open spec fn gaps_bounded(since: int, interval: int, jitter: int, fired: Seq<u64>) -> bool {
    forall|k: int|
        0 <= k < fired.len() ==> {
            let before = if k == 0 {
                since
            } else {
                fired[k - 1] as int
            };
            interval <= #[trigger] fired[k] - before <= interval + jitter
        }
}

/// The interval bound, from any point of a run: `last` is when the timer was
/// started or fired last, `seen` the latest reading since, at which it did
/// not fire.
proof fn lemma_gaps_from(last: int, seen: int, interval: int, jitter: int, readings: Seq<u64>)
    requires
        interval >= 1,
        jitter >= 0,
        last <= seen,
        seen == last || seen < last + interval,
        last + interval <= u64::MAX,
        read_within(seen, jitter, readings),
        forall|i: int| 0 <= i < readings.len() ==> readings[i] + interval <= u64::MAX,
    ensures
        gaps_bounded(last, interval, jitter, fire_times(last + interval, interval, readings)),
    decreases readings.len(),
{
    if readings.len() > 0 {
        let now = readings[0];
        let rest = readings.skip(1);
        assert(read_within(now as int, jitter, rest)) by {
            if rest.len() > 0 {
                assert(rest[0] == readings[0int + 1]);
            }
            assert forall|i: int| 0 <= i < rest.len() - 1 implies rest[i] <= #[trigger] rest[i + 1]
                <= rest[i] + jitter by {
                assert(rest[i] == readings[i + 1]);
                assert(rest[i + 1] == readings[(i + 1) + 1]);
            }
        }
        assert forall|i: int| 0 <= i < rest.len() implies rest[i] + interval <= u64::MAX by {
            assert(rest[i] == readings[i + 1]);
        }
        if now >= last + interval {
            lemma_gaps_from(now as int, now as int, interval, jitter, rest);
            let later = fire_times(now + interval, interval, rest);
            let fired = fire_times(last + interval, interval, readings);
            assert(fired == seq![now] + later);
            assert forall|k: int| 0 <= k < fired.len() implies {
                let before = if k == 0 {
                    last
                } else {
                    fired[k - 1] as int
                };
                interval <= #[trigger] fired[k] - before <= interval + jitter
            } by {
                if k > 0 {
                    assert(fired[k] == later[k - 1]);
                    if k > 1 {
                        assert(fired[k - 1] == later[k - 2]);
                    }
                }
            }
        } else {
            lemma_gaps_from(last, now as int, interval, jitter, rest);
        }
    }
}

/// The interval bound: a timer that is started at `started_at` and shown a
/// clock that is read at least every `jitter` milliseconds polls the runtime
/// first, and then again and again, no sooner than one interval and no later
/// than one interval and `jitter` after the time before. The times must lie
/// within the clock's range.
pub proof fn lemma_poll_gap_bounded(started_at: int, interval: int, jitter: int, readings: Seq<u64>)
    requires
        interval >= 1,
        jitter >= 0,
        0 <= started_at,
        started_at + interval <= u64::MAX,
        read_within(started_at, jitter, readings),
        forall|i: int| 0 <= i < readings.len() ==> readings[i] + interval <= u64::MAX,
    ensures
        gaps_bounded(
            started_at,
            interval,
            jitter,
            fire_times(PollTimer::due_after(started_at, interval), interval, readings),
        ),
{
    lemma_gaps_from(started_at, started_at, interval, jitter, readings);
}

} // verus!
