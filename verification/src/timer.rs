//! The timer state machine and the duration registry.
//!
//! A `ClockrApp` holds one active-or-idle countdown, the configured
//! lengths for the three timer kinds, and the completed-session
//! counter. Remaining time is always derived from the current
//! instant, never stored, so every query is a pure function of the
//! state and of the millisecond count the caller passes in.

use vstd::prelude::*;

verus! {

/// Which named countdown a timer runs: only completed `Work`
/// countdowns add to the session tally.
#[derive(Clone, Copy, PartialEq, Eq, Structural, Debug)]
pub enum TimerKind {
    Work,
    Break,
    Long,
}

/// Factory-default work length, in minutes.
pub const DEFAULT_WORK_MINUTES: u64 = 25;
/// Factory-default break length, in minutes.
pub const DEFAULT_BREAK_MINUTES: u64 = 5;
/// Factory-default long-break length, in minutes.
pub const DEFAULT_LONG_MINUTES: u64 = 15;
/// Smallest configurable length, in minutes.
pub const MIN_MINUTES: u64 = 1;
/// Largest configurable length, in minutes.
pub const MAX_MINUTES: u64 = 50;

/// The whole timer application state: one countdown, the three
/// configured lengths with their factory defaults, and the count of
/// completed work sessions.
pub struct ClockrApp {
    /// Instant the current countdown began, in milliseconds.
    pub timer_start_ms: u64,
    /// Total length of the current countdown, in milliseconds.
    pub timer_duration_ms: u64,
    /// Whether a countdown is running.
    pub timer_active: bool,
    /// Latch set by the completion notifier when the countdown has
    /// just finished, so the cue fires at most once per completion.
    pub timer_just_finished: bool,
    /// How many work-kind countdowns have completed.
    pub completed_timer_count: u32,
    /// Which kind started the current countdown.
    pub timer_kind: TimerKind,
    /// Factory default for the work length, in minutes.
    pub default_timer_work: u64,
    /// Factory default for the break length, in minutes.
    pub default_timer_break: u64,
    /// Factory default for the long-break length, in minutes.
    pub default_timer_long: u64,
    /// Configured work length, in minutes.
    pub user_work_length: u64,
    /// Configured break length, in minutes.
    pub user_break_length: u64,
    /// Configured long-break length, in minutes.
    pub user_long_length: u64,
}

impl ClockrApp {
    /// The state every constructor establishes and every method
    /// preserves: the factory defaults are fixed, and each
    /// configured length lies in the allowed range.
    pub open spec fn wf(self) -> bool {
        &&& self.default_timer_work == DEFAULT_WORK_MINUTES
        &&& self.default_timer_break == DEFAULT_BREAK_MINUTES
        &&& self.default_timer_long == DEFAULT_LONG_MINUTES
        &&& MIN_MINUTES <= self.user_work_length <= MAX_MINUTES
        &&& MIN_MINUTES <= self.user_break_length <= MAX_MINUTES
        &&& MIN_MINUTES <= self.user_long_length <= MAX_MINUTES
    }

    /// Milliseconds elapsed since the countdown began, saturating at
    /// zero if the given instant lies before the start.
    pub open spec fn spec_elapsed_ms(self, now_ms: u64) -> int {
        if now_ms >= self.timer_start_ms {
            now_ms - self.timer_start_ms
        } else {
            0
        }
    }

    /// Remaining milliseconds: the full configured duration while
    /// idle, and `max(0, duration - elapsed)` while running.
    pub open spec fn spec_remaining_ms(self, now_ms: u64) -> int {
        if !self.timer_active {
            self.timer_duration_ms as int
        } else if self.spec_elapsed_ms(now_ms) >= self.timer_duration_ms {
            0
        } else {
            self.timer_duration_ms - self.spec_elapsed_ms(now_ms)
        }
    }

    /// A timer is finished when it is still running and its
    /// remaining time has reached zero.
    pub open spec fn spec_finished(self, now_ms: u64) -> bool {
        self.timer_active && self.spec_remaining_ms(now_ms) == 0
    }

    /// The state after `start_timer`: the countdown is replaced
    /// wholesale and the just-finished latch is cleared.
    pub open spec fn spec_started(self, now_ms: u64, duration_ms: u64, kind: TimerKind) -> ClockrApp {
        ClockrApp {
            timer_start_ms: now_ms,
            timer_duration_ms: duration_ms,
            timer_active: true,
            timer_just_finished: false,
            timer_kind: kind,
            ..self
        }
    }

    /// The state after `stop`: idle, with the configured duration
    /// and start instant left untouched (partial progress is
    /// discarded, not preserved).
    pub open spec fn spec_stopped(self) -> ClockrApp {
        ClockrApp { timer_active: false, ..self }
    }

    /// The state a fresh application starts in: idle, no completed
    /// sessions, a one-minute placeholder duration, and every length
    /// at its factory default.
    pub open spec fn spec_initial() -> ClockrApp {
        ClockrApp {
            timer_start_ms: 0,
            timer_duration_ms: 60_000,
            timer_active: false,
            timer_just_finished: false,
            completed_timer_count: 0,
            timer_kind: TimerKind::Break,
            default_timer_work: DEFAULT_WORK_MINUTES,
            default_timer_break: DEFAULT_BREAK_MINUTES,
            default_timer_long: DEFAULT_LONG_MINUTES,
            user_work_length: DEFAULT_WORK_MINUTES,
            user_break_length: DEFAULT_BREAK_MINUTES,
            user_long_length: DEFAULT_LONG_MINUTES,
        }
    }

    /// Creates the application state in its initial configuration.
    pub fn new() -> (app: ClockrApp)
        ensures
            app == ClockrApp::spec_initial(),
            app.wf(),
    {
        ClockrApp {
            timer_start_ms: 0,
            timer_duration_ms: 60_000,
            timer_active: false,
            timer_just_finished: false,
            completed_timer_count: 0,
            timer_kind: TimerKind::Break,
            default_timer_work: DEFAULT_WORK_MINUTES,
            default_timer_break: DEFAULT_BREAK_MINUTES,
            default_timer_long: DEFAULT_LONG_MINUTES,
            user_work_length: DEFAULT_WORK_MINUTES,
            user_break_length: DEFAULT_BREAK_MINUTES,
            user_long_length: DEFAULT_LONG_MINUTES,
        }
    }

    /// Starts a countdown of `seconds` seconds of the given kind at
    /// the given instant, unconditionally replacing whatever was
    /// running before. Never fails; interrupts without warning.
    pub fn start_timer(&mut self, now_ms: u64, seconds: u64, kind: TimerKind)
        requires
            seconds <= u64::MAX / 1000,
        ensures
            *final(self) == old(self).spec_started(now_ms, (seconds * 1000) as u64, kind),
    {
        self.timer_start_ms = now_ms;
        self.timer_duration_ms = seconds * 1000;
        self.timer_active = true;
        self.timer_just_finished = false;
        self.timer_kind = kind;
    }

    /// Stops the countdown without touching its duration or start
    /// instant; the full configured duration shows as remaining.
    pub fn stop(&mut self)
        ensures
            *final(self) == old(self).spec_stopped(),
    {
        self.timer_active = false;
    }

    /// Remaining time of the current countdown, in milliseconds, at
    /// the given instant.
    pub fn remaining_time(&self, now_ms: u64) -> (r: u64)
        ensures
            r == self.spec_remaining_ms(now_ms),
    {
        if !self.timer_active {
            return self.timer_duration_ms;
        }
        let elapsed: u64 = if now_ms >= self.timer_start_ms {
            now_ms - self.timer_start_ms
        } else {
            0
        };
        if elapsed >= self.timer_duration_ms {
            0
        } else {
            self.timer_duration_ms - elapsed
        }
    }

    /// Whether the countdown is running and has counted down to
    /// zero. A finished timer stays active (and finished) until a
    /// new one is started or it is stopped.
    pub fn is_timer_finished(&self, now_ms: u64) -> (r: bool)
        ensures
            r == self.spec_finished(now_ms),
    {
        self.timer_active && self.remaining_time(now_ms) == 0
    }

    /// The configured length of the given kind, in minutes.
    pub open spec fn spec_length(self, kind: TimerKind) -> u64 {
        match kind {
            TimerKind::Work => self.user_work_length,
            TimerKind::Break => self.user_break_length,
            TimerKind::Long => self.user_long_length,
        }
    }

    /// The state after `set_length`: one configured length replaced,
    /// everything else untouched.
    pub open spec fn spec_with_length(self, kind: TimerKind, minutes: u64) -> ClockrApp {
        match kind {
            TimerKind::Work => ClockrApp { user_work_length: minutes, ..self },
            TimerKind::Break => ClockrApp { user_break_length: minutes, ..self },
            TimerKind::Long => ClockrApp { user_long_length: minutes, ..self },
        }
    }

    /// The state after `reset_to_default`: every configured length
    /// back at its factory default, everything else untouched.
    pub open spec fn spec_reset(self) -> ClockrApp {
        ClockrApp {
            user_work_length: self.default_timer_work,
            user_break_length: self.default_timer_break,
            user_long_length: self.default_timer_long,
            ..self
        }
    }

    /// Currently configured minutes for the given kind.
    pub fn get_length(&self, kind: TimerKind) -> (minutes: u64)
        ensures
            minutes == self.spec_length(kind),
    {
        match kind {
            TimerKind::Work => self.user_work_length,
            TimerKind::Break => self.user_break_length,
            TimerKind::Long => self.user_long_length,
        }
    }

    /// Sets the configured minutes for the given kind. The input
    /// control keeps the value inside the allowed range, so an
    /// out-of-range value is a caller error, not handled here.
    /// Already-running timers are unaffected: a countdown copies its
    /// duration by value when it starts.
    pub fn set_length(&mut self, kind: TimerKind, minutes: u64)
        requires
            MIN_MINUTES <= minutes <= MAX_MINUTES,
        ensures
            *final(self) == old(self).spec_with_length(kind, minutes),
            old(self).wf() ==> final(self).wf(),
    {
        match kind {
            TimerKind::Work => self.user_work_length = minutes,
            TimerKind::Break => self.user_break_length = minutes,
            TimerKind::Long => self.user_long_length = minutes,
        }
    }

    /// Overwrites all three configured lengths with the factory
    /// defaults captured at startup.
    pub fn reset_to_default(&mut self)
        ensures
            *final(self) == old(self).spec_reset(),
            old(self).wf() ==> final(self).wf(),
    {
        self.user_work_length = self.default_timer_work;
        self.user_break_length = self.default_timer_break;
        self.user_long_length = self.default_timer_long;
    }

    /// Whether the host should keep requesting redraws: exactly
    /// while a countdown is running. Nothing else pushes updates, so
    /// this signal is what keeps the on-screen countdown live.
    pub fn should_repaint(&self) -> (r: bool)
        ensures
            r == self.timer_active,
    {
        self.timer_active
    }
}

/// A freshly started timer immediately shows its whole duration as
/// remaining and is not finished, for every positive duration and
/// every kind.
pub proof fn lemma_start_shows_full_duration(app: ClockrApp, now_ms: u64, duration_ms: u64, kind: TimerKind)
    requires
        duration_ms > 0,
    ensures
        app.spec_started(now_ms, duration_ms, kind).spec_remaining_ms(now_ms) == duration_ms,
        !app.spec_started(now_ms, duration_ms, kind).spec_finished(now_ms),
{
}

/// A stopped timer reports the configured duration unchanged as its
/// remaining time, at every instant: stopping discards partial
/// progress instead of preserving it.
pub proof fn lemma_stop_shows_full_duration(app: ClockrApp, now_ms: u64)
    ensures
        app.spec_stopped().spec_remaining_ms(now_ms) == app.timer_duration_ms,
{
}

/// Once a running timer's elapsed time has reached its duration,
/// its remaining time is zero and it is finished, and it stays so
/// at every later instant (only `start_timer` or `stop` leave the
/// finished state).
pub proof fn lemma_finished_persists(app: ClockrApp, t1_ms: u64, t2_ms: u64)
    requires
        app.timer_active,
        app.spec_elapsed_ms(t1_ms) >= app.timer_duration_ms,
        t1_ms <= t2_ms,
    ensures
        app.spec_remaining_ms(t1_ms) == 0,
        app.spec_finished(t1_ms),
        app.spec_remaining_ms(t2_ms) == 0,
        app.spec_finished(t2_ms),
{
}

/// After `reset_to_default`, the three configured lengths read back
/// as the factory defaults of 25, 5 and 15 minutes, regardless of
/// prior edits.
pub proof fn lemma_reset_restores_defaults(app: ClockrApp)
    requires
        app.wf(),
    ensures
        app.spec_reset().spec_length(TimerKind::Work) == DEFAULT_WORK_MINUTES,
        app.spec_reset().spec_length(TimerKind::Break) == DEFAULT_BREAK_MINUTES,
        app.spec_reset().spec_length(TimerKind::Long) == DEFAULT_LONG_MINUTES,
{
}

} // verus!
