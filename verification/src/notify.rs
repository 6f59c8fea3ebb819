//! The completion notifier and the per-frame update step.
//!
//! Once per frame the host evaluates the notifier: on the single
//! transition into "just finished" it reports that the audible cue
//! should play and, for work-kind timers only, counts one completed
//! session. The latch in the state keeps both side effects to at
//! most one per completed countdown, however many frames observe the
//! finished state.

use vstd::prelude::*;

use crate::timer::ClockrApp;
use crate::timer::TimerKind;

verus! {

/// The discrete input of one frame: which of the three shortcut keys
/// were pressed and which of the three start buttons were clicked.
#[derive(Clone, Copy, PartialEq, Eq, Structural, Debug)]
pub struct FrameInput {
    /// Work shortcut pressed (toggles the timer).
    pub work_key: bool,
    /// Break shortcut pressed (toggles the timer).
    pub break_key: bool,
    /// Long-break shortcut pressed (toggles the timer).
    pub long_key: bool,
    /// Start-work button clicked (always restarts).
    pub work_click: bool,
    /// Start-break button clicked (always restarts).
    pub break_click: bool,
    /// Start-long-break button clicked (always restarts).
    pub long_click: bool,
}

impl FrameInput {
    /// A frame in which nothing was pressed or clicked.
    pub fn none() -> (input: FrameInput)
        ensures
            input == (FrameInput {
                work_key: false,
                break_key: false,
                long_key: false,
                work_click: false,
                break_click: false,
                long_click: false,
            }),
    {
        FrameInput {
            work_key: false,
            break_key: false,
            long_key: false,
            work_click: false,
            break_click: false,
            long_click: false,
        }
    }
}

/// What one frame asks of the host: play the audible cue, and keep
/// scheduling redraws.
#[derive(Clone, Copy, PartialEq, Eq, Structural, Debug)]
pub struct FrameOutput {
    /// The countdown finished on this very frame: play the cue once.
    pub play_cue: bool,
    /// A countdown is running: request another redraw.
    pub repaint: bool,
}

impl ClockrApp {
    /// The edge condition: the countdown has just reached zero and no
    /// earlier frame has noticed. True on at most one evaluation per
    /// completed countdown.
    pub open spec fn spec_fires(self, now_ms: u64) -> bool {
        self.spec_finished(now_ms) && !self.timer_just_finished
    }

    /// The state after one notifier evaluation: the latch follows the
    /// edge (set on firing, re-armed while running and unfinished),
    /// and the session counter grows by one exactly on a work-kind
    /// firing.
    pub open spec fn spec_notified(self, now_ms: u64) -> ClockrApp {
        ClockrApp {
            timer_just_finished: if self.spec_fires(now_ms) {
                true
            } else if self.timer_active && !self.spec_finished(now_ms) {
                false
            } else {
                self.timer_just_finished
            },
            completed_timer_count: if self.spec_fires(now_ms) && self.timer_kind == TimerKind::Work {
                (self.completed_timer_count + 1) as u32
            } else {
                self.completed_timer_count
            },
            ..self
        }
    }

    /// Evaluates the completion edge once. Returns whether the cue
    /// should play now; the host owns the actual audio output and
    /// may silently fail to play it.
    pub fn notifier_step(&mut self, now_ms: u64) -> (fired: bool)
        requires
            old(self).completed_timer_count < u32::MAX,
        ensures
            fired == old(self).spec_fires(now_ms),
            *final(self) == old(self).spec_notified(now_ms),
    {
        let finished_now =
            self.is_timer_finished(now_ms) && self.timer_active && !self.timer_just_finished;
        if finished_now {
            self.timer_just_finished = true;
            if self.timer_kind == TimerKind::Work {
                self.completed_timer_count = self.completed_timer_count + 1;
            }
        }
        if self.timer_active && !self.is_timer_finished(now_ms) {
            self.timer_just_finished = false;
        }
        finished_now
    }

    /// The state after a shortcut key for `kind`: stop if anything is
    /// running, otherwise start a countdown of the configured length.
    pub open spec fn spec_key_toggled(self, now_ms: u64, kind: TimerKind) -> ClockrApp {
        if self.timer_active {
            self.spec_stopped()
        } else {
            self.spec_started(now_ms, (self.spec_length(kind) * 60 * 1000) as u64, kind)
        }
    }

    /// Handles one press of the shortcut key bound to `kind`:
    /// a running timer is stopped, an idle one starts with the
    /// currently configured length for that kind.
    pub fn handle_key(&mut self, now_ms: u64, kind: TimerKind)
        requires
            old(self).wf(),
        ensures
            *final(self) == old(self).spec_key_toggled(now_ms, kind),
            final(self).wf(),
    {
        if self.timer_active {
            self.stop();
        } else {
            let minutes = self.get_length(kind);
            self.start_timer(now_ms, 60 * minutes, kind);
        }
    }

    /// Handles one click of the start button bound to `kind`: always
    /// starts a fresh countdown of the configured length, replacing
    /// whatever was running (buttons restart, keys toggle).
    pub fn handle_start_click(&mut self, now_ms: u64, kind: TimerKind)
        requires
            old(self).wf(),
        ensures
            *final(self) == old(self).spec_started(
                now_ms,
                (old(self).spec_length(kind) * 60 * 1000) as u64,
                kind,
            ),
            final(self).wf(),
    {
        let minutes = self.get_length(kind);
        self.start_timer(now_ms, 60 * minutes, kind);
    }

    /// The state after one whole frame: the notifier runs first, then
    /// each reported key press toggles, then each reported click
    /// restarts, in the fixed order work, break, long.
    pub open spec fn spec_update(self, now_ms: u64, input: FrameInput) -> ClockrApp {
        let s1 = self.spec_notified(now_ms);
        let s2 = if input.work_key { s1.spec_key_toggled(now_ms, TimerKind::Work) } else { s1 };
        let s3 = if input.break_key { s2.spec_key_toggled(now_ms, TimerKind::Break) } else { s2 };
        let s4 = if input.long_key { s3.spec_key_toggled(now_ms, TimerKind::Long) } else { s3 };
        let s5 = if input.work_click {
            s4.spec_started(now_ms, (s4.spec_length(TimerKind::Work) * 60 * 1000) as u64, TimerKind::Work)
        } else {
            s4
        };
        let s6 = if input.break_click {
            s5.spec_started(now_ms, (s5.spec_length(TimerKind::Break) * 60 * 1000) as u64, TimerKind::Break)
        } else {
            s5
        };
        if input.long_click {
            s6.spec_started(now_ms, (s6.spec_length(TimerKind::Long) * 60 * 1000) as u64, TimerKind::Long)
        } else {
            s6
        }
    }

    /// One whole frame of the core: evaluate the completion edge,
    /// report whether to play the cue and whether to keep
    /// repainting, then apply the frame's key presses and button
    /// clicks. The repaint signal reflects the running state as the
    /// notifier saw it, before this frame's input takes effect.
    pub fn update_step(&mut self, now_ms: u64, input: FrameInput) -> (out: FrameOutput)
        requires
            old(self).wf(),
            old(self).completed_timer_count < u32::MAX,
        ensures
            *final(self) == old(self).spec_update(now_ms, input),
            out.play_cue == old(self).spec_fires(now_ms),
            out.repaint == old(self).timer_active,
            final(self).wf(),
    {
        let fired = self.notifier_step(now_ms);
        let repaint = self.should_repaint();
        if input.work_key {
            self.handle_key(now_ms, TimerKind::Work);
        }
        if input.break_key {
            self.handle_key(now_ms, TimerKind::Break);
        }
        if input.long_key {
            self.handle_key(now_ms, TimerKind::Long);
        }
        if input.work_click {
            self.handle_start_click(now_ms, TimerKind::Work);
        }
        if input.break_click {
            self.handle_start_click(now_ms, TimerKind::Break);
        }
        if input.long_click {
            self.handle_start_click(now_ms, TimerKind::Long);
        }
        FrameOutput { play_cue: fired, repaint }
    }
}

/// One completion notifies at most once: after an evaluation on
/// which the cue fired, a later evaluation of the same countdown
/// neither fires nor changes the session counter, however many
/// frames observe the finished state.
pub proof fn lemma_notifies_at_most_once(app: ClockrApp, t1_ms: u64, t2_ms: u64)
    requires
        app.spec_fires(t1_ms),
    ensures
        !app.spec_notified(t1_ms).spec_fires(t2_ms),
        app.spec_notified(t1_ms).spec_notified(t2_ms).completed_timer_count
            == app.spec_notified(t1_ms).completed_timer_count,
{
}

/// The session counter never counts break- or long-kind completions:
/// an evaluation of a non-work timer leaves it unchanged.
pub proof fn lemma_no_session_for_non_work(app: ClockrApp, now_ms: u64)
    requires
        app.timer_kind != TimerKind::Work,
    ensures
        app.spec_notified(now_ms).completed_timer_count == app.completed_timer_count,
{
}

/// A work-kind completion counts exactly one session: on the frame
/// the cue fires the counter grows by one, and the notifier never
/// touches the countdown itself (kind, duration, start, activity),
/// so the finished state persists untouched for later frames.
pub proof fn lemma_work_session_counted_once(app: ClockrApp, now_ms: u64)
    requires
        app.completed_timer_count < u32::MAX,
    ensures
        app.spec_fires(now_ms) && app.timer_kind == TimerKind::Work
            ==> app.spec_notified(now_ms).completed_timer_count == app.completed_timer_count + 1,
        !(app.spec_fires(now_ms) && app.timer_kind == TimerKind::Work)
            ==> app.spec_notified(now_ms).completed_timer_count == app.completed_timer_count,
        app.spec_notified(now_ms).timer_active == app.timer_active,
        app.spec_notified(now_ms).timer_start_ms == app.timer_start_ms,
        app.spec_notified(now_ms).timer_duration_ms == app.timer_duration_ms,
        app.spec_notified(now_ms).timer_kind == app.timer_kind,
{
}

} // verus!
