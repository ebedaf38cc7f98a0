//! Pause, single-step and reset handling of the live example, shared by its window and the
//! worker that steps the plant.

use vstd::prelude::*;

use crate::demo_session::TickKind;

verus! {

/// Run state shared by the window and the worker.
#[derive(Clone, Copy, Debug, PartialEq, Eq, Structural)]
pub struct RunControl {
    pub paused: bool,
    pub step_once_requested: bool,
    pub reset_requested: bool,
}

/// Keys that went down in one frame: pause toggle, reset, single step.
#[derive(Clone, Copy, Debug, PartialEq, Eq, Default)]
pub struct RunKeys {
    pub toggle_pause: bool,
    pub reset: bool,
    pub step_once: bool,
}

/// The run state after the keys of a frame, read in the order pause, reset, single step:
/// resuming drops a pending single step, reset pauses and asks for a plant reset, and a single
/// step is only taken while paused.
pub open spec fn after_run_keys(s: RunControl, k: RunKeys) -> RunControl {
    let paused_after_toggle = s.paused != k.toggle_pause;
    let paused = k.reset || paused_after_toggle;
    RunControl {
        paused,
        step_once_requested: (k.step_once && paused) || (!k.reset && !(k.toggle_pause && s.paused)
            && s.step_once_requested),
        reset_requested: s.reset_requested || k.reset,
    }
}

/// What the worker's next tick does.
pub open spec fn run_tick_kind(s: RunControl) -> TickKind {
    if s.reset_requested {
        TickKind::ResetPlant
    } else if s.paused && !s.step_once_requested {
        TickKind::Wait
    } else {
        TickKind::Step
    }
}

/// The run state after the worker's next tick: a reset is served, a step takes the single-step
/// request.
pub open spec fn after_run_tick(s: RunControl) -> RunControl {
    match run_tick_kind(s) {
        TickKind::ResetPlant => RunControl { reset_requested: false, ..s },
        TickKind::Wait => s,
        TickKind::Step => RunControl { step_once_requested: false, ..s },
    }
}

impl RunControl {
    /// Paused with nothing requested, so the explicit initial state stays on screen.
    pub fn start() -> (control: Self)
        ensures
            control == (RunControl { paused: true, step_once_requested: false, reset_requested: false }),
    {
        RunControl { paused: true, step_once_requested: false, reset_requested: false }
    }

    /// Applies the keys of one frame.
    pub fn handle_keys(&mut self, keys: RunKeys)
        ensures
            *final(self) == after_run_keys(*old(self), keys),
            final(self).paused == (keys.reset || (old(self).paused != keys.toggle_pause)),
            final(self).reset_requested == (old(self).reset_requested || keys.reset),
            keys.step_once && final(self).paused ==> final(self).step_once_requested,
            keys.toggle_pause && old(self).paused && !keys.step_once ==> !final(self).step_once_requested,
            keys.reset && !keys.step_once ==> !final(self).step_once_requested,
    {
        if keys.toggle_pause {
            let was_paused = self.paused;
            self.paused = !was_paused;
            if was_paused {
                self.step_once_requested = false;
            }
        }
        if keys.reset {
            self.paused = true;
            self.step_once_requested = false;
            self.reset_requested = true;
        }
        if keys.step_once && self.paused {
            self.step_once_requested = true;
        }
    }

    /// Decides the worker's next tick: a pending reset first, then wait while paused unless a
    /// single step was asked for, else step.
    pub fn next_tick(&mut self) -> (kind: TickKind)
        ensures
            kind == run_tick_kind(*old(self)),
            *final(self) == after_run_tick(*old(self)),
    {
        if self.reset_requested {
            self.reset_requested = false;
            return TickKind::ResetPlant;
        }
        let step_once = self.step_once_requested;
        self.step_once_requested = false;
        if self.paused && !step_once {
            TickKind::Wait
        } else {
            TickKind::Step
        }
    }
}

/// Law: after the reset key the example is paused and its next tick resets the plant; the
/// tick after that waits until the user resumes or asks for a single step.
pub proof fn lemma_reset_pauses_then_waits(s: RunControl, k: RunKeys)
    requires
        k.reset,
        !k.step_once,
    ensures
        after_run_keys(s, k).paused,
        run_tick_kind(after_run_keys(s, k)) == TickKind::ResetPlant,
        run_tick_kind(after_run_tick(after_run_keys(s, k))) == TickKind::Wait,
{
}

/// Law: the pause key alone flips the pause. A running example that it pauses waits on its
/// next tick; a paused example that it resumes steps on its next tick, unless a reset is due.
pub proof fn lemma_pause_key_flips_pause(s: RunControl)
    ensures
        ({
            let after = after_run_keys(s, RunKeys { toggle_pause: true, reset: false, step_once: false });
            &&& after.paused == !s.paused
            &&& after.reset_requested == s.reset_requested
            &&& !s.paused && !s.reset_requested && !s.step_once_requested ==> run_tick_kind(after) == TickKind::Wait
            &&& s.paused && !s.reset_requested ==> run_tick_kind(after) == TickKind::Step
        }),
{
}

/// Law: without the reset key, the pause key flips the pause and no other key changes it;
/// with it, the example ends the frame paused unless the pause key was also pressed.
pub proof fn lemma_pause_follows_keys(s: RunControl, k: RunKeys)
    ensures
        !k.reset ==> after_run_keys(s, k).paused == (s.paused != k.toggle_pause),
        k.reset ==> after_run_keys(s, k).paused,
{
}

/// Law: while paused, one single-step key advances the plant exactly once.
pub proof fn lemma_single_step_advances_once(s: RunControl)
    requires
        s.paused,
        !s.reset_requested,
        !s.step_once_requested,
    ensures
        ({
            let stepped = after_run_keys(s, RunKeys { toggle_pause: false, reset: false, step_once: true });
            &&& run_tick_kind(stepped) == TickKind::Step
            &&& run_tick_kind(after_run_tick(stepped)) == TickKind::Wait
        }),
{
}

} // verus!
