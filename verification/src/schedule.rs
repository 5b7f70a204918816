//! The window-event dispatch decisions and the fixed-timestep scheduler
//! that drive the renderer.

use vstd::prelude::*;
use vstd::arithmetic::div_mod::lemma_fundamental_div_mod_converse;

verus! {

/// A window event, reduced to what the rendering core reacts to.
#[derive(Clone, Copy, Debug, PartialEq, Eq, Structural)]
pub enum WindowEventKind {
    CloseRequested,
    RedrawRequested,
    KeyboardInput { key: u64, pressed: bool },
    Resized { width: u32, height: u32 },
    ScaleFactorChanged,
    Other,
}

/// What the driving loop must do for an event.
#[derive(Clone, Copy, Debug, PartialEq, Eq, Structural)]
pub enum EventAction {
    /// Leave the event loop.
    Exit,
    /// Render one frame.
    Render,
    /// Feed the key event to the input tracker.
    ProcessKey { key: u64, pressed: bool },
    /// Resize the renderer to the event's size.
    Resize { width: u32, height: u32 },
    /// Resize the renderer to the window's current physical size, which a
    /// scale-factor change may have altered without a resize event.
    ResizeToWindowSize,
    /// Nothing to do.
    Ignore,
}

/// The action each window event calls for.
pub open spec fn event_action_spec(e: WindowEventKind) -> EventAction {
    match e {
        WindowEventKind::CloseRequested => EventAction::Exit,
        WindowEventKind::RedrawRequested => EventAction::Render,
        WindowEventKind::KeyboardInput { key, pressed } => EventAction::ProcessKey { key, pressed },
        WindowEventKind::Resized { width, height } => EventAction::Resize { width, height },
        WindowEventKind::ScaleFactorChanged => EventAction::ResizeToWindowSize,
        WindowEventKind::Other => EventAction::Ignore,
    }
}

/// Decide what to do for a window event: close requests end the loop,
/// redraw requests render, key events feed the input tracker, and
/// size-affecting events resize the renderer.
pub fn on_window_event(event: &WindowEventKind) -> (a: EventAction)
    ensures
        a == event_action_spec(*event),
{
    match event {
        WindowEventKind::CloseRequested => EventAction::Exit,
        WindowEventKind::RedrawRequested => EventAction::Render,
        WindowEventKind::KeyboardInput { key, pressed } => EventAction::ProcessKey {
            key: *key,
            pressed: *pressed,
        },
        WindowEventKind::Resized { width, height } => EventAction::Resize {
            width: *width,
            height: *height,
        },
        WindowEventKind::ScaleFactorChanged => EventAction::ResizeToWindowSize,
        WindowEventKind::Other => EventAction::Ignore,
    }
}

/// A fixed-timestep accumulator, in nanoseconds: elapsed time piles into
/// the accumulator, and each whole step owed is paid out as one update
/// tick.
pub struct FixedTimestep {
    pub accumulator: u64,
    pub step: u64,
}

impl FixedTimestep {
    /// The step is positive and the accumulator always holds less than
    /// one whole step.
    pub open spec fn wf(self) -> bool {
        self.step > 0 && self.accumulator < self.step
    }

    /// A scheduler with an empty accumulator.
    pub fn new(step: u64) -> (t: FixedTimestep)
        requires
            step > 0,
        ensures
            t.step == step,
            t.accumulator == 0,
            t.wf(),
    {
        FixedTimestep { accumulator: 0, step }
    }

    /// Account for `delta` elapsed nanoseconds: the number of update
    /// ticks now due is the whole quotient of the accumulated time by the
    /// step, and the remainder stays accumulated.
    pub fn advance(&mut self, delta: u64) -> (ticks: u64)
        requires
            old(self).wf(),
            old(self).accumulator + delta <= u64::MAX,
        ensures
            final(self).wf(),
            final(self).step == old(self).step,
            ticks == (old(self).accumulator + delta) as int / old(self).step as int,
            final(self).accumulator == (old(self).accumulator + delta) as int % old(
                self,
            ).step as int,
    {
        let ghost total: int = old(self).accumulator + delta;
        self.accumulator = self.accumulator + delta;
        let mut ticks: u64 = 0;
        while self.accumulator >= self.step
            invariant
                self.step == old(self).step,
                self.step > 0,
                self.accumulator + ticks * self.step == total,
                0 <= total <= u64::MAX,
            decreases self.accumulator,
        {
            proof {
                assert(ticks + 1 <= (ticks + 1) * self.step <= total) by (nonlinear_arith)
                    requires
                        self.step >= 1,
                        self.step <= self.accumulator,
                        self.accumulator + ticks * self.step == total,
                        ticks >= 0,
                ;
                assert((ticks + 1) * self.step == ticks * self.step + self.step)
                    by (nonlinear_arith);
            }
            self.accumulator = self.accumulator - self.step;
            ticks = ticks + 1;
        }
        proof {
            lemma_fundamental_div_mod_converse(
                total,
                self.step as int,
                ticks as int,
                self.accumulator as int,
            );
        }
        ticks
    }
}

} // verus!
