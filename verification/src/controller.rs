//! Refresh-loop controller.
//!
//! The controller decides, from its state and the outcome of one cycle,
//! whether the dashboard runs another cycle or tears down. It owns no I/O:
//! the surrounding loop refreshes the metrics, paints the frame, waits for a
//! keypress, performs the actions the controller asks for, and reports each
//! outcome back. The three states are `Active` (running), `Draining` (quit
//! or failure observed, the terminal must be released) and `Terminated`
//! (the terminal has been released; nothing follows). The release action is
//! issued exactly on the transition into `Draining`, so the terminal is
//! restored once on every exit path.

use vstd::prelude::*;

verus! {

/// Lifecycle state of the dashboard.
#[derive(Clone, Copy, Debug, PartialEq, Eq, Structural)]
pub enum ControllerState {
    Active,
    Draining,
    Terminated,
}

/// A keypress as the controller sees it: the designated quit characters
/// matter, every other key is just "other".
#[derive(Clone, Copy, Debug, PartialEq, Eq, Structural)]
pub enum KeyPress {
    Char(char),
    Esc,
    Other,
}

/// What the bounded wait for input produced.
#[derive(Clone, Copy, Debug, PartialEq, Eq, Structural)]
pub enum PollOutcome {
    Key(KeyPress),
    Timeout,
    Failed,
}

/// What one cycle reported back to the controller.
#[derive(Clone, Copy, Debug, PartialEq, Eq, Structural)]
pub enum CycleEvent {
    Polled(PollOutcome),
    RenderFailed,
}

/// What the surrounding loop must do next.
#[derive(Clone, Copy, Debug, PartialEq, Eq, Structural)]
pub enum ControllerAction {
    RunCycle,
    ReleaseTerminal,
}

/// The controller: its lifecycle state, and whether a failure has been
/// observed, which decides the exit code.
#[derive(Clone, Copy, Debug, PartialEq, Eq, Structural)]
pub struct Controller {
    pub state: ControllerState,
    pub failed: bool,
}

/// The designated quit keys: the letter `q` or the escape key.
pub open spec fn spec_is_quit(k: KeyPress) -> bool {
    k == KeyPress::Char('q') || k == KeyPress::Esc
}

/// Whether a keypress is one of the designated quit keys.
pub fn is_quit(k: KeyPress) -> (b: bool)
    ensures
        b == spec_is_quit(k),
{
    match k {
        KeyPress::Char(c) => c == 'q',
        KeyPress::Esc => true,
        KeyPress::Other => false,
    }
}

/// Transition of an active controller on one cycle's event: a quit key or
/// any failure begins draining and asks for the terminal to be released;
/// any other key, or no key at all, runs another cycle. Failures, and only
/// failures, mark the controller failed.
pub open spec fn spec_step(c: Controller, ev: CycleEvent) -> (Controller, ControllerAction) {
    match ev {
        CycleEvent::Polled(PollOutcome::Key(k)) => if spec_is_quit(k) {
            (
                Controller { state: ControllerState::Draining, failed: c.failed },
                ControllerAction::ReleaseTerminal,
            )
        } else {
            (c, ControllerAction::RunCycle)
        },
        CycleEvent::Polled(PollOutcome::Timeout) => (c, ControllerAction::RunCycle),
        CycleEvent::Polled(PollOutcome::Failed) => (
            Controller { state: ControllerState::Draining, failed: true },
            ControllerAction::ReleaseTerminal,
        ),
        CycleEvent::RenderFailed => (
            Controller { state: ControllerState::Draining, failed: true },
            ControllerAction::ReleaseTerminal,
        ),
    }
}

impl Controller {
    /// A fresh controller, entered once the terminal has been acquired.
    pub fn new() -> (c: Controller)
        ensures
            c.state == ControllerState::Active,
            !c.failed,
    {
        Controller { state: ControllerState::Active, failed: false }
    }

    /// Advance on one cycle's event and say what the loop must do next.
    pub fn step(&mut self, ev: CycleEvent) -> (action: ControllerAction)
        requires
            old(self).state == ControllerState::Active,
        ensures
            (*final(self), action) == spec_step(*old(self), ev),
    {
        match ev {
            CycleEvent::Polled(PollOutcome::Key(k)) => {
                if is_quit(k) {
                    self.state = ControllerState::Draining;
                    ControllerAction::ReleaseTerminal
                } else {
                    ControllerAction::RunCycle
                }
            },
            CycleEvent::Polled(PollOutcome::Timeout) => ControllerAction::RunCycle,
            CycleEvent::Polled(PollOutcome::Failed) => {
                self.state = ControllerState::Draining;
                self.failed = true;
                ControllerAction::ReleaseTerminal
            },
            CycleEvent::RenderFailed => {
                self.state = ControllerState::Draining;
                self.failed = true;
                ControllerAction::ReleaseTerminal
            },
        }
    }

    /// Record that the terminal has been released; only a draining
    /// controller may terminate, and whether it failed is preserved.
    pub fn released(&mut self)
        requires
            old(self).state == ControllerState::Draining,
        ensures
            final(self).state == ControllerState::Terminated,
            final(self).failed == old(self).failed,
    {
        self.state = ControllerState::Terminated;
    }

    /// Exit code of a terminated controller: zero on a clean quit, one
    /// after a failure.
    pub fn exit_code(&self) -> (code: i32)
        requires
            self.state == ControllerState::Terminated,
        ensures
            code == (if self.failed {
                1int
            } else {
                0int
            }),
    {
        if self.failed {
            1
        } else {
            0
        }
    }
}

/// An active controller never skips a state: every event leaves it active
/// or draining, never terminated outright; and the release action is
/// returned exactly on the transition into draining, so the terminal is
/// released once on every exit path and never while the loop keeps
/// running.
pub proof fn lemma_release_iff_draining(c: Controller, ev: CycleEvent)
    requires
        c.state == ControllerState::Active,
    ensures
        spec_step(c, ev).0.state == ControllerState::Active || spec_step(c, ev).0.state
            == ControllerState::Draining,
        spec_step(c, ev).1 == ControllerAction::ReleaseTerminal <==> spec_step(c, ev).0.state
            == ControllerState::Draining,
        spec_step(c, ev).1 == ControllerAction::RunCycle <==> spec_step(c, ev).0.state
            == ControllerState::Active,
{
}

/// A quit key always begins draining at once, asks for the terminal to be
/// released, and does not mark the controller failed, so the process can
/// still exit cleanly.
pub proof fn lemma_quit_key_drains(c: Controller, k: KeyPress)
    requires
        c.state == ControllerState::Active,
        spec_is_quit(k),
    ensures
        spec_step(c, CycleEvent::Polled(PollOutcome::Key(k))).0.state
            == ControllerState::Draining,
        spec_step(c, CycleEvent::Polled(PollOutcome::Key(k))).0.failed == c.failed,
        spec_step(c, CycleEvent::Polled(PollOutcome::Key(k))).1
            == ControllerAction::ReleaseTerminal,
{
}

/// A render or input failure begins draining too — a failed frame is
/// never skipped silently — and marks the controller failed, so the
/// process exits non-zero after the same teardown as a normal quit.
pub proof fn lemma_failure_drains(c: Controller, ev: CycleEvent)
    requires
        c.state == ControllerState::Active,
        ev == CycleEvent::RenderFailed || ev == CycleEvent::Polled(PollOutcome::Failed),
    ensures
        spec_step(c, ev).0.state == ControllerState::Draining,
        spec_step(c, ev).0.failed,
        spec_step(c, ev).1 == ControllerAction::ReleaseTerminal,
{
}

} // verus!
