//! Window lifecycle controller: a state machine driven by OS activation and
//! window events, turning a close request into an application exit signal.

use vstd::prelude::*;

verus! {

/// The controller's model of the one native window: an identity the rest of
/// the application can compare, while the OS resource itself lives with the
/// event loop.
#[derive(Clone, Copy, PartialEq, Eq, Structural, Debug)]
pub struct WindowHandle {
    /// Identity of the native window this handle stands for.
    pub id: u64,
}

/// The controller's state: no window yet, one live window, or exit requested.
#[derive(Clone, Copy, PartialEq, Eq, Structural, Debug)]
pub enum LifecycleState {
    /// Initial state: the OS has not yet granted a surface.
    Uninitialized,
    /// One native window exists and is owned by the controller.
    Active { window: WindowHandle },
    /// Terminal state: the event loop must stop dispatching.
    ExitRequested,
}

/// An OS window event, as far as this state machine cares: a close request,
/// or anything else (input, redraw, resize), which is forwarded unchanged.
#[derive(Clone, Copy, PartialEq, Eq, Structural, Debug)]
pub enum EventKind {
    /// The OS asks the window to close.
    CloseRequested,
    /// Any other window event.
    Other,
}

/// What the event loop must do with one dispatched event.
#[derive(Clone, Copy, PartialEq, Eq, Structural, Debug)]
pub enum EventOutcome {
    /// Hand the event on to the render/input layer unchanged.
    Forwarded,
    /// Stop the event loop: the first close request was seen.
    ExitSignalled,
    /// Drop the event: there is no window to handle it, or exit is pending.
    Ignored,
}

/// The state after an activation: a window appears only out of
/// `Uninitialized`; an existing window is reused, never replaced, and the
/// terminal state stays terminal.
pub open spec fn spec_activate(s: LifecycleState, fresh: WindowHandle) -> LifecycleState {
    match s {
        LifecycleState::Uninitialized => LifecycleState::Active { window: fresh },
        _ => s,
    }
}

/// Whether an activation in state `s` creates a window.
pub open spec fn spec_activate_creates(s: LifecycleState) -> bool {
    s is Uninitialized
}

/// The state after one window event: only a close request while a window is
/// live changes anything, and it requests exit.
pub open spec fn spec_step(s: LifecycleState, event: EventKind) -> LifecycleState {
    match s {
        LifecycleState::Active { .. } => match event {
            EventKind::CloseRequested => LifecycleState::ExitRequested,
            EventKind::Other => s,
        },
        _ => s,
    }
}

/// What the event loop is told to do with one event in state `s`.
pub open spec fn spec_outcome(s: LifecycleState, event: EventKind) -> EventOutcome {
    match s {
        LifecycleState::Active { .. } => match event {
            EventKind::CloseRequested => EventOutcome::ExitSignalled,
            EventKind::Other => EventOutcome::Forwarded,
        },
        _ => EventOutcome::Ignored,
    }
}

/// Mediates between the OS event source and the rest of the application:
/// owns the lifecycle state and counts the windows ever created.
pub struct Controller {
    /// Current lifecycle state.
    pub state: LifecycleState,
    /// How many native windows this controller has asked for.
    pub windows_created: u64,
}

impl Controller {
    /// A controller is well formed when its creation count matches its
    /// state: no window before activation, exactly one from then on.
    pub open spec fn wf(self) -> bool {
        self.windows_created == if self.state is Uninitialized {
            0int
        } else {
            1int
        }
    }

    /// A fresh controller: no window yet, nothing created.
    pub fn new() -> (c: Controller)
        ensures
            c.state == LifecycleState::Uninitialized,
            c.windows_created == 0,
            c.wf(),
    {
        Controller { state: LifecycleState::Uninitialized, windows_created: 0 }
    }

    /// The OS granted a surface. Out of `Uninitialized` this installs
    /// `fresh` as the one window and reports that a native window must now
    /// be created; in every other state it is a no-op — an existing window
    /// is reused, never replaced, since replacing it would invalidate any
    /// surface bound to the old handle.
    pub fn on_activate(&mut self, fresh: WindowHandle) -> (created: bool)
        requires
            old(self).wf(),
        ensures
            final(self).state == spec_activate(old(self).state, fresh),
            created == spec_activate_creates(old(self).state),
            final(self).windows_created == old(self).windows_created + if created {
                1int
            } else {
                0int
            },
            final(self).wf(),
    {
        match self.state {
            LifecycleState::Uninitialized => {
                self.state = LifecycleState::Active { window: fresh };
                self.windows_created = self.windows_created + 1;
                true
            },
            _ => false,
        }
    }

    /// Dispatches one window event: the first close request while a window
    /// is live moves to `ExitRequested` and signals the loop to stop; other
    /// events are forwarded; everything after `ExitRequested` (and anything
    /// before a window exists) is ignored, never a crash.
    pub fn on_event(&mut self, event: EventKind) -> (outcome: EventOutcome)
        requires
            old(self).wf(),
        ensures
            final(self).state == spec_step(old(self).state, event),
            outcome == spec_outcome(old(self).state, event),
            final(self).windows_created == old(self).windows_created,
            final(self).wf(),
    {
        match self.state {
            LifecycleState::Active { .. } => match event {
                EventKind::CloseRequested => {
                    self.state = LifecycleState::ExitRequested;
                    EventOutcome::ExitSignalled
                },
                EventKind::Other => EventOutcome::Forwarded,
            },
            _ => EventOutcome::Ignored,
        }
    }

    /// True exactly when the terminal `ExitRequested` state was reached.
    pub fn should_exit(&self) -> (b: bool)
        ensures
            b == (self.state is ExitRequested),
    {
        match self.state {
            LifecycleState::ExitRequested => true,
            _ => false,
        }
    }

    /// The identity of the live window, if one exists.
    pub fn window_id(&self) -> (r: Option<u64>)
        ensures
            r == (match self.state {
                LifecycleState::Active { window } => Some(window.id),
                _ => None::<u64>,
            }),
    {
        match self.state {
            LifecycleState::Active { window } => Some(window.id),
            _ => None,
        }
    }

    /// How many native windows were ever created.
    pub fn created_count(&self) -> (n: u64)
        ensures
            n == self.windows_created,
    {
        self.windows_created
    }
}

/// Activation is idempotent: a second activation right after the first
/// leaves the state — and so the window's identity — unchanged, and creates
/// no second window.
pub proof fn lemma_activate_idempotent(f1: WindowHandle, f2: WindowHandle)
    ensures
        spec_activate(LifecycleState::Uninitialized, f1) == (LifecycleState::Active {
            window: f1,
        }),
        spec_activate(spec_activate(LifecycleState::Uninitialized, f1), f2) == spec_activate(
            LifecycleState::Uninitialized,
            f1,
        ),
        !spec_activate_creates(spec_activate(LifecycleState::Uninitialized, f1)),
{
}

/// A close request while a window is live requests exit.
pub proof fn lemma_close_requests_exit(w: WindowHandle)
    ensures
        spec_step((LifecycleState::Active { window: w }), EventKind::CloseRequested)
            == LifecycleState::ExitRequested,
{
}

/// `ExitRequested` is terminal: no event and no activation leaves it, and
/// late-arriving events are ignored.
pub proof fn lemma_exit_is_terminal(event: EventKind, fresh: WindowHandle)
    ensures
        spec_step(LifecycleState::ExitRequested, event) == LifecycleState::ExitRequested,
        spec_activate(LifecycleState::ExitRequested, fresh) == LifecycleState::ExitRequested,
        spec_outcome(LifecycleState::ExitRequested, event) == EventOutcome::Ignored,
{
}

/// After activation, one close request requests exit, and a second close
/// request changes nothing: the exit signal is latched.
pub proof fn lemma_close_is_latched(fresh: WindowHandle)
    ensures
        ({
            let s1 = spec_activate(LifecycleState::Uninitialized, fresh);
            let s2 = spec_step(s1, EventKind::CloseRequested);
            let s3 = spec_step(s2, EventKind::CloseRequested);
            s2 is ExitRequested && s3 == s2
        }),
{
}

} // verus!
