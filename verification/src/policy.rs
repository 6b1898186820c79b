//! The input dismissal policy: a two-state machine that decides, event by
//! event, whether the session ends.

use vstd::prelude::*;
use crate::event::WindowEvent;

verus! {

/// Length of the grace period after start, in nanoseconds (two seconds).
///
/// Key presses other than escape are ignored while it lasts, so that a
/// launch shortcut that is still held down does not dismiss the windows it
/// has just opened.
pub const GRACE_PERIOD_NANOS: u128 = 2_000_000_000;

/// State of the dismissal machine.
#[derive(Clone, Copy, Debug, PartialEq, Eq, Structural)]
pub enum State {
    /// Waiting for the user to leave.
    Armed,
    /// The session is over; terminal.
    Exiting,
}

/// The kind of event that ended the session.
#[derive(Clone, Copy, Debug, PartialEq, Eq, Structural)]
pub enum ExitReason {
    /// A window was asked to close.
    CloseRequested,
    /// A qualifying key was pressed.
    Keyboard,
    /// A mouse button was used.
    Mouse,
}

impl ExitReason {
    /// The line that reports this reason on the console.
    pub open spec fn notice(self) -> Seq<char> {
        match self {
            ExitReason::CloseRequested => "The close button was pressed; stopping"@,
            ExitReason::Keyboard => "Keyboard event received; stopping"@,
            ExitReason::Mouse => "Mouse event received; stopping"@,
        }
    }

    /// The line to write on the console when the session ends for this
    /// reason. It names the event that ended it.
    pub fn message(&self) -> (text: &'static str)
        ensures
            text@ == self.notice(),
    {
        match self {
            ExitReason::CloseRequested => "The close button was pressed; stopping",
            ExitReason::Keyboard => "Keyboard event received; stopping",
            ExitReason::Mouse => "Mouse event received; stopping",
        }
    }
}

/// What the event loop has to do after an event.
#[derive(Clone, Copy, Debug, PartialEq, Eq, Structural)]
pub enum Action {
    /// Nothing.
    Ignore,
    /// Paint every display group white again.
    Redraw,
    /// Report the reason and stop the event loop.
    Exit(ExitReason),
}

/// Whether a key event ends the session: escape always does; any other key
/// only once the grace period is over, and only if it resolved to text.
pub open spec fn key_dismisses(is_escape: bool, has_text: bool, elapsed: u128) -> bool {
    is_escape || (has_text && elapsed >= GRACE_PERIOD_NANOS)
}

/// The reaction of an armed machine to `event`, `elapsed` nanoseconds after
/// start.
pub open spec fn response(event: WindowEvent, elapsed: u128) -> Action {
    match event {
        WindowEvent::CloseRequested => Action::Exit(ExitReason::CloseRequested),
        WindowEvent::RedrawRequested => Action::Redraw,
        WindowEvent::KeyboardInput { is_escape, has_text } => {
            if key_dismisses(is_escape, has_text, elapsed) {
                Action::Exit(ExitReason::Keyboard)
            } else {
                Action::Ignore
            }
        },
        WindowEvent::MouseInput => Action::Exit(ExitReason::Mouse),
        WindowEvent::Other => Action::Ignore,
    }
}

/// The machine's transition function: next state and action.
///
/// An exiting machine processes no further events. An armed machine moves
/// to `Exiting` exactly when its response is an exit.
pub open spec fn transition(state: State, event: WindowEvent, elapsed: u128) -> (State, Action) {
    match state {
        State::Exiting => (State::Exiting, Action::Ignore),
        State::Armed => {
            let action = response(event, elapsed);
            (if action is Exit { State::Exiting } else { State::Armed }, action)
        },
    }
}

/// Decides whether a key event ends the session.
pub fn key_press_dismisses(is_escape: bool, has_text: bool, elapsed: u128) -> (dismiss: bool)
    ensures
        dismiss == key_dismisses(is_escape, has_text, elapsed),
{
    if !is_escape {
        if elapsed < GRACE_PERIOD_NANOS {
            return false;
        }
    }
    if !is_escape && !has_text {
        return false;
    }
    true
}

/// Reaction of an armed machine to one event.
pub fn respond(event: &WindowEvent, elapsed: u128) -> (action: Action)
    ensures
        action == response(*event, elapsed),
{
    match event {
        WindowEvent::CloseRequested => Action::Exit(ExitReason::CloseRequested),
        WindowEvent::RedrawRequested => Action::Redraw,
        WindowEvent::KeyboardInput { is_escape, has_text } => {
            if key_press_dismisses(*is_escape, *has_text, elapsed) {
                Action::Exit(ExitReason::Keyboard)
            } else {
                Action::Ignore
            }
        },
        WindowEvent::MouseInput => Action::Exit(ExitReason::Mouse),
        WindowEvent::Other => Action::Ignore,
    }
}

/// Advances the machine by one event received `elapsed` nanoseconds after
/// start, and says what the event loop has to do.
///
/// An exiting machine stays as it is and asks for nothing. The machine
/// comes to exit exactly when it tells the event loop to stop. Whatever
/// the state before:
/// - a close request ends the session, at any time and whatever the keys;
/// - so does a mouse button, at any time;
/// - so does the escape key, even at time zero;
/// - any other key within the grace period changes nothing;
/// - nor does, at any time, a key other than escape that resolved to no
///   text;
/// - a key other than escape that resolved to text ends the session once
///   the grace period is over.
pub fn step(state: State, event: &WindowEvent, elapsed: u128) -> (next: (State, Action))
    ensures
        next == transition(state, *event, elapsed),
        state is Exiting ==> next == (State::Exiting, Action::Ignore),
        state is Armed ==> (next.0 is Exiting <==> next.1 is Exit),
        *event is CloseRequested ==> next.0 is Exiting,
        *event is MouseInput ==> next.0 is Exiting,
        (*event matches WindowEvent::KeyboardInput { is_escape, .. } && is_escape)
            ==> next.0 is Exiting,
        (*event matches WindowEvent::KeyboardInput { is_escape, .. } && !is_escape
            && elapsed < GRACE_PERIOD_NANOS) ==> next == (state, Action::Ignore),
        (*event matches WindowEvent::KeyboardInput { is_escape, has_text } && !is_escape
            && !has_text) ==> next == (state, Action::Ignore),
        (*event matches WindowEvent::KeyboardInput { is_escape, has_text } && !is_escape
            && has_text && elapsed >= GRACE_PERIOD_NANOS) ==> next.0 is Exiting,
{
    match state {
        State::Exiting => (State::Exiting, Action::Ignore),
        State::Armed => {
            let action = respond(event, elapsed);
            match action {
                Action::Exit(_) => (State::Exiting, action),
                _ => (State::Armed, action),
            }
        },
    }
}

} // verus!
