//! The application state and its reactions to the event loop.

use vstd::prelude::*;
use std::time::Instant;
use crate::clock;
use crate::display::{activate, groups_for, DisplayGroup};
use crate::event::WindowEvent;
use crate::policy::{step, transition, Action, State};

verus! {

/// What an [`App`] holds, as contracts see it.
pub struct AppView {
    /// The display groups, in monitor order.
    pub groups: Seq<DisplayGroup>,
    /// When the process started.
    pub started_at: Instant,
    /// State of the dismissal machine.
    pub state: State,
}

/// The application state: the display groups, the start of the process
/// and the state of the dismissal machine.
///
/// The groups always are those of some number of monitors: the group at
/// position `i` covers monitor `i`.
#[derive(Debug)]
pub struct App {
    groups: Vec<DisplayGroup>,
    started_at: Instant,
    state: State,
}

impl View for App {
    type V = AppView;

    closed spec fn view(&self) -> AppView {
        AppView { groups: self.groups@, started_at: self.started_at, state: self.state }
    }
}

impl App {
    #[verifier::type_invariant]
    spec fn one_group_per_monitor(&self) -> bool {
        self.groups@ == groups_for(self.groups@.len())
    }

    /// An armed application without windows, for a process that started at
    /// `started_at`.
    pub fn new(started_at: Instant) -> (app: App)
        ensures
            app@ == (AppView { groups: Seq::empty(), started_at, state: State::Armed }),
    {
        let groups: Vec<DisplayGroup> = Vec::new();
        assert(groups@ =~= groups_for(0));
        App { groups, started_at, state: State::Armed }
    }

    /// The application became active with `monitors` monitors enumerated:
    /// from now on it has exactly one display group per monitor, in
    /// enumeration order, whatever groups it had before.
    pub fn resumed(&mut self, monitors: usize)
        ensures
            final(self)@.groups == groups_for(monitors as nat),
            final(self)@.groups.len() == monitors,
            forall|i: int| 0 <= i < monitors ==> (#[trigger] final(self)@.groups[i]).monitor == i,
            final(self)@.started_at == old(self)@.started_at,
            final(self)@.state == old(self)@.state,
    {
        self.groups = activate(monitors);
    }

    /// Reacts to an event that arrived `elapsed` nanoseconds after the
    /// start of the process: the dismissal machine makes one step, and the
    /// returned action is what the event loop has to do.
    pub fn handle(&mut self, event: &WindowEvent, elapsed: u128) -> (action: Action)
        ensures
            (final(self)@.state, action) == transition(old(self)@.state, *event, elapsed),
            final(self)@.groups == old(self)@.groups,
            final(self)@.started_at == old(self)@.started_at,
    {
        proof {
            use_type_invariant(&*self);
        }
        let next = step(self.state, event, elapsed);
        self.state = next.0;
        next.1
    }

    /// Reacts to an event that arrives now. The time since the start of
    /// the process is read from the clock, so the outcome is that of
    /// [`App::handle`] for some elapsed time. Close requests, mouse
    /// buttons, the escape key and keys that resolved to no text are
    /// handled alike at any time.
    pub fn window_event(&mut self, event: &WindowEvent) -> (action: Action)
        ensures
            exists|elapsed: u128|
                (final(self)@.state, action) == #[trigger] transition(
                    old(self)@.state,
                    *event,
                    elapsed,
                ),
            (*event is CloseRequested || *event is MouseInput) ==> final(self)@.state is Exiting,
            (*event matches WindowEvent::KeyboardInput { is_escape, .. } && is_escape)
                ==> final(self)@.state is Exiting,
            (*event matches WindowEvent::KeyboardInput { is_escape, has_text } && !is_escape
                && !has_text) ==> final(self)@.state == old(self)@.state && action is Ignore,
            final(self)@.groups == old(self)@.groups,
            final(self)@.started_at == old(self)@.started_at,
    {
        let elapsed: u128 = clock::elapsed_since(&self.started_at);
        self.handle(event, elapsed)
    }

    /// The display groups, in monitor order: the group at position `i`
    /// covers monitor `i`.
    pub fn groups(&self) -> (groups: &Vec<DisplayGroup>)
        ensures
            groups@ == self@.groups,
            groups@ == groups_for(groups@.len()),
    {
        proof {
            use_type_invariant(self);
        }
        &self.groups
    }

    /// When the process started.
    pub fn started_at(&self) -> (started_at: Instant)
        ensures
            started_at == self@.started_at,
    {
        self.started_at
    }

    /// State of the dismissal machine.
    pub fn state(&self) -> (state: State)
        ensures
            state == self@.state,
    {
        self.state
    }
}

impl Default for App {
    /// An armed application without windows, for a process that starts now.
    fn default() -> (app: App)
        ensures
            app@.groups == Seq::<DisplayGroup>::empty(),
            app@.state is Armed,
    {
        App::new(clock::now())
    }
}

} // verus!
