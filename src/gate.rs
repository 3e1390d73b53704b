//! Confirmation before risky actions, the routing of user events through the dispatcher
//! and the confirmation step, and what a launch attempt means for the run.
use vstd::prelude::*;
use crate::config::ActionConfig;
use crate::dispatch::{dispatch_key, dispatch_result, DispatchOutcome};

verus! {

/// Whether a confirmation is pending, and for which action.
#[derive(Debug, Clone, Copy, PartialEq, Eq, Structural)]
pub enum ConfirmationState {
    Idle,
    AwaitingConfirmation(usize),
}

/// What can happen to the confirmation state.
#[derive(Debug, Clone, Copy, PartialEq, Eq, Structural)]
pub enum GateEvent {
    /// An action that needs confirmation was triggered.
    RequestConfirmation(usize),
    /// The pending confirmation was declined.
    Cancel,
    /// The pending confirmation was accepted.
    Confirm,
}

/// The next confirmation state, and the action to run, if any. A request made
/// while another is pending is ignored: at most one prompt is open at a time.
pub open spec fn gate_step(s: ConfirmationState, e: GateEvent) -> (ConfirmationState, Option<usize>) {
    match (s, e) {
        (ConfirmationState::Idle, GateEvent::RequestConfirmation(a)) => (
            ConfirmationState::AwaitingConfirmation(a),
            None,
        ),
        (ConfirmationState::AwaitingConfirmation(p), GateEvent::Confirm) => (
            ConfirmationState::Idle,
            Some(p),
        ),
        (ConfirmationState::AwaitingConfirmation(_), GateEvent::Cancel) => (
            ConfirmationState::Idle,
            None,
        ),
        _ => (s, None),
    }
}

/// Decides whether a triggered action runs now or waits for confirmation.
#[derive(Debug, Clone, Copy)]
pub struct ConfirmationGate {
    pub state: ConfirmationState,
}

impl ConfirmationGate {
    /// Nothing pending.
    pub fn new() -> (r: Self)
        ensures
            r.state == ConfirmationState::Idle,
    {
        ConfirmationGate { state: ConfirmationState::Idle }
    }

    /// Applies `event`; returns the action to run, if any.
    pub fn handle(&mut self, event: GateEvent) -> (r: Option<usize>)
        ensures
            (final(self).state, r) == gate_step(old(self).state, event),
    {
        match (self.state, event) {
            (ConfirmationState::Idle, GateEvent::RequestConfirmation(a)) => {
                self.state = ConfirmationState::AwaitingConfirmation(a);
                None
            },
            (ConfirmationState::AwaitingConfirmation(p), GateEvent::Confirm) => {
                self.state = ConfirmationState::Idle;
                Some(p)
            },
            (ConfirmationState::AwaitingConfirmation(_), GateEvent::Cancel) => {
                self.state = ConfirmationState::Idle;
                None
            },
            _ => None,
        }
    }
}

/// Requesting a confirmation and then cancelling it runs nothing and leaves
/// nothing pending; requesting and then confirming runs the requested action
/// once and leaves nothing pending.
pub proof fn lemma_gate_round_trips(a: usize)
    ensures
        gate_step(ConfirmationState::Idle, GateEvent::RequestConfirmation(a)) == (
            ConfirmationState::AwaitingConfirmation(a),
            None::<usize>,
        ),
        gate_step(ConfirmationState::AwaitingConfirmation(a), GateEvent::Cancel) == (
            ConfirmationState::Idle,
            None::<usize>,
        ),
        gate_step(ConfirmationState::AwaitingConfirmation(a), GateEvent::Confirm) == (
            ConfirmationState::Idle,
            Some(a),
        ),
{
}

/// A pending confirmation is never replaced by another request: only a
/// cancel or a confirm ends it.
pub proof fn lemma_pending_kept(p: usize, e: GateEvent)
    requires
        !(e is Cancel),
        !(e is Confirm),
    ensures
        gate_step(ConfirmationState::AwaitingConfirmation(p), e).0
            == ConfirmationState::AwaitingConfirmation(p),
{
}

/// A user event.
#[derive(Debug, Clone)]
pub enum AppEvent {
    /// The button of the action at this index was clicked.
    Click(usize),
    /// The key with this name was pressed.
    KeyPress(String),
    /// The confirmation prompt was answered: `true` to go ahead.
    ConfirmationChoice(bool),
}

/// What the surrounding application is to do after an event.
#[derive(Debug, Clone, Copy, PartialEq, Eq, Structural)]
pub enum Effect {
    Nothing,
    /// Open the confirmation prompt for the action at this index.
    ShowConfirmation(usize),
    /// Launch the command of the action at this index.
    Execute(usize),
    /// Close the menu.
    Terminate,
}

/// The effect of triggering action `i` (by click or key) in confirmation state `s`,
/// and the next confirmation state.
pub open spec fn trigger_step(actions: Seq<ActionConfig>, s: ConfirmationState, i: usize) -> (
    ConfirmationState,
    Effect,
) {
    if i >= actions.len() || !(s is Idle) {
        (s, Effect::Nothing)
    } else if actions[i as int].confirm {
        (ConfirmationState::AwaitingConfirmation(i), Effect::ShowConfirmation(i))
    } else {
        (s, Effect::Execute(i))
    }
}

/// Routes user events through the dispatcher and confirmation.
#[derive(Debug, Clone)]
pub struct Controller {
    pub actions: Vec<ActionConfig>,
    pub gate: ConfirmationGate,
}

/// What came of an attempt to launch an action's command.
#[derive(Debug, Clone)]
pub enum ExecutionOutcome {
    /// The command started; the run is to end.
    Launched,
    /// The command could not be started, for this reason; the run goes on.
    Failed(String),
}

impl ExecutionOutcome {
    /// Whether the run is to end.
    pub fn ends_run(&self) -> (r: bool)
        ensures
            r == (*self is Launched),
    {
        match self {
            ExecutionOutcome::Launched => true,
            ExecutionOutcome::Failed(_) => false,
        }
    }
}

impl Controller {
    /// A controller over `actions` with nothing pending.
    pub fn new(actions: Vec<ActionConfig>) -> (r: Self)
        ensures
            r.actions@ == actions@,
            r.gate.state == ConfirmationState::Idle,
    {
        Controller { actions, gate: ConfirmationGate::new() }
    }

    /// Triggers the action at index `i`.
    fn trigger(&mut self, i: usize) -> (r: Effect)
        ensures
            final(self).actions@ == old(self).actions@,
            (final(self).gate.state, r) == trigger_step(old(self).actions@, old(self).gate.state, i),
    {
        if i >= self.actions.len() {
            return Effect::Nothing;
        }
        match self.gate.state {
            ConfirmationState::Idle => {
                if self.actions[i].confirm {
                    self.gate.handle(GateEvent::RequestConfirmation(i));
                    Effect::ShowConfirmation(i)
                } else {
                    Effect::Execute(i)
                }
            },
            ConfirmationState::AwaitingConfirmation(_) => Effect::Nothing,
        }
    }

    /// Applies one user event; returns what the application is to do.
    pub fn handle_event(&mut self, event: &AppEvent) -> (r: Effect)
        ensures
            final(self).actions@ == old(self).actions@,
            match *event {
                AppEvent::Click(i) => (final(self).gate.state, r) == trigger_step(
                    old(self).actions@,
                    old(self).gate.state,
                    i,
                ),
                AppEvent::KeyPress(k) => exists|d: DispatchOutcome|
                    #[trigger] dispatch_result(old(self).actions@, k@, d) && match d {
                        DispatchOutcome::Terminate => r == Effect::Terminate && final(self).gate
                            == old(self).gate,
                        DispatchOutcome::Ignored => r == Effect::Nothing && final(self).gate
                            == old(self).gate,
                        DispatchOutcome::Execute(i) | DispatchOutcome::RequestConfirmation(i) => (
                            final(self).gate.state,
                            r,
                        ) == trigger_step(old(self).actions@, old(self).gate.state, i),
                    },
                AppEvent::ConfirmationChoice(yes) => {
                    let (s, run) = gate_step(
                        old(self).gate.state,
                        if yes {
                            GateEvent::Confirm
                        } else {
                            GateEvent::Cancel
                        },
                    );
                    &&& final(self).gate.state == s
                    &&& r == match run {
                        Some(a) => Effect::Execute(a),
                        None => Effect::Nothing,
                    }
                },
            },
    {
        match event {
            AppEvent::Click(i) => self.trigger(*i),
            AppEvent::KeyPress(k) => {
                let d = dispatch_key(&self.actions, k.as_str());
                match d {
                    DispatchOutcome::Terminate => Effect::Terminate,
                    DispatchOutcome::Ignored => Effect::Nothing,
                    DispatchOutcome::Execute(i) => self.trigger(i),
                    DispatchOutcome::RequestConfirmation(i) => self.trigger(i),
                }
            },
            AppEvent::ConfirmationChoice(yes) => {
                let e = if *yes {
                    GateEvent::Confirm
                } else {
                    GateEvent::Cancel
                };
                match self.gate.handle(e) {
                    Some(a) => Effect::Execute(a),
                    None => Effect::Nothing,
                }
            },
        }
    }

    /// What an attempt to launch an action's command means for the run:
    /// a started command ends it, a failure to start is reported and the
    /// controller stays as it is.
    pub fn execution_outcome(&self, spawned: &Result<(), String>) -> (r: ExecutionOutcome)
        ensures
            match *spawned {
                Ok(()) => r is Launched,
                Err(m) => r matches ExecutionOutcome::Failed(f) && f@ == m@,
            },
    {
        match spawned {
            Ok(()) => ExecutionOutcome::Launched,
            Err(m) => ExecutionOutcome::Failed(m.clone()),
        }
    }
}

/// The program that runs action and theme commands.
pub const SHELL: &'static str = "sh";

/// The arguments that make the shell run `command`.
pub fn shell_args(command: &str) -> (r: Vec<String>)
    ensures
        r@.len() == 2,
        r@[0]@ == "-c"@,
        r@[1]@ == command@,
{
    let mut args: Vec<String> = Vec::new();
    args.push("-c".to_owned());
    args.push(command.to_owned());
    args
}

} // verus!
