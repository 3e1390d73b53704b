use departure::config::{ActionConfig, Config};
use departure::dispatch::{dispatch_key, DispatchOutcome};
use departure::gate::{
    shell_args, AppEvent, ConfirmationGate, ConfirmationState, Controller, Effect, ExecutionOutcome,
    GateEvent, SHELL,
};

fn action(name: &str, key: Option<&str>, confirm: bool) -> ActionConfig {
    ActionConfig {
        name: name.to_string(),
        command: format!("run-{}", name),
        icon: "icon".to_string(),
        keybind: key.map(|k| k.to_string()),
        confirm,
        danger: false,
    }
}

#[test]
fn key_matches_without_case() {
    let actions = vec![action("Lock", Some("l"), false), action("Logout", Some("E"), true)];
    assert_eq!(dispatch_key(&actions, "L"), DispatchOutcome::Execute(0));
    assert_eq!(dispatch_key(&actions, "l"), DispatchOutcome::Execute(0));
    assert_eq!(dispatch_key(&actions, "e"), DispatchOutcome::RequestConfirmation(1));
    assert_eq!(dispatch_key(&actions, "x"), DispatchOutcome::Ignored);
}

#[test]
fn close_key_is_never_shadowed() {
    let actions = vec![action("Odd", Some("Escape"), false)];
    assert_eq!(dispatch_key(&actions, "Escape"), DispatchOutcome::Terminate);
    assert_eq!(dispatch_key(&actions, "escape"), DispatchOutcome::Terminate);
    assert_eq!(dispatch_key(&Vec::new(), "Escape"), DispatchOutcome::Terminate);
}

#[test]
fn first_bound_action_wins() {
    let actions = vec![action("A", None, false), action("B", Some("k"), true), action("C", Some("K"), false)];
    assert_eq!(dispatch_key(&actions, "k"), DispatchOutcome::RequestConfirmation(1));
}

#[test]
fn cancel_runs_nothing() {
    let mut gate = ConfirmationGate::new();
    assert_eq!(gate.handle(GateEvent::RequestConfirmation(2)), None);
    assert_eq!(gate.state, ConfirmationState::AwaitingConfirmation(2));
    assert_eq!(gate.handle(GateEvent::Cancel), None);
    assert_eq!(gate.state, ConfirmationState::Idle);
}

#[test]
fn confirm_runs_exactly_once() {
    let mut gate = ConfirmationGate::new();
    let mut runs = Vec::new();
    for e in [GateEvent::RequestConfirmation(5), GateEvent::Confirm, GateEvent::Confirm] {
        if let Some(a) = gate.handle(e) {
            runs.push(a);
        }
    }
    assert_eq!(runs, vec![5]);
    assert_eq!(gate.state, ConfirmationState::Idle);
}

#[test]
fn pending_request_is_not_replaced() {
    let mut gate = ConfirmationGate::new();
    gate.handle(GateEvent::RequestConfirmation(1));
    assert_eq!(gate.handle(GateEvent::RequestConfirmation(3)), None);
    assert_eq!(gate.state, ConfirmationState::AwaitingConfirmation(1));
    assert_eq!(gate.handle(GateEvent::Confirm), Some(1));
}

#[test]
fn controller_routes_clicks_keys_and_answers() {
    let mut c = Controller::new(Config::default().actions);
    assert_eq!(c.handle_event(&AppEvent::Click(0)), Effect::Execute(0));
    assert_eq!(c.handle_event(&AppEvent::Click(9)), Effect::Nothing);
    assert_eq!(c.handle_event(&AppEvent::KeyPress("R".to_string())), Effect::ShowConfirmation(4));
    assert_eq!(c.handle_event(&AppEvent::Click(0)), Effect::Nothing);
    assert_eq!(c.handle_event(&AppEvent::ConfirmationChoice(false)), Effect::Nothing);
    assert_eq!(c.gate.state, ConfirmationState::Idle);
    assert_eq!(c.handle_event(&AppEvent::Click(5)), Effect::ShowConfirmation(5));
    assert_eq!(c.handle_event(&AppEvent::ConfirmationChoice(true)), Effect::Execute(5));
    assert_eq!(c.handle_event(&AppEvent::KeyPress("Escape".to_string())), Effect::Terminate);
    assert_eq!(c.handle_event(&AppEvent::KeyPress("q".to_string())), Effect::Nothing);
}

#[test]
fn failed_launch_keeps_the_run_going() {
    let mut c = Controller::new(vec![action("Bad", Some("b"), false)]);
    let out = c.execution_outcome(&Err("No such file or directory".to_string()));
    assert!(matches!(&out, ExecutionOutcome::Failed(m) if m == "No such file or directory"));
    assert!(!out.ends_run());
    assert_eq!(c.handle_event(&AppEvent::KeyPress("B".to_string())), Effect::Execute(0));
    assert!(c.execution_outcome(&Ok(())).ends_run());
}

#[test]
fn shell_invocation() {
    assert_eq!(SHELL, "sh");
    assert_eq!(shell_args("systemctl reboot"), vec!["-c".to_string(), "systemctl reboot".to_string()]);
}
