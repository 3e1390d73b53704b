use departure::config::{ActionConfig, Config, EffectsConfig, ManualColors};
use departure::present::{
    choose_icon, confirmation_message, confirmation_title, icon_is_file, tooltip, IconChoice,
};

fn action(name: &str, icon: &str, key: Option<&str>) -> ActionConfig {
    ActionConfig {
        name: name.to_string(),
        command: "true".to_string(),
        icon: icon.to_string(),
        keybind: key.map(|k| k.to_string()),
        confirm: true,
        danger: true,
    }
}

#[test]
fn icon_kinds() {
    assert!(icon_is_file("/usr/share/x"));
    assert!(icon_is_file("lock.svg"));
    assert!(!icon_is_file("system-lock-screen"));
    assert!(!icon_is_file(""));
}

#[test]
fn icon_choice() {
    assert!(matches!(choose_icon(&action("Lock", "system-lock", None), false), IconChoice::Named(n) if n == "system-lock"));
    assert!(matches!(choose_icon(&action("Lock", "/a/b.png", None), true), IconChoice::File(p) if p == "/a/b.png"));
    assert!(matches!(choose_icon(&action("Ünlock", "b.png", None), false), IconChoice::Fallback('Ü')));
    assert!(matches!(choose_icon(&action("", "b.png", None), false), IconChoice::Fallback('?')));
}

#[test]
fn texts() {
    assert_eq!(tooltip(&action("Reboot", "x", Some("r"))), "Reboot (r)");
    assert_eq!(tooltip(&action("Reboot", "x", None)), "Reboot (no key)");
    assert_eq!(confirmation_title(&action("Shut Down", "x", None)), "Confirm Shut Down");
    assert_eq!(confirmation_message(&action("Shut Down", "x", None)), "Are you sure you want to shut down?");
}

#[test]
fn defaults() {
    let c = Config::default();
    assert_eq!(c.theme.source, "manual");
    assert_eq!(c.layout.layout_type, "horizontal");
    assert_eq!(c.layout.columns, Some(3));
    assert_eq!(c.actions.len(), 6);
    let names: Vec<&str> = c.actions.iter().map(|a| a.name.as_str()).collect();
    assert_eq!(names, vec!["Lock", "Logout", "Suspend", "Hibernate", "Reboot", "Shutdown"]);
    assert_eq!(c.actions[1].command, "hyprctl dispatch exit");
    assert!(c.actions[5].confirm && c.actions[5].danger);
    let e = EffectsConfig::default();
    assert_eq!(e.transition_duration, 200);
    let m = ManualColors::default();
    assert_eq!(m.background, "rgba(30, 30, 46, 0.8)");
    assert_eq!(m.danger, "#f38ba8");
}
