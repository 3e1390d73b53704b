//! The configuration that the launcher consumes: theme source, layout,
//! effects and the ordered list of actions.
use vstd::prelude::*;

verus! {

/// Built-in background colour.
pub const DEFAULT_BACKGROUND: &'static str = "rgba(30, 30, 46, 0.8)";

/// Built-in primary colour.
pub const DEFAULT_PRIMARY: &'static str = "#89b4fa";

/// Built-in secondary colour.
pub const DEFAULT_SECONDARY: &'static str = "#74c7ec";

/// Built-in text colour.
pub const DEFAULT_TEXT: &'static str = "#cdd6f4";

/// Built-in danger colour.
pub const DEFAULT_DANGER: &'static str = "#f38ba8";

/// Five colour roles as character sequences.
pub ghost struct Palette {
    pub background: Seq<char>,
    pub primary: Seq<char>,
    pub secondary: Seq<char>,
    pub text: Seq<char>,
    pub danger: Seq<char>,
}

/// The compiled-in palette.
pub open spec fn default_palette() -> Palette {
    Palette {
        background: DEFAULT_BACKGROUND@,
        primary: DEFAULT_PRIMARY@,
        secondary: DEFAULT_SECONDARY@,
        text: DEFAULT_TEXT@,
        danger: DEFAULT_DANGER@,
    }
}

/// Inline colours of a manual theme.
#[derive(Debug, Clone)]
pub struct ManualColors {
    pub background: String,
    pub primary: String,
    pub secondary: String,
    pub text: String,
    pub danger: String,
}

impl View for ManualColors {
    type V = Palette;

    open spec fn view(&self) -> Palette {
        Palette {
            background: self.background@,
            primary: self.primary@,
            secondary: self.secondary@,
            text: self.text@,
            danger: self.danger@,
        }
    }
}

impl Default for ManualColors {
    fn default() -> (r: Self)
        ensures
            r@ == default_palette(),
    {
        ManualColors {
            background: DEFAULT_BACKGROUND.to_owned(),
            primary: DEFAULT_PRIMARY.to_owned(),
            secondary: DEFAULT_SECONDARY.to_owned(),
            text: DEFAULT_TEXT.to_owned(),
            danger: DEFAULT_DANGER.to_owned(),
        }
    }
}

/// Where the theme colours come from. `source` is one of "manual", "system",
/// "file" or "command"; each source reads the field it needs.
#[derive(Debug, Clone)]
pub struct ThemeConfig {
    pub source: String,
    pub manual_colors: Option<ManualColors>,
    pub file_path: Option<String>,
    pub command: Option<String>,
    pub watch_file: bool,
}

impl Default for ThemeConfig {
    fn default() -> (r: Self)
        ensures
            r.source@ == "manual"@,
            r.manual_colors matches Some(m) && m@ == default_palette(),
            r.file_path is None,
            r.command is None,
            !r.watch_file,
    {
        ThemeConfig {
            source: "manual".to_owned(),
            manual_colors: Some(ManualColors::default()),
            file_path: None,
            command: None,
            watch_file: false,
        }
    }
}

/// Arrangement of the action buttons. `layout_type` is "horizontal",
/// "vertical" or "grid"; `columns` is read by the grid only.
#[derive(Debug, Clone)]
pub struct LayoutConfig {
    pub layout_type: String,
    pub button_size: u32,
    pub button_spacing: u32,
    pub margin: u32,
    pub columns: Option<u32>,
}

impl Default for LayoutConfig {
    fn default() -> (r: Self)
        ensures
            r.layout_type@ == "horizontal"@,
            r.button_size == 80,
            r.button_spacing == 20,
            r.margin == 50,
            r.columns == Some(3u32),
    {
        LayoutConfig {
            layout_type: "horizontal".to_owned(),
            button_size: 80,
            button_spacing: 20,
            margin: 50,
            columns: Some(3),
        }
    }
}

/// Visual effect switches; `transition_duration` is in milliseconds.
#[derive(Debug, Clone)]
pub struct EffectsConfig {
    pub blur: bool,
    pub animations: bool,
    pub hover_effects: bool,
    pub transition_duration: u32,
}

impl Default for EffectsConfig {
    fn default() -> (r: Self)
        ensures
            r.blur,
            r.animations,
            r.hover_effects,
            r.transition_duration == 200,
    {
        EffectsConfig { blur: true, animations: true, hover_effects: true, transition_duration: 200 }
    }
}

/// One entry of the power menu.
#[derive(Debug, Clone)]
pub struct ActionConfig {
    pub name: String,
    pub command: String,
    pub icon: String,
    pub keybind: Option<String>,
    pub confirm: bool,
    pub danger: bool,
}

/// Whether `a` has exactly the given fields, with `key` as its keybind.
pub open spec fn action_is(
    a: ActionConfig,
    name: &str,
    command: &str,
    icon: &str,
    key: &str,
    confirm: bool,
    danger: bool,
) -> bool {
    &&& a.name@ == name@
    &&& a.command@ == command@
    &&& a.icon@ == icon@
    &&& a.keybind matches Some(k) && k@ == key@
    &&& a.confirm == confirm
    &&& a.danger == danger
}

fn make_action(name: &str, command: &str, icon: &str, key: &str, confirm: bool, danger: bool) -> (r:
    ActionConfig)
    ensures
        action_is(r, name, command, icon, key, confirm, danger),
{
    ActionConfig {
        name: name.to_owned(),
        command: command.to_owned(),
        icon: icon.to_owned(),
        keybind: Some(key.to_owned()),
        confirm,
        danger,
    }
}

/// The whole configuration of one run.
#[derive(Debug, Clone)]
pub struct Config {
    pub theme: ThemeConfig,
    pub layout: LayoutConfig,
    pub effects: EffectsConfig,
    pub actions: Vec<ActionConfig>,
}

impl Default for Config {
    fn default() -> (r: Self)
        ensures
            r.theme.source@ == "manual"@,
            r.theme.manual_colors matches Some(m) && m@ == default_palette(),
            r.theme.file_path is None,
            r.theme.command is None,
            !r.theme.watch_file,
            r.layout.layout_type@ == "horizontal"@,
            r.layout.button_size == 80,
            r.layout.button_spacing == 20,
            r.layout.margin == 50,
            r.layout.columns == Some(3u32),
            r.effects.blur && r.effects.animations && r.effects.hover_effects,
            r.effects.transition_duration == 200,
            r.actions@.len() == 6,
            action_is(r.actions@[0], "Lock", "hyprlock", "system-lock-screen", "l", false, false),
            action_is(
                r.actions@[1],
                "Logout",
                "hyprctl dispatch exit",
                "system-log-out",
                "e",
                true,
                false,
            ),
            action_is(
                r.actions@[2],
                "Suspend",
                "systemctl suspend",
                "system-suspend",
                "s",
                false,
                false,
            ),
            action_is(
                r.actions@[3],
                "Hibernate",
                "systemctl hibernate",
                "system-suspend-hibernate",
                "h",
                false,
                false,
            ),
            action_is(
                r.actions@[4],
                "Reboot",
                "systemctl reboot",
                "system-reboot",
                "r",
                true,
                true,
            ),
            action_is(
                r.actions@[5],
                "Shutdown",
                "systemctl poweroff",
                "system-shutdown",
                "p",
                true,
                true,
            ),
    {
        let mut actions: Vec<ActionConfig> = Vec::new();
        actions.push(make_action("Lock", "hyprlock", "system-lock-screen", "l", false, false));
        actions.push(
            make_action("Logout", "hyprctl dispatch exit", "system-log-out", "e", true, false),
        );
        actions.push(
            make_action("Suspend", "systemctl suspend", "system-suspend", "s", false, false),
        );
        actions.push(
            make_action(
                "Hibernate",
                "systemctl hibernate",
                "system-suspend-hibernate",
                "h",
                false,
                false,
            ),
        );
        actions.push(make_action("Reboot", "systemctl reboot", "system-reboot", "r", true, true));
        actions.push(
            make_action("Shutdown", "systemctl poweroff", "system-shutdown", "p", true, true),
        );
        Config {
            theme: ThemeConfig::default(),
            layout: LayoutConfig::default(),
            effects: EffectsConfig::default(),
            actions,
        }
    }
}

} // verus!
