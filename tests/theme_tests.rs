use departure::config::{ManualColors, ThemeConfig};
use departure::style::{STYLE_0, STYLE_1, STYLE_6};
use departure::theme::{SourceOutcome, ThemeError, ThemeFetch, ThemeManager};

fn manager(source: &str) -> ThemeManager {
    let mut config = ThemeConfig::default();
    config.source = source.to_string();
    config.manual_colors = None;
    ThemeManager::new(config).unwrap()
}

fn extract_colors(text: &str) -> departure::theme::ThemeColors {
    manager("system").extract_colors(text)
}

fn assert_defaults(c: &departure::theme::ThemeColors) {
    assert_eq!(c.background, "rgba(30, 30, 46, 0.8)");
    assert_eq!(c.primary, "#89b4fa");
    assert_eq!(c.secondary, "#74c7ec");
    assert_eq!(c.text, "#cdd6f4");
    assert_eq!(c.danger, "#f38ba8");
}

#[test]
fn nested_export_prefers_surface() {
    let c = extract_colors("{\"colors\":{\"primary\":\"#abc\",\"surface\":\"#111\"}}");
    assert_eq!(c.background, "#111");
    assert_eq!(c.primary, "#abc");
    assert_eq!(c.secondary, "#74c7ec");
    assert_eq!(c.text, "#cdd6f4");
    assert_eq!(c.danger, "#f38ba8");
}

#[test]
fn nested_export_reads_hex_members_and_later_candidates() {
    let text = "{\"colors\":{\"primary\":{\"hex\":\"#010203\"},\"background\":\"#222\",\
                \"tertiary\":\"#333\",\"on_background\":{\"hex\":\"#444\"},\"danger\":\"#555\"}}";
    let c = extract_colors(text);
    assert_eq!(c.primary, "#010203");
    assert_eq!(c.background, "#222");
    assert_eq!(c.secondary, "#333");
    assert_eq!(c.text, "#444");
    assert_eq!(c.danger, "#555");
}

#[test]
fn flat_json_reads_top_level_keys() {
    let c = extract_colors("{\"primary\":\"#123456\",\"text\":{\"hex\":\"#fefefe\"},\"danger\":7}");
    assert_eq!(c.primary, "#123456");
    assert_eq!(c.text, "#fefefe");
    assert_eq!(c.danger, "#f38ba8");
    assert_eq!(c.background, "rgba(30, 30, 46, 0.8)");
}

#[test]
fn colors_without_primary_is_read_flat() {
    let c = extract_colors("{\"colors\":{\"surface\":\"#111\"},\"background\":\"#999\"}");
    assert_eq!(c.background, "#999");
    assert_eq!(c.primary, "#89b4fa");
}

#[test]
fn line_parser_reads_primary_only() {
    let c = extract_colors("# comment\nprimary = \"#fff\"\nbogus=ignored\n");
    assert_eq!(c.primary, "#fff");
    assert_eq!(c.background, "rgba(30, 30, 46, 0.8)");
    assert_eq!(c.secondary, "#74c7ec");
    assert_eq!(c.text, "#cdd6f4");
    assert_eq!(c.danger, "#f38ba8");
}

#[test]
fn line_parser_trims_lowercases_and_strips_quotes() {
    let text = "  BACKGROUND =  'rgba(1, 2, 3, 0.5)'  \r\n\nText=#eee\nsecondary\nDanger = \"#d00\"=x\n";
    let c = extract_colors(text);
    assert_eq!(c.background, "rgba(1, 2, 3, 0.5)");
    assert_eq!(c.text, "#eee");
    assert_eq!(c.secondary, "#74c7ec");
    assert_eq!(c.danger, "#d00\"=x");
}

#[test]
fn empty_values_keep_the_default() {
    let c = extract_colors("primary = \"\"\ntext=\n");
    assert_eq!(c.primary, "#89b4fa");
    assert_eq!(c.text, "#cdd6f4");
    let j = extract_colors("{\"primary\":\"\",\"danger\":{\"hex\":\"\"}}");
    assert_eq!(j.primary, "#89b4fa");
    assert_eq!(j.danger, "#f38ba8");
}

#[test]
fn extractor_is_total() {
    let inputs = ["", "\u{0}\u{1}\u{7f}garbage\u{fffd}", "[1, 2, 3]", "{\"a\": {\"b\": null}}", "42", "=", "#"];
    for text in inputs.iter() {
        let c = extract_colors(text);
        assert_defaults(&c);
    }
}

#[test]
fn manual_without_colors_fails() {
    let m = manager("manual");
    assert!(matches!(m.get_colors(&SourceOutcome::Missing), Err(ThemeError::MissingManualColors)));
}

#[test]
fn manual_colors_are_returned_verbatim() {
    let mut config = ThemeConfig::default();
    let mut colors = ManualColors::default();
    colors.primary = "#000001".to_string();
    config.manual_colors = Some(colors);
    let m = ThemeManager::new(config).unwrap();
    let c = m.get_colors(&SourceOutcome::Missing).unwrap();
    assert_eq!(c.primary, "#000001");
    assert_eq!(c.background, "rgba(30, 30, 46, 0.8)");
}

#[test]
fn system_source_gives_defaults() {
    let c = manager("system").get_colors(&SourceOutcome::Text("primary=#fff".to_string())).unwrap();
    assert_defaults(&c);
}

#[test]
fn file_without_path_is_not_found() {
    let m = manager("file");
    assert!(matches!(m.theme_fetch(), ThemeFetch::Nothing));
    let r = m.get_colors(&SourceOutcome::Text("primary=#fff".to_string()));
    assert!(matches!(r, Err(ThemeError::FileNotFound)));
}

#[test]
fn file_outcomes() {
    let mut config = ThemeConfig::default();
    config.source = "file".to_string();
    config.file_path = Some("/tmp/theme.json".to_string());
    let m = ThemeManager::new(config).unwrap();
    assert!(matches!(m.theme_fetch(), ThemeFetch::ReadFile(p) if p == "/tmp/theme.json"));
    assert!(matches!(m.get_colors(&SourceOutcome::Missing), Err(ThemeError::FileNotFound)));
    assert!(matches!(
        m.get_colors(&SourceOutcome::Unreadable("denied".to_string())),
        Err(ThemeError::Io(e)) if e == "denied"
    ));
    let c = m.get_colors(&SourceOutcome::Text("primary=#0f0".to_string())).unwrap();
    assert_eq!(c.primary, "#0f0");
}

#[test]
fn command_without_command_fails() {
    let m = manager("command");
    assert!(matches!(m.get_colors(&SourceOutcome::Missing), Err(ThemeError::MissingCommand)));
}

#[test]
fn command_outcomes() {
    let mut config = ThemeConfig::default();
    config.source = "command".to_string();
    config.command = Some("matugen --json".to_string());
    let m = ThemeManager::new(config).unwrap();
    assert!(matches!(m.theme_fetch(), ThemeFetch::RunCommand(c) if c == "matugen --json"));
    assert!(matches!(m.get_colors(&SourceOutcome::Missing), Err(ThemeError::Io(e)) if e.is_empty()));
    assert!(matches!(
        m.get_colors(&SourceOutcome::Unreadable("invalid utf-8".to_string())),
        Err(ThemeError::Io(e)) if e == "invalid utf-8"
    ));
    assert!(matches!(
        m.get_colors(&SourceOutcome::Exited("boom".to_string())),
        Err(ThemeError::CommandFailed(e)) if e == "boom"
    ));
    let c = m
        .get_colors(&SourceOutcome::Text("{\"colors\":{\"primary\":\"#abc\"}}".to_string()))
        .unwrap();
    assert_eq!(c.primary, "#abc");
}

#[test]
fn unknown_source_fails() {
    let m = manager("rainbow");
    assert!(matches!(m.get_colors(&SourceOutcome::Missing), Err(ThemeError::UnknownSource(s)) if s == "rainbow"));
    assert!(matches!(m.theme_fetch(), ThemeFetch::Nothing));
}

#[test]
fn watch_target_follows_flag_and_path() {
    let mut config = ThemeConfig::default();
    assert!(matches!(ThemeManager::new(config.clone()).unwrap().watch_target(), Ok(None)));
    config.watch_file = true;
    assert!(matches!(
        ThemeManager::new(config.clone()).unwrap().watch_target(),
        Err(ThemeError::MissingFilePath)
    ));
    config.file_path = Some("/tmp/t".to_string());
    assert!(matches!(ThemeManager::new(config).unwrap().watch_target(), Ok(Some(p)) if p == "/tmp/t"));
}

#[test]
fn stylesheet_substitutes_text_and_background() {
    let m = manager("system");
    let mut c = m.get_system_colors().unwrap();
    c.text = "#abcdef".to_string();
    c.background = "#102030".to_string();
    let css = m.generate_css(&c);
    assert!(css.starts_with(&format!("{}#102030{}#abcdef", STYLE_0, STYLE_1)));
    assert!(css.ends_with(STYLE_6));
    assert_eq!(css.matches("#abcdef").count(), 5);
    assert_eq!(css.matches("#102030").count(), 1);
    assert!(css.contains(".departure-background {\n    background: #102030;"));
    assert!(!css.contains("{text}"));
}

#[test]
fn comment_lines_are_skipped_even_with_assignments() {
    let c = extract_colors("# primary = #000000\n   #danger=#111\nsecondary='#222'");
    assert_eq!(c.primary, "#89b4fa");
    assert_eq!(c.danger, "#f38ba8");
    assert_eq!(c.secondary, "#222");
}
