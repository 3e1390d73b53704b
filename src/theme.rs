//! Theme colour resolution: the four colour sources, the extractor that
//! reads structured or line-based theme text, and the stylesheet renderer.
use vstd::prelude::*;
use vstd::string::StringExecFns;
use crate::config::{
    default_palette, ManualColors, Palette, ThemeConfig, DEFAULT_BACKGROUND, DEFAULT_DANGER,
    DEFAULT_PRIMARY, DEFAULT_SECONDARY, DEFAULT_TEXT,
};
use crate::json::{json_document, member, parse_json, pick_color, JsonValue};
use crate::style::{stylesheet, STYLE_0, STYLE_1, STYLE_2, STYLE_3, STYLE_4, STYLE_5, STYLE_6};
use crate::text::{
    lines, lowercased, same_text, split_first, split_once_char, starts_with_char, strip_char,
    text_lines, to_lower, trim, trim_char, trimmed,
};

verus! {

/// The five resolved colours.
#[derive(Debug, Clone)]
pub struct ThemeColors {
    pub background: String,
    pub primary: String,
    pub secondary: String,
    pub text: String,
    pub danger: String,
}

impl View for ThemeColors {
    type V = Palette;

    open spec fn view(&self) -> Palette {
        Palette {
            background: self.background@,
            primary: self.primary@,
            secondary: self.secondary@,
            text: self.text@,
            danger: self.danger@,
        }
    }
}

/// Every colour of `p` is non-empty.
pub open spec fn palette_filled(p: Palette) -> bool {
    &&& p.background.len() > 0
    &&& p.primary.len() > 0
    &&& p.secondary.len() > 0
    &&& p.text.len() > 0
    &&& p.danger.len() > 0
}

/// Why a theme could not be resolved.
#[derive(Debug, Clone)]
pub enum ThemeError {
    /// The configured source is none of the four known ones.
    UnknownSource(String),
    /// The manual source has no colours configured.
    MissingManualColors,
    /// The file source has no path, or the file does not exist.
    FileNotFound,
    /// File watching is enabled but no file path is configured.
    MissingFilePath,
    /// The command source has no command configured.
    MissingCommand,
    /// The theme command exited unsuccessfully, with this standard error.
    CommandFailed(String),
    /// Reading the theme text failed, for this reason.
    Io(String),
}

/// `ThemeError` with its texts as character sequences.
pub ghost enum ThemeFailure {
    UnknownSource(Seq<char>),
    MissingManualColors,
    FileNotFound,
    MissingFilePath,
    MissingCommand,
    CommandFailed(Seq<char>),
    Io(Seq<char>),
}

impl View for ThemeError {
    type V = ThemeFailure;

    open spec fn view(&self) -> ThemeFailure {
        match self {
            ThemeError::UnknownSource(s) => ThemeFailure::UnknownSource(s@),
            ThemeError::MissingManualColors => ThemeFailure::MissingManualColors,
            ThemeError::FileNotFound => ThemeFailure::FileNotFound,
            ThemeError::MissingFilePath => ThemeFailure::MissingFilePath,
            ThemeError::MissingCommand => ThemeFailure::MissingCommand,
            ThemeError::CommandFailed(s) => ThemeFailure::CommandFailed(s@),
            ThemeError::Io(s) => ThemeFailure::Io(s@),
        }
    }
}

/// The outside work that a theme source needs before it can be resolved.
#[derive(Debug, Clone)]
pub enum ThemeFetch {
    /// The source needs nothing from outside.
    Nothing,
    /// Read the text of the file at this path.
    ReadFile(String),
    /// Run this command through a shell and capture its output.
    RunCommand(String),
}

/// What came of the outside work of `ThemeFetch`.
#[derive(Debug, Clone)]
pub enum SourceOutcome {
    /// Nothing was obtained: the file does not exist, or no work was done.
    Missing,
    /// Reading the file or the command's output failed, for this reason.
    Unreadable(String),
    /// The command exited unsuccessfully, with this standard error.
    Exited(String),
    /// The text that was read.
    Text(String),
}

/// The palette of a parsed JSON document: a nested export where it has
/// `colors.primary`, a flat document otherwise.
pub open spec fn json_palette(doc: JsonValue) -> Palette {
    let nested = member(doc, "colors"@);
    if nested is Some && member(nested->0, "primary"@) is Some {
        let c = nested->0;
        Palette {
            background: pick_color(c, seq!["surface", "background"], DEFAULT_BACKGROUND@),
            primary: pick_color(c, seq!["primary"], DEFAULT_PRIMARY@),
            secondary: pick_color(c, seq!["secondary", "tertiary"], DEFAULT_SECONDARY@),
            text: pick_color(c, seq!["on_surface", "on_background", "text"], DEFAULT_TEXT@),
            danger: pick_color(c, seq!["error", "danger"], DEFAULT_DANGER@),
        }
    } else {
        Palette {
            background: pick_color(doc, seq!["background"], DEFAULT_BACKGROUND@),
            primary: pick_color(doc, seq!["primary"], DEFAULT_PRIMARY@),
            secondary: pick_color(doc, seq!["secondary"], DEFAULT_SECONDARY@),
            text: pick_color(doc, seq!["text"], DEFAULT_TEXT@),
            danger: pick_color(doc, seq!["danger"], DEFAULT_DANGER@),
        }
    }
}

/// `p` after one line of `key = value` text. Blank lines, `#` comments,
/// lines without `=`, unknown keys and empty values leave it as it is.
pub open spec fn apply_line(p: Palette, line: Seq<char>) -> Palette {
    let l = trimmed(line);
    if l.len() == 0 || l[0] == '#' {
        p
    } else {
        match split_first(l, '=') {
            None => p,
            Some((k, v)) => {
                let key = lowercased(trimmed(k));
                let value = strip_char(strip_char(trimmed(v), '"'), '\'');
                if value.len() == 0 {
                    p
                } else if key == "background"@ {
                    Palette { background: value, ..p }
                } else if key == "primary"@ {
                    Palette { primary: value, ..p }
                } else if key == "secondary"@ {
                    Palette { secondary: value, ..p }
                } else if key == "text"@ {
                    Palette { text: value, ..p }
                } else if key == "danger"@ {
                    Palette { danger: value, ..p }
                } else {
                    p
                }
            },
        }
    }
}

/// `p` after each of `ls`, in order.
pub open spec fn apply_lines(p: Palette, ls: Seq<Seq<char>>) -> Palette
    decreases ls.len(),
{
    if ls.len() == 0 {
        p
    } else {
        apply_lines(apply_line(p, ls[0]), ls.drop_first())
    }
}

/// The palette of line-based theme text.
pub open spec fn line_palette(text: Seq<char>) -> Palette {
    apply_lines(default_palette(), text_lines(text))
}

/// The palette of theme text: structured where it parses as JSON,
/// line-based otherwise.
pub open spec fn extracted_palette(text: Seq<char>) -> Palette {
    match json_document(text) {
        Some(doc) => json_palette(doc),
        None => line_palette(text),
    }
}

/// The result of resolving theme text that was read, or of the failure to read it.
pub open spec fn outcome_result(o: SourceOutcome) -> Result<Palette, ThemeFailure> {
    match o {
        SourceOutcome::Missing => Err(ThemeFailure::FileNotFound),
        SourceOutcome::Unreadable(m) => Err(ThemeFailure::Io(m@)),
        SourceOutcome::Exited(e) => Err(ThemeFailure::CommandFailed(e@)),
        SourceOutcome::Text(t) => Ok(extracted_palette(t@)),
    }
}

/// The result of resolving `cfg`, given what its outside work produced.
pub open spec fn resolution(cfg: ThemeConfig, fetched: SourceOutcome) -> Result<
    Palette,
    ThemeFailure,
> {
    if cfg.source@ == "manual"@ {
        match cfg.manual_colors {
            Some(m) => Ok(m@),
            None => Err(ThemeFailure::MissingManualColors),
        }
    } else if cfg.source@ == "system"@ {
        Ok(default_palette())
    } else if cfg.source@ == "file"@ {
        if cfg.file_path is None {
            Err(ThemeFailure::FileNotFound)
        } else {
            outcome_result(fetched)
        }
    } else if cfg.source@ == "command"@ {
        if cfg.command is None {
            Err(ThemeFailure::MissingCommand)
        } else {
            match fetched {
                SourceOutcome::Missing => Err(ThemeFailure::Io(Seq::empty())),
                _ => outcome_result(fetched),
            }
        }
    } else {
        Err(ThemeFailure::UnknownSource(cfg.source@))
    }
}

/// `r` is the resolution `expected`, up to views.
pub open spec fn result_is(r: Result<ThemeColors, ThemeError>, expected: Result<Palette, ThemeFailure>) -> bool {
    match r {
        Ok(c) => expected == Ok::<Palette, ThemeFailure>(c@),
        Err(e) => expected == Err::<Palette, ThemeFailure>(e@),
    }
}

fn default_colors() -> (r: ThemeColors)
    ensures
        r@ == default_palette(),
{
    ThemeColors {
        background: DEFAULT_BACKGROUND.to_owned(),
        primary: DEFAULT_PRIMARY.to_owned(),
        secondary: DEFAULT_SECONDARY.to_owned(),
        text: DEFAULT_TEXT.to_owned(),
        danger: DEFAULT_DANGER.to_owned(),
    }
}

/// Resolves theme colours from a theme configuration.
#[derive(Debug, Clone)]
pub struct ThemeManager {
    pub config: ThemeConfig,
}

impl ThemeManager {
    /// A manager for `config`.
    pub fn new(config: ThemeConfig) -> (r: Result<Self, ThemeError>)
        ensures
            r matches Ok(m) && m.config == config,
    {
        Ok(ThemeManager { config })
    }

    /// The colours of theme text: read as JSON where it parses as JSON, as
    /// `key = value` lines otherwise.
    pub fn extract_colors(&self, text: &str) -> (r: ThemeColors)
        ensures
            r@ == extracted_palette(text@),
    {
        match parse_json(text) {
            Some(doc) => self.parse_json_colors(&doc),
            None => self.parse_simple_colors(text),
        }
    }

    /// The colour of the first key among `keys` under which `json` carries one,
    /// or `default`.
    pub fn extract_color(&self, json: &JsonValue, keys: &Vec<&str>, default: &str) -> (r: String)
        ensures
            r@ == pick_color(*json, keys@, default@),
    {
        let mut i: usize = 0;
        assert(keys@.skip(0) =~= keys@);
        while i < keys.len()
            invariant
                0 <= i <= keys@.len(),
                pick_color(*json, keys@, default@) == pick_color(*json, keys@.skip(i as int), default@),
            decreases keys@.len() - i,
        {
            assert(keys@.skip(i as int).drop_first() =~= keys@.skip(i as int + 1));
            assert(keys@.skip(i as int)[0] == keys@[i as int]);
            if let Some(value) = json.get(keys[i]) {
                if let Some(c) = value.color() {
                    return c;
                }
            }
            i = i + 1;
        }
        default.to_owned()
    }

    /// The colours of a parsed JSON theme document.
    pub fn parse_json_colors(&self, json: &JsonValue) -> (r: ThemeColors)
        ensures
            r@ == json_palette(*json),
    {
        if let Some(colors) = json.get("colors") {
            if colors.get("primary").is_some() {
                let k_background = vec!["surface", "background"];
                let k_primary = vec!["primary"];
                let k_secondary = vec!["secondary", "tertiary"];
                let k_text = vec!["on_surface", "on_background", "text"];
                let k_danger = vec!["error", "danger"];
                assert(k_background@ =~= seq!["surface", "background"]);
                assert(k_primary@ =~= seq!["primary"]);
                assert(k_secondary@ =~= seq!["secondary", "tertiary"]);
                assert(k_text@ =~= seq!["on_surface", "on_background", "text"]);
                assert(k_danger@ =~= seq!["error", "danger"]);
                return ThemeColors {
                    background: self.extract_color(colors, &k_background, DEFAULT_BACKGROUND),
                    primary: self.extract_color(colors, &k_primary, DEFAULT_PRIMARY),
                    secondary: self.extract_color(colors, &k_secondary, DEFAULT_SECONDARY),
                    text: self.extract_color(colors, &k_text, DEFAULT_TEXT),
                    danger: self.extract_color(colors, &k_danger, DEFAULT_DANGER),
                };
            }
        }
        let k_background = vec!["background"];
        let k_primary = vec!["primary"];
        let k_secondary = vec!["secondary"];
        let k_text = vec!["text"];
        let k_danger = vec!["danger"];
        assert(k_background@ =~= seq!["background"]);
        assert(k_primary@ =~= seq!["primary"]);
        assert(k_secondary@ =~= seq!["secondary"]);
        assert(k_text@ =~= seq!["text"]);
        assert(k_danger@ =~= seq!["danger"]);
        ThemeColors {
            background: self.extract_color(json, &k_background, DEFAULT_BACKGROUND),
            primary: self.extract_color(json, &k_primary, DEFAULT_PRIMARY),
            secondary: self.extract_color(json, &k_secondary, DEFAULT_SECONDARY),
            text: self.extract_color(json, &k_text, DEFAULT_TEXT),
            danger: self.extract_color(json, &k_danger, DEFAULT_DANGER),
        }
    }

    /// The colours of line-based `key = value` theme text.
    pub fn parse_simple_colors(&self, content: &str) -> (r: ThemeColors)
        ensures
            r@ == line_palette(content@),
    {
        let mut colors = default_colors();
        let ls = lines(content);
        let mut i: usize = 0;
        assert(text_lines(content@).skip(0) =~= text_lines(content@));
        while i < ls.len()
            invariant
                0 <= i <= ls@.len(),
                ls@.len() == text_lines(content@).len(),
                forall|j: int| 0 <= j < ls@.len() ==> #[trigger] ls@[j]@ == text_lines(content@)[j],
                line_palette(content@) == apply_lines(colors@, text_lines(content@).skip(i as int)),
            decreases ls@.len() - i,
        {
            let ghost all = text_lines(content@);
            assert(all.skip(i as int).drop_first() =~= all.skip(i as int + 1));
            assert(all.skip(i as int)[0] == ls@[i as int]@);
            let line = trim(ls[i].as_str());
            if !line.as_str().is_empty() && !starts_with_char(line.as_str(), '#') {
                if let Some((k, v)) = split_once_char(line.as_str(), '=') {
                    let key_trimmed = trim(k.as_str());
                    let key = to_lower(key_trimmed.as_str());
                    let v1 = trim(v.as_str());
                    let v2 = trim_char(v1.as_str(), '"');
                    let value = trim_char(v2.as_str(), '\'');
                    if !value.as_str().is_empty() {
                        if same_text(key.as_str(), "background") {
                            colors.background = value;
                        } else if same_text(key.as_str(), "primary") {
                            colors.primary = value;
                        } else if same_text(key.as_str(), "secondary") {
                            colors.secondary = value;
                        } else if same_text(key.as_str(), "text") {
                            colors.text = value;
                        } else if same_text(key.as_str(), "danger") {
                            colors.danger = value;
                        }
                    }
                }
            }
            i = i + 1;
        }
        colors
    }

    /// The inline colours of a manual source.
    pub fn get_manual_colors(&self) -> (r: Result<ThemeColors, ThemeError>)
        ensures
            match self.config.manual_colors {
                Some(m) => r matches Ok(c) && c@ == m@,
                None => r matches Err(ThemeError::MissingManualColors),
            },
    {
        match &self.config.manual_colors {
            Some(m) => Ok(
                ThemeColors {
                    background: m.background.clone(),
                    primary: m.primary.clone(),
                    secondary: m.secondary.clone(),
                    text: m.text.clone(),
                    danger: m.danger.clone(),
                },
            ),
            None => Err(ThemeError::MissingManualColors),
        }
    }

    /// The colours of the system source: the built-in palette.
    pub fn get_system_colors(&self) -> (r: Result<ThemeColors, ThemeError>)
        ensures
            r matches Ok(c) && c@ == default_palette(),
    {
        let d = ManualColors::default();
        Ok(
            ThemeColors {
                background: d.background,
                primary: d.primary,
                secondary: d.secondary,
                text: d.text,
                danger: d.danger,
            },
        )
    }

    /// The colours of a file source, given what reading the file produced.
    pub fn get_file_colors(&self, read: &SourceOutcome) -> (r: Result<ThemeColors, ThemeError>)
        ensures
            result_is(
                r,
                if self.config.file_path is None {
                    Err(ThemeFailure::FileNotFound)
                } else {
                    outcome_result(*read)
                },
            ),
    {
        if self.config.file_path.is_none() {
            return Err(ThemeError::FileNotFound);
        }
        match read {
            SourceOutcome::Missing => Err(ThemeError::FileNotFound),
            SourceOutcome::Unreadable(m) => Err(ThemeError::Io(m.clone())),
            SourceOutcome::Exited(e) => Err(ThemeError::CommandFailed(e.clone())),
            SourceOutcome::Text(t) => Ok(self.extract_colors(t.as_str())),
        }
    }

    /// The colours of a command source, given what running the command produced.
    pub fn get_command_colors(&self, run: &SourceOutcome) -> (r: Result<ThemeColors, ThemeError>)
        ensures
            result_is(
                r,
                if self.config.command is None {
                    Err(ThemeFailure::MissingCommand)
                } else {
                    match *run {
                        SourceOutcome::Missing => Err(ThemeFailure::Io(Seq::empty())),
                        _ => outcome_result(*run),
                    }
                },
            ),
    {
        if self.config.command.is_none() {
            return Err(ThemeError::MissingCommand);
        }
        match run {
            SourceOutcome::Missing => Err(ThemeError::Io(String::new())),
            SourceOutcome::Unreadable(m) => Err(ThemeError::Io(m.clone())),
            SourceOutcome::Exited(e) => Err(ThemeError::CommandFailed(e.clone())),
            SourceOutcome::Text(t) => Ok(self.extract_colors(t.as_str())),
        }
    }

    /// The outside work that the configured source needs: the file to read
    /// or the command to run, where one is configured.
    pub fn theme_fetch(&self) -> (r: ThemeFetch)
        ensures
            self.config.source@ == "file"@ && self.config.file_path is Some ==> (r matches ThemeFetch::ReadFile(p)
                && p@ == self.config.file_path->0@),
            self.config.source@ == "command"@ && self.config.command is Some ==> (r matches ThemeFetch::RunCommand(c)
                && c@ == self.config.command->0@),
            !(self.config.source@ == "file"@ && self.config.file_path is Some) && !(self.config.source@
                == "command"@ && self.config.command is Some) ==> r is Nothing,
    {
        proof {
            reveal_strlit("file");
            reveal_strlit("command");
            assert("file"@.len() != "command"@.len());
        }
        let src = self.config.source.as_str();
        if same_text(src, "file") {
            if let Some(p) = &self.config.file_path {
                return ThemeFetch::ReadFile(p.clone());
            }
        } else if same_text(src, "command") {
            if let Some(c) = &self.config.command {
                return ThemeFetch::RunCommand(c.clone());
            }
        }
        ThemeFetch::Nothing
    }

    /// The colours of the configured source, given what its outside work
    /// (`theme_fetch`) produced.
    pub fn get_colors(&self, fetched: &SourceOutcome) -> (r: Result<ThemeColors, ThemeError>)
        ensures
            result_is(r, resolution(self.config, *fetched)),
    {
        let src = self.config.source.as_str();
        if same_text(src, "manual") {
            self.get_manual_colors()
        } else if same_text(src, "system") {
            self.get_system_colors()
        } else if same_text(src, "file") {
            self.get_file_colors(fetched)
        } else if same_text(src, "command") {
            self.get_command_colors(fetched)
        } else {
            Err(ThemeError::UnknownSource(self.config.source.clone()))
        }
    }

    /// The file to watch for theme changes: `None` where watching is off.
    pub fn watch_target(&self) -> (r: Result<Option<String>, ThemeError>)
        ensures
            !self.config.watch_file ==> r matches Ok(None),
            self.config.watch_file ==> match self.config.file_path {
                Some(p) => r matches Ok(Some(q)) && q@ == p@,
                None => r matches Err(ThemeError::MissingFilePath),
            },
    {
        if !self.config.watch_file {
            return Ok(None);
        }
        match &self.config.file_path {
            Some(p) => Ok(Some(p.clone())),
            None => Err(ThemeError::MissingFilePath),
        }
    }

    /// The stylesheet with the text and background colours of `colors`.
    pub fn generate_css(&self, colors: &ThemeColors) -> (r: String)
        ensures
            r@ == stylesheet(colors.text@, colors.background@),
    {
        let text = colors.text.as_str();
        let mut css = STYLE_0.to_owned();
        css.append(colors.background.as_str());
        css.append(STYLE_1);
        css.append(text);
        css.append(STYLE_2);
        css.append(text);
        css.append(STYLE_3);
        css.append(text);
        css.append(STYLE_4);
        css.append(text);
        css.append(STYLE_5);
        css.append(text);
        css.append(STYLE_6);
        css
    }
}

proof fn lemma_pick_color_nonempty(v: JsonValue, keys: Seq<&str>, default: Seq<char>)
    requires
        default.len() > 0,
    ensures
        pick_color(v, keys, default).len() > 0,
    decreases keys.len(),
{
    if keys.len() > 0 {
        lemma_pick_color_nonempty(v, keys.drop_first(), default);
    }
}

proof fn lemma_lines_keep_filled(p: Palette, ls: Seq<Seq<char>>)
    requires
        palette_filled(p),
    ensures
        palette_filled(apply_lines(p, ls)),
    decreases ls.len(),
{
    if ls.len() > 0 {
        lemma_lines_keep_filled(apply_line(p, ls[0]), ls.drop_first());
    }
}

proof fn lemma_default_palette_filled()
    ensures
        palette_filled(default_palette()),
{
    reveal_strlit("rgba(30, 30, 46, 0.8)");
    reveal_strlit("#89b4fa");
    reveal_strlit("#74c7ec");
    reveal_strlit("#cdd6f4");
    reveal_strlit("#f38ba8");
}

/// The extractor is total: whatever the text (empty, not text at all, JSON
/// of any shape), every one of the five colours it yields is non-empty.
pub proof fn lemma_extracted_palette_filled(text: Seq<char>)
    ensures
        palette_filled(extracted_palette(text)),
{
    lemma_default_palette_filled();
    let d = default_palette();
    match json_document(text) {
        Some(doc) => {
            let nested = member(doc, "colors"@);
            let v = if nested is Some && member(nested->0, "primary"@) is Some {
                nested->0
            } else {
                doc
            };
            lemma_pick_color_nonempty(v, seq!["surface", "background"], d.background);
            lemma_pick_color_nonempty(v, seq!["background"], d.background);
            lemma_pick_color_nonempty(v, seq!["primary"], d.primary);
            lemma_pick_color_nonempty(v, seq!["secondary", "tertiary"], d.secondary);
            lemma_pick_color_nonempty(v, seq!["secondary"], d.secondary);
            lemma_pick_color_nonempty(v, seq!["on_surface", "on_background", "text"], d.text);
            lemma_pick_color_nonempty(v, seq!["text"], d.text);
            lemma_pick_color_nonempty(v, seq!["error", "danger"], d.danger);
            lemma_pick_color_nonempty(v, seq!["danger"], d.danger);
        },
        None => {
            lemma_lines_keep_filled(d, text_lines(text));
        },
    }
}

/// A source that lacks the field it needs fails with the error of that
/// field, whatever the outside work produced: a manual source without
/// colours, a file source without a path, a command source without a command.
pub proof fn lemma_missing_field_errors(cfg: ThemeConfig, fetched: SourceOutcome)
    ensures
        cfg.source@ == "manual"@ && cfg.manual_colors is None ==> resolution(cfg, fetched) == Err::<
            Palette,
            ThemeFailure,
        >(ThemeFailure::MissingManualColors),
        cfg.source@ == "file"@ && cfg.file_path is None ==> resolution(cfg, fetched) == Err::<
            Palette,
            ThemeFailure,
        >(ThemeFailure::FileNotFound),
        cfg.source@ == "command"@ && cfg.command is None ==> resolution(cfg, fetched) == Err::<
            Palette,
            ThemeFailure,
        >(ThemeFailure::MissingCommand),
{
    reveal_strlit("manual");
    reveal_strlit("system");
    reveal_strlit("file");
    reveal_strlit("command");
    assert("manual"@[0] != "system"@[0]);
    assert("manual"@.len() != "file"@.len());
    assert("manual"@.len() != "command"@.len());
    assert("system"@.len() != "file"@.len());
    assert("system"@.len() != "command"@.len());
    assert("file"@.len() != "command"@.len());
}

} // verus!
