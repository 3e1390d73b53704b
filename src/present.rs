//! What an action's button and confirmation prompt show.
use vstd::prelude::*;
use vstd::string::StringExecFns;
use crate::config::ActionConfig;
use crate::text::{contains_char, first_char, lowercased, starts_with_char, to_lower};

verus! {

/// What an action's button shows as its picture.
#[derive(Debug, Clone)]
pub enum IconChoice {
    /// The image file at this path.
    File(String),
    /// The themed icon of this name.
    Named(String),
    /// This character, in place of an image file that does not exist.
    Fallback(char),
}

/// An icon is a file path where it starts with `/` or holds a `.`; it is an
/// icon name otherwise.
pub open spec fn names_file(icon: Seq<char>) -> bool {
    (icon.len() > 0 && icon[0] == '/') || icon.contains('.')
}

/// The character shown in place of a missing icon file: the first of the
/// action's name, or `?` for an empty name.
pub open spec fn fallback_glyph(name: Seq<char>) -> char {
    if name.len() > 0 {
        name[0]
    } else {
        '?'
    }
}

/// Whether `icon` names an image file rather than a themed icon.
pub fn icon_is_file(icon: &str) -> (r: bool)
    ensures
        r == names_file(icon@),
{
    starts_with_char(icon, '/') || contains_char(icon, '.')
}

/// The picture of `action`'s button; `file_exists` tells whether its icon,
/// read as a path, names an existing file.
pub fn choose_icon(action: &ActionConfig, file_exists: bool) -> (r: IconChoice)
    ensures
        !names_file(action.icon@) ==> (r matches IconChoice::Named(n) && n@ == action.icon@),
        names_file(action.icon@) && file_exists ==> (r matches IconChoice::File(p) && p@
            == action.icon@),
        names_file(action.icon@) && !file_exists ==> r == IconChoice::Fallback(
            fallback_glyph(action.name@),
        ),
{
    if icon_is_file(action.icon.as_str()) {
        if file_exists {
            IconChoice::File(action.icon.clone())
        } else {
            match first_char(action.name.as_str()) {
                Some(c) => IconChoice::Fallback(c),
                None => IconChoice::Fallback('?'),
            }
        }
    } else {
        IconChoice::Named(action.icon.clone())
    }
}

/// The tooltip of `action`'s button: its name and its key, or "no key".
pub fn tooltip(action: &ActionConfig) -> (r: String)
    ensures
        r@ == action.name@ + " ("@ + match action.keybind {
            Some(k) => k@,
            None => "no key"@,
        } + ")"@,
{
    let mut t = action.name.clone();
    t.append(" (");
    match &action.keybind {
        Some(k) => t.append(k.as_str()),
        None => t.append("no key"),
    }
    t.append(")");
    t
}

/// The title of the prompt that confirms `action`.
pub fn confirmation_title(action: &ActionConfig) -> (r: String)
    ensures
        r@ == "Confirm "@ + action.name@,
{
    let mut t = "Confirm ".to_owned();
    t.append(action.name.as_str());
    t
}

/// The question of the prompt that confirms `action`, with its name in lower case.
pub fn confirmation_message(action: &ActionConfig) -> (r: String)
    ensures
        r@ == "Are you sure you want to "@ + lowercased(action.name@) + "?"@,
{
    let mut t = "Are you sure you want to ".to_owned();
    let lower = to_lower(action.name.as_str());
    t.append(lower.as_str());
    t.append("?");
    t
}

} // verus!
