use vstd::prelude::*;
use crate::text::chars_of;

verus! {

/// The named keys that the application tells apart.
#[derive(Debug, Clone, Copy, PartialEq, Eq)]
pub enum NamedKey {
    Enter,
    Escape,
    Other,
}

/// A pressed key, as the keyboard reports it.
#[derive(Debug, Clone, PartialEq, Eq)]
pub enum KeyInput {
    /// A key that produces text.
    Character(String),
    /// A key with a name.
    Named(NamedKey),
    /// A key the platform could not identify.
    Unidentified,
}

/// The modifier keys held during a key press.
#[derive(Debug, Clone, Copy, PartialEq, Eq)]
pub struct KeyModifiers {
    pub shift: bool,
    pub control: bool,
    pub alt: bool,
    pub logo: bool,
}

impl KeyModifiers {
    /// No modifier held.
    pub fn empty() -> (r: KeyModifiers)
        ensures
            !r.shift && !r.control && !r.alt && !r.logo,
    {
        KeyModifiers { shift: false, control: false, alt: false, logo: false }
    }
}

/// Ctrl+L, with any Shift state but without Alt or the logo key: the key's
/// text is one `l` or `L`, as `eq_ignore_ascii_case("l")` accepts.
pub open spec fn is_log_viewer_shortcut_key(key: KeyInput, modifiers: KeyModifiers) -> bool {
    &&& modifiers.control
    &&& !modifiers.alt
    &&& !modifiers.logo
    &&& key matches KeyInput::Character(text) && (text@ == seq!['l'] || text@ == seq!['L'])
}

/// Ctrl+L is exactly a one-letter `l` or `L` typed with Control held and
/// neither Alt nor the logo key; Shift does not matter, and no named or
/// unidentified key is the shortcut.
pub proof fn lemma_shortcut_is_ctrl_l(key: KeyInput, modifiers: KeyModifiers)
    ensures
        key matches KeyInput::Character(text) ==> (is_log_viewer_shortcut_key(key, modifiers) <==> (
        modifiers.control && !modifiers.alt && !modifiers.logo && text@.len() == 1 && (text@[0]
            == 'l' || text@[0] == 'L'))),
        !(key is Character) ==> !is_log_viewer_shortcut_key(key, modifiers),
        is_log_viewer_shortcut_key(key, modifiers) ==> is_log_viewer_shortcut_key(
            key,
            KeyModifiers { shift: !modifiers.shift, ..modifiers },
        ),
{
    if let KeyInput::Character(text) = key {
        if text@.len() == 1 && (text@[0] == 'l' || text@[0] == 'L') {
            assert(text@ =~= seq![text@[0]]);
        }
    }
}

/// Whether a key press toggles the log viewer.
pub fn is_log_viewer_shortcut(key: &KeyInput, modifiers: KeyModifiers) -> (r: bool)
    ensures
        r == is_log_viewer_shortcut_key(*key, modifiers),
{
    if !modifiers.control || modifiers.alt || modifiers.logo {
        return false;
    }
    match key {
        KeyInput::Character(text) => {
            let chars = chars_of(text.as_str());
            if chars.len() != 1 {
                return false;
            }
            let c = chars[0];
            assert(c == 'l' ==> text@ =~= seq!['l']);
            assert(c == 'L' ==> text@ =~= seq!['L']);
            c == 'l' || c == 'L'
        },
        _ => false,
    }
}

/// Reports whether a key event is an auto-repeat of a Control shortcut; such
/// events are dropped before they reach the application.
pub fn is_repeated_control_shortcut(repeat: bool, modifiers: KeyModifiers) -> (r: bool)
    ensures
        r == (repeat && modifiers.control),
{
    repeat && modifiers.control
}

} // verus!
