//! The closed key-name table used when key events are synthesized.
//!
//! A recorded key name is either a single character, synthesized as a
//! literal-character key event, or one of the named keys below.  A
//! multi-character name outside the table is a reportable mapping error,
//! never a best-effort substitution.

use vstd::prelude::*;
use vstd::string::StrSliceExecFns;

verus! {

/// A key the synthesizer addresses by name rather than by character.
#[derive(Debug, Clone, Copy, PartialEq, Eq, Structural)]
pub enum NamedKey {
    Enter,
    Space,
    Backspace,
    Tab,
    Escape,
    Shift,
    Control,
    Alt,
    Meta,
    CapsLock,
}

/// What a key event synthesizes: a literal character, or a named key.
#[derive(Debug, Clone, Copy, PartialEq, Eq, Structural)]
pub enum KeySpec {
    Char { c: char },
    Named { key: NamedKey },
}

/// The named-key table as a function of the key name.
pub open spec fn spec_named_key(s: Seq<char>) -> Option<NamedKey> {
    if s == "Enter"@ {
        Some(NamedKey::Enter)
    } else if s == "Space"@ {
        Some(NamedKey::Space)
    } else if s == "Backspace"@ {
        Some(NamedKey::Backspace)
    } else if s == "Tab"@ {
        Some(NamedKey::Tab)
    } else if s == "Escape"@ {
        Some(NamedKey::Escape)
    } else if s == "Shift"@ {
        Some(NamedKey::Shift)
    } else if s == "Control"@ {
        Some(NamedKey::Control)
    } else if s == "Alt"@ {
        Some(NamedKey::Alt)
    } else if s == "Meta"@ {
        Some(NamedKey::Meta)
    } else if s == "CapsLock"@ {
        Some(NamedKey::CapsLock)
    } else {
        None
    }
}

/// How a key name maps for synthesis: a one-character name becomes that
/// character, a multi-character name is looked up in the named-key table,
/// and anything else has no mapping.
pub open spec fn spec_key_mapping(s: Seq<char>) -> Option<KeySpec> {
    if s.len() == 1 {
        Some(KeySpec::Char { c: s[0] })
    } else {
        match spec_named_key(s) {
            Some(k) => Some(KeySpec::Named { key: k }),
            None => None,
        }
    }
}

/// Compare two string slices by their characters.
fn str_eq(a: &str, b: &str) -> (r: bool)
    ensures
        r == (a@ == b@),
{
    let a_owned: String = a.to_owned();
    let b_owned: String = b.to_owned();
    a_owned == b_owned
}

/// Resolve a recorded key name through the closed table.
pub fn map_key_name(key: &str) -> (r: Option<KeySpec>)
    ensures
        r == spec_key_mapping(key@),
{
    if key.unicode_len() == 1 {
        Some(KeySpec::Char { c: key.get_char(0) })
    } else if str_eq(key, "Enter") {
        Some(KeySpec::Named { key: NamedKey::Enter })
    } else if str_eq(key, "Space") {
        Some(KeySpec::Named { key: NamedKey::Space })
    } else if str_eq(key, "Backspace") {
        Some(KeySpec::Named { key: NamedKey::Backspace })
    } else if str_eq(key, "Tab") {
        Some(KeySpec::Named { key: NamedKey::Tab })
    } else if str_eq(key, "Escape") {
        Some(KeySpec::Named { key: NamedKey::Escape })
    } else if str_eq(key, "Shift") {
        Some(KeySpec::Named { key: NamedKey::Shift })
    } else if str_eq(key, "Control") {
        Some(KeySpec::Named { key: NamedKey::Control })
    } else if str_eq(key, "Alt") {
        Some(KeySpec::Named { key: NamedKey::Alt })
    } else if str_eq(key, "Meta") {
        Some(KeySpec::Named { key: NamedKey::Meta })
    } else if str_eq(key, "CapsLock") {
        Some(KeySpec::Named { key: NamedKey::CapsLock })
    } else {
        None
    }
}

} // verus!
