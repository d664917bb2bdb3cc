//! Which controller layout the player uses, judged from the joystick name.
use vstd::prelude::*;

use crate::text::{contains_str, seq_contains, spec_to_lowercase, str_eq, to_lowercase};

verus! {

#[derive(Debug, Clone, Copy, PartialEq, Eq, Structural)]
pub enum Joytype {
    Keyboard,
    Xbox,
    Psx,
    Nintendo,
}

/// A lowercase joystick name that belongs to a PlayStation pad.
pub open spec fn spec_is_psx(name: Seq<char>) -> bool {
    ||| name == "ps4 controller"@
    ||| name == "ps5_controller"@
    ||| seq_contains(name, "dualshock"@)
    ||| seq_contains(name, "sony"@)
}

/// A lowercase joystick name that belongs to a Nintendo pad.
pub open spec fn spec_is_nintendo(name: Seq<char>) -> bool {
    seq_contains(name, "nintendo"@) || seq_contains(name, "pro controller"@)
}

/// The layout for an already lowercased joystick name: no name means no
/// joystick; PlayStation names win over Nintendo names; anything else is
/// treated as an Xbox pad.
pub open spec fn layout_of(name: Seq<char>) -> Joytype {
    if name.len() == 0 {
        Joytype::Keyboard
    } else if spec_is_psx(name) {
        Joytype::Psx
    } else if spec_is_nintendo(name) {
        Joytype::Nintendo
    } else {
        Joytype::Xbox
    }
}

impl Joytype {
    pub fn is_keyboard(&self) -> (r: bool)
        ensures
            r == (*self == Joytype::Keyboard),
    {
        match self {
            Joytype::Keyboard => true,
            _ => false,
        }
    }

    /// The layout for a joystick name that is already lowercase.
    pub fn from_lowercase_name(name: &str) -> (r: Joytype)
        ensures
            r == layout_of(name@),
    {
        if name.unicode_len() == 0 {
            Joytype::Keyboard
        } else if is_psx(name) {
            Joytype::Psx
        } else if is_nintendo(name) {
            Joytype::Nintendo
        } else {
            Joytype::Xbox
        }
    }

    /// The layout for a joystick name as the engine reports it: the name is
    /// lowercased first.
    pub fn from_joy_name(name: &str) -> (r: Joytype)
        ensures
            r == layout_of(spec_to_lowercase(name@)),
    {
        let lower = to_lowercase(name);
        Joytype::from_lowercase_name(lower.as_str())
    }
}

pub fn is_psx(name: &str) -> (r: bool)
    ensures
        r == spec_is_psx(name@),
{
    str_eq(name, "ps4 controller") || str_eq(name, "ps5_controller") || contains_str(
        name,
        "dualshock",
    ) || contains_str(name, "sony")
}

pub fn is_nintendo(name: &str) -> (r: bool)
    ensures
        r == spec_is_nintendo(name@),
{
    contains_str(name, "nintendo") || contains_str(name, "pro controller")
}

} // verus!
