//! The pause menu and the signs along the paths.
use vstd::prelude::*;

use crate::areas::is_player_hurtbox;

verus! {

/// What the pause menu does this frame.
#[derive(Debug, Clone, Copy, PartialEq, Eq, Structural)]
pub struct PauseFrame {
    /// Give the focus to the music slider.
    pub grab_focus: bool,
    /// The new paused state (the menu shows exactly while paused).
    pub toggle_to: Option<bool>,
}

pub struct Paused;

impl Paused {
    pub fn new() -> (r: Paused) {
        Paused
    }

    /// While paused, the music slider takes the focus unless one of the
    /// two sliders has it; the pause action toggles the pause.
    pub fn process(
        &self,
        is_paused: bool,
        music_focused: bool,
        sfx_focused: bool,
        pause_pressed: bool,
    ) -> (r: PauseFrame)
        ensures
            r.grab_focus == (is_paused && !music_focused && !sfx_focused),
            r.toggle_to == (if pause_pressed {
                Some(!is_paused)
            } else {
                None
            }),
    {
        let grab_focus = is_paused && !music_focused && !sfx_focused;
        let toggle_to = if pause_pressed {
            Some(!is_paused)
        } else {
            None
        };
        PauseFrame { grab_focus, toggle_to }
    }
}

pub struct Sign;

impl Sign {
    pub fn new() -> (r: Sign) {
        Sign
    }

    /// The sign turns translucent while the player stands behind it.
    /// Returns whether the area is the player's.
    pub fn on_sign_entered(&self, area_name: &str) -> (fade: bool)
        ensures
            fade == (area_name@ == "PlayerHurtbox"@),
    {
        is_player_hurtbox(area_name)
    }

    /// The sign turns opaque again when the player leaves.
    pub fn on_sign_exited(&self, area_name: &str) -> (restore: bool)
        ensures
            restore == (area_name@ == "PlayerHurtbox"@),
    {
        is_player_hurtbox(area_name)
    }
}

} // verus!
