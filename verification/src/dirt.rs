//! A patch of dirt where the player plants a seed; the potato grows when
//! the plant's timer runs out.
use vstd::prelude::*;

use crate::areas::is_player_pointer;
use crate::clock::{millis_of, nanos_since, now, whole_millis};
use crate::global_state::GlobalState;

verus! {

/// Milliseconds after a patch appears before it reacts to the player.
pub const DIRT_READY_MILLIS: u128 = 500;

/// What the engine does with a patch's highlight this frame.
#[derive(Debug, Clone, Copy, PartialEq, Eq, Structural)]
pub enum MarkerAction {
    /// Too young: leave everything as it is.
    Wait,
    /// Hide the highlight.
    Hide,
    /// Show the highlight.
    Show,
    /// Show the highlight and the seed, and start the ten-second growth timer.
    Plant,
}

pub struct Dirt {
    pub planted: bool,
    pub created_at: instant::Instant,
    /// Whether the player's pointer area is over the patch.
    pub player_inside: bool,
}

/// Whether using the patch would plant: a seed is available.
pub open spec fn can_plant(state: GlobalState) -> bool {
    state.seeds > 0
}

impl Dirt {
    pub fn new() -> (r: Dirt)
        ensures
            !r.planted,
            !r.player_inside,
    {
        Dirt { planted: false, created_at: now(), player_inside: false }
    }

    /// Use one seed if there is one. Returns whether a seed was used.
    pub fn consume_seed(&self, state: &mut GlobalState) -> (used: bool)
        ensures
            used == (old(state).seeds > 0),
            used ==> *final(state) == (GlobalState { seeds: (old(state).seeds - 1) as i32, ..*old(state) }),
            !used ==> *final(state) == *old(state),
    {
        if state.seeds > 0 {
            state.update_seeds(-1);
            true
        } else {
            false
        }
    }

    /// One frame. With a keyboard the player plants by pointing the mouse at
    /// a patch within reach; with a joystick, by standing on it. Either way
    /// the second action plants when a seed is available.
    pub fn process(
        &mut self,
        state: &mut GlobalState,
        keyboard: bool,
        player_in_reach: bool,
        mouse_over: bool,
        action_pressed: bool,
    ) -> (r: MarkerAction)
        ensures
            r == MarkerAction::Wait ==> *final(state) == *old(state) && final(self).planted == old(self).planted,
            r != MarkerAction::Wait && keyboard ==> r == keyboard_outcome(
                old(self).planted,
                *old(state),
                player_in_reach,
                mouse_over,
                action_pressed,
            ),
            r != MarkerAction::Wait && !keyboard ==> r == joystick_outcome(
                old(self).planted,
                old(self).player_inside,
                *old(state),
                action_pressed,
            ),
            r == MarkerAction::Plant ==> final(self).planted && *final(state) == (GlobalState {
                seeds: (old(state).seeds - 1) as i32,
                ..*old(state)
            }),
            r != MarkerAction::Plant ==> final(self).planted == old(self).planted && *final(state)
                == *old(state),
            final(self).player_inside == old(self).player_inside,
            final(self).created_at == old(self).created_at,
    {
        let since = nanos_since(&self.created_at);
        self.process_after(state, since, keyboard, player_in_reach, mouse_over, action_pressed)
    }

    /// The rest of `process`, given the time since the patch appeared.
    pub fn process_after(
        &mut self,
        state: &mut GlobalState,
        since_created_nanos: u128,
        keyboard: bool,
        player_in_reach: bool,
        mouse_over: bool,
        action_pressed: bool,
    ) -> (r: MarkerAction)
        ensures
            whole_millis(since_created_nanos) < DIRT_READY_MILLIS ==> r == MarkerAction::Wait,
            whole_millis(since_created_nanos) >= DIRT_READY_MILLIS && keyboard ==> r
                == keyboard_outcome(
                old(self).planted,
                *old(state),
                player_in_reach,
                mouse_over,
                action_pressed,
            ),
            whole_millis(since_created_nanos) >= DIRT_READY_MILLIS && !keyboard ==> r
                == joystick_outcome(
                old(self).planted,
                old(self).player_inside,
                *old(state),
                action_pressed,
            ),
            r == MarkerAction::Plant ==> final(self).planted && *final(state) == (GlobalState {
                seeds: (old(state).seeds - 1) as i32,
                ..*old(state)
            }),
            r != MarkerAction::Plant ==> final(self).planted == old(self).planted && *final(state)
                == *old(state),
            final(self).player_inside == old(self).player_inside,
            final(self).created_at == old(self).created_at,
    {
        if millis_of(since_created_nanos) < DIRT_READY_MILLIS {
            return MarkerAction::Wait;
        }
        if keyboard {
            self.handle_keyboard(state, player_in_reach, mouse_over, action_pressed)
        } else {
            self.handle_joystick(state, action_pressed)
        }
    }

    /// Keyboard and mouse: the patch must be within reach of the player and
    /// under the mouse.
    pub fn handle_keyboard(
        &mut self,
        state: &mut GlobalState,
        player_in_reach: bool,
        mouse_over: bool,
        action_pressed: bool,
    ) -> (r: MarkerAction)
        ensures
            r == keyboard_outcome(
                old(self).planted,
                *old(state),
                player_in_reach,
                mouse_over,
                action_pressed,
            ),
            r == MarkerAction::Plant ==> final(self).planted && *final(state) == (GlobalState {
                seeds: (old(state).seeds - 1) as i32,
                ..*old(state)
            }),
            r != MarkerAction::Plant ==> final(self).planted == old(self).planted && *final(state)
                == *old(state),
            final(self).player_inside == old(self).player_inside,
            final(self).created_at == old(self).created_at,
    {
        if !player_in_reach || self.planted {
            return MarkerAction::Hide;
        }
        if mouse_over {
            if action_pressed {
                if self.consume_seed(state) {
                    self.planted = true;
                    return MarkerAction::Plant;
                }
            }
            MarkerAction::Show
        } else {
            MarkerAction::Hide
        }
    }

    /// Joystick: the player's pointer must be over the patch.
    pub fn handle_joystick(&mut self, state: &mut GlobalState, action_pressed: bool) -> (r:
        MarkerAction)
        ensures
            r == joystick_outcome(
                old(self).planted,
                old(self).player_inside,
                *old(state),
                action_pressed,
            ),
            r == MarkerAction::Plant ==> final(self).planted && *final(state) == (GlobalState {
                seeds: (old(state).seeds - 1) as i32,
                ..*old(state)
            }),
            r != MarkerAction::Plant ==> final(self).planted == old(self).planted && *final(state)
                == *old(state),
            final(self).player_inside == old(self).player_inside,
            final(self).created_at == old(self).created_at,
    {
        if !self.player_inside || self.planted {
            return MarkerAction::Hide;
        }
        if action_pressed {
            if self.consume_seed(state) {
                self.planted = true;
                return MarkerAction::Plant;
            }
        }
        MarkerAction::Show
    }

    pub fn on_area_entered(&mut self, area_name: &str)
        ensures
            final(self).player_inside == (old(self).player_inside || area_name@
                == "PlayerPointer"@),
            final(self).planted == old(self).planted,
            final(self).created_at == old(self).created_at,
    {
        if is_player_pointer(area_name) {
            self.player_inside = true;
        }
    }

    pub fn on_area_exited(&mut self, area_name: &str)
        ensures
            final(self).player_inside == (old(self).player_inside && area_name@
                != "PlayerPointer"@),
            final(self).planted == old(self).planted,
            final(self).created_at == old(self).created_at,
    {
        if is_player_pointer(area_name) {
            self.player_inside = false;
        }
    }
}

/// The highlight with keyboard and mouse.
pub open spec fn keyboard_outcome(
    planted: bool,
    state: GlobalState,
    player_in_reach: bool,
    mouse_over: bool,
    action_pressed: bool,
) -> MarkerAction {
    if !player_in_reach || planted {
        MarkerAction::Hide
    } else if !mouse_over {
        MarkerAction::Hide
    } else if action_pressed && can_plant(state) {
        MarkerAction::Plant
    } else {
        MarkerAction::Show
    }
}

/// The highlight with a joystick.
pub open spec fn joystick_outcome(
    planted: bool,
    player_inside: bool,
    state: GlobalState,
    action_pressed: bool,
) -> MarkerAction {
    if !player_inside || planted {
        MarkerAction::Hide
    } else if action_pressed && can_plant(state) {
        MarkerAction::Plant
    } else {
        MarkerAction::Show
    }
}

} // verus!
