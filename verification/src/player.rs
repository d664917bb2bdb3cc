//! The player's combat state: moving or attacking, and the short
//! invulnerability after being hit.
use vstd::prelude::*;

use crate::areas::is_enemy_hitbox;
use crate::clock::{nanos_since, now, seconds_of, whole_seconds};
use crate::global_state::GlobalState;

verus! {

/// Half hearts lost to one slime hit (ten hearts: every hit is fatal).
pub const PLAYER_HIT_DAMAGE: i32 = 20;

/// Seconds the player stays tinted and ignores hits after one.
pub const PLAYER_HIT_COOLDOWN_SECONDS: u128 = 1;

#[derive(Debug, Clone, Copy, PartialEq, Eq, Structural)]
pub enum PlayerState {
    Move,
    Attack,
}

/// What a touch by a hitbox did to the player.
#[derive(Debug, Clone, Copy, PartialEq, Eq, Structural)]
pub enum HurtOutcome {
    Ignored,
    Hurt,
    /// No life left: back to the title screen.
    Died,
}

pub struct Player {
    pub state: PlayerState,
    pub last_hit: Option<instant::Instant>,
}

impl Player {
    pub fn new() -> (r: Player)
        ensures
            r.state == PlayerState::Move,
            r.last_hit is None,
    {
        Player { state: PlayerState::Move, last_hit: None }
    }

    /// The attack animation ended.
    pub fn on_attack_finish(&mut self)
        ensures
            final(self).state == PlayerState::Move,
            final(self).last_hit == old(self).last_hit,
    {
        self.state = PlayerState::Move;
    }

    /// The state decision of a movement frame: pressing attack starts an
    /// attack.
    pub fn move_state(&mut self, attack_pressed: bool)
        ensures
            final(self).state == (if attack_pressed {
                PlayerState::Attack
            } else {
                old(self).state
            }),
            final(self).last_hit == old(self).last_hit,
    {
        if attack_pressed {
            self.state = PlayerState::Attack;
        }
    }

    /// One frame of the hit cooldown. Returns whether the player is still
    /// tinted as recently hit.
    pub fn handle_hit_cooldown(&mut self) -> (tinted: bool)
        ensures
            tinted == final(self).last_hit is Some,
            old(self).last_hit is None ==> final(self).last_hit is None,
            final(self).last_hit is Some ==> final(self).last_hit == old(self).last_hit,
            final(self).state == old(self).state,
    {
        match self.last_hit {
            Some(hit_at) => {
                let since = nanos_since(&hit_at);
                self.cool_down_after(since);
            },
            None => {},
        }
        self.last_hit.is_some()
    }

    /// The remembered hit expires after a whole second.
    pub fn cool_down_after(&mut self, since_hit_nanos: u128)
        ensures
            final(self).last_hit == (if whole_seconds(since_hit_nanos)
                >= PLAYER_HIT_COOLDOWN_SECONDS {
                None
            } else {
                old(self).last_hit
            }),
            final(self).state == old(self).state,
    {
        if seconds_of(since_hit_nanos) >= PLAYER_HIT_COOLDOWN_SECONDS {
            self.last_hit = None;
        }
    }

    /// A hitbox touched the player: a slime hitbox hurts unless a hit is
    /// still remembered.
    pub fn on_hurtbox_entered(&mut self, state: &mut GlobalState, area_name: &str) -> (r:
        HurtOutcome)
        requires
            area_name@ == "HitboxEnemy"@ && old(self).last_hit is None ==> old(state).player_life
                - PLAYER_HIT_DAMAGE >= i32::MIN,
        ensures
            r == HurtOutcome::Ignored <==> (area_name@ != "HitboxEnemy"@ || old(self).last_hit is Some),
            r == HurtOutcome::Ignored ==> *final(state) == *old(state) && final(self).last_hit == old(self).last_hit,
            r != HurtOutcome::Ignored ==> final(self).last_hit is Some && *final(state) == (
            GlobalState { player_life: (old(state).player_life - PLAYER_HIT_DAMAGE) as i32, ..*old(state) }),
            r == HurtOutcome::Died <==> r != HurtOutcome::Ignored && final(state).player_life <= 0,
            final(self).state == old(self).state,
    {
        if !is_enemy_hitbox(area_name) || self.last_hit.is_some() {
            return HurtOutcome::Ignored;
        }
        self.on_hurtbox_entered_at(state, area_name, now())
    }

    /// `on_hurtbox_entered`, with a hit remembered from `hit_at`.
    pub fn on_hurtbox_entered_at(
        &mut self,
        state: &mut GlobalState,
        area_name: &str,
        hit_at: instant::Instant,
    ) -> (r: HurtOutcome)
        requires
            area_name@ == "HitboxEnemy"@ && old(self).last_hit is None ==> old(state).player_life
                - PLAYER_HIT_DAMAGE >= i32::MIN,
        ensures
            r == HurtOutcome::Ignored <==> (area_name@ != "HitboxEnemy"@ || old(self).last_hit is Some),
            r == HurtOutcome::Ignored ==> *final(state) == *old(state) && *final(self) == *old(self),
            r != HurtOutcome::Ignored ==> final(self).last_hit == Some(hit_at) && *final(state) == (
            GlobalState { player_life: (old(state).player_life - PLAYER_HIT_DAMAGE) as i32, ..*old(state) }),
            r == HurtOutcome::Died <==> r != HurtOutcome::Ignored && final(state).player_life <= 0,
            final(self).state == old(self).state,
    {
        if !is_enemy_hitbox(area_name) {
            return HurtOutcome::Ignored;
        }
        if self.last_hit.is_some() {
            return HurtOutcome::Ignored;
        }
        self.last_hit = Some(hit_at);
        let life = state.update_life(-PLAYER_HIT_DAMAGE);
        if life <= 0 {
            HurtOutcome::Died
        } else {
            HurtOutcome::Hurt
        }
    }
}

} // verus!
