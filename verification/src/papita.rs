//! A grown potato: slimes wear it down, and the player can dig it up to
//! plant the patch again.
use vstd::prelude::*;

use crate::areas::is_enemy_hitbox;
use crate::clock::{lemma_whole_seconds_threshold, nanos_since, now, seconds_of, whole_seconds};

verus! {

/// Hits a potato takes before it is gone.
pub const PAPITA_LIFE: isize = 3;

/// Seconds during which a potato ignores further hits.
pub const PAPITA_HIT_COOLDOWN_SECONDS: u128 = 1;

/// What the engine does with a potato's highlight this frame.
#[derive(Debug, Clone, Copy, PartialEq, Eq, Structural)]
pub enum PapitaAction {
    Hide,
    Show,
    /// Put a fresh dirt patch in its place and remove the potato.
    Unplant,
}

pub struct Papita {
    pub life: isize,
    pub last_hit: Option<instant::Instant>,
}

impl Papita {
    pub fn new() -> (r: Papita)
        ensures
            r.life == PAPITA_LIFE,
            r.last_hit is None,
    {
        Papita { life: PAPITA_LIFE, last_hit: None }
    }

    /// A hitbox touched the potato. Only slime hitboxes count; while a
    /// recent hit is remembered the touch only ages that memory. Returns
    /// whether the potato is destroyed.
    pub fn on_hurtbox_entered(&mut self, area_name: &str) -> (destroyed: bool)
        requires
            old(self).life > isize::MIN,
        ensures
            area_name@ != "HitboxEnemy"@ ==> !destroyed && *final(self) == *old(self),
            old(self).last_hit is Some ==> !destroyed && final(self).life == old(self).life && (
            final(self).last_hit is None || final(self).last_hit == old(self).last_hit),
            area_name@ == "HitboxEnemy"@ && old(self).last_hit is None ==> final(self).life == old(self).life - 1 && final(self).last_hit is Some && destroyed == (final(self).life <= 0),
    {
        if !is_enemy_hitbox(area_name) {
            return false;
        }
        match self.last_hit {
            Some(hit_at) => {
                let since = nanos_since(&hit_at);
                self.cool_down_after(since);
                false
            },
            None => self.take_hit(),
        }
    }

    /// The remembered hit is forgotten once a whole second has passed.
    pub fn cool_down_after(&mut self, since_hit_nanos: u128)
        ensures
            final(self).life == old(self).life,
            final(self).last_hit == (if whole_seconds(since_hit_nanos)
                >= PAPITA_HIT_COOLDOWN_SECONDS {
                None
            } else {
                old(self).last_hit
            }),
            since_hit_nanos >= 1_000_000_000 ==> final(self).last_hit is None,
            since_hit_nanos < 1_000_000_000 ==> final(self).last_hit == old(self).last_hit,
    {
        proof {
            lemma_whole_seconds_threshold(since_hit_nanos, since_hit_nanos, PAPITA_HIT_COOLDOWN_SECONDS);
        }
        if seconds_of(since_hit_nanos) >= PAPITA_HIT_COOLDOWN_SECONDS {
            self.last_hit = None;
        }
    }

    /// One hit: a life less, remembered from now. Returns whether no life
    /// is left.
    pub fn take_hit(&mut self) -> (destroyed: bool)
        requires
            old(self).life > isize::MIN,
        ensures
            final(self).life == old(self).life - 1,
            final(self).last_hit is Some,
            destroyed == (final(self).life <= 0),
    {
        self.take_hit_at(now())
    }

    /// One hit, remembered from `hit_at`. Returns whether no life is left.
    pub fn take_hit_at(&mut self, hit_at: instant::Instant) -> (destroyed: bool)
        requires
            old(self).life > isize::MIN,
        ensures
            final(self).life == old(self).life - 1,
            final(self).last_hit == Some(hit_at),
            destroyed == (final(self).life <= 0),
    {
        self.life = self.life - 1;
        let destroyed = self.life <= 0;
        self.last_hit = Some(hit_at);
        destroyed
    }

    /// The highlight: the player must be within reach and the mouse over
    /// the potato; the second action digs it up.
    pub fn process(&self, player_in_reach: bool, mouse_over: bool, action_pressed: bool) -> (r:
        PapitaAction)
        ensures
            r == (if !player_in_reach || !mouse_over {
                PapitaAction::Hide
            } else if action_pressed {
                PapitaAction::Unplant
            } else {
                PapitaAction::Show
            }),
    {
        if !player_in_reach {
            return PapitaAction::Hide;
        }
        if mouse_over {
            if action_pressed {
                PapitaAction::Unplant
            } else {
                PapitaAction::Show
            }
        } else {
            PapitaAction::Hide
        }
    }
}

/// A potato forgets a hit exactly once a second (1 000 000 000
/// nanoseconds) has passed since it, and from then on.
pub proof fn lemma_papita_forgets_hits_after_a_second(since_hit: u128, later: u128)
    requires
        since_hit <= later,
    ensures
        (whole_seconds(since_hit) >= PAPITA_HIT_COOLDOWN_SECONDS) == (since_hit >= 1_000_000_000),
        whole_seconds(since_hit) >= PAPITA_HIT_COOLDOWN_SECONDS ==> whole_seconds(later)
            >= PAPITA_HIT_COOLDOWN_SECONDS,
{
    lemma_whole_seconds_threshold(since_hit, later, PAPITA_HIT_COOLDOWN_SECONDS);
}

} // verus!
