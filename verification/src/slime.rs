//! A slime: it chases the player or a potato, flashes when hit, dies after
//! losing its life and leaves a coin behind.
use vstd::prelude::*;

use crate::areas::is_player_hitbox;
use crate::clock::{lemma_whole_millis_threshold, millis_of, nanos_since, now, seconds_of, whole_millis, whole_seconds};
use crate::global_state::{GlobalState, Power};
use crate::random::{choose_index, gen_range_below, thread_rng};

verus! {

/// Damage per point of strength of the hitbox that lands.
pub const SLIME_DAMAGE_PER_STRENGTH: i32 = 10;

/// Milliseconds during which a hit slime flashes and ignores further hits.
pub const SLIME_HIT_COOLDOWN_MILLIS: u128 = 250;

/// Seconds of the dying animation before the slime is removed.
pub const SLIME_DYING_SECONDS: u128 = 2;

/// Least milliseconds between two turns of the slime's sprite.
pub const SLIME_FLIP_MILLIS: u128 = 150;

#[derive(Debug, Clone, Copy, PartialEq, Eq, Structural)]
pub enum SlimeKind {
    Orange,
    Green,
    Blue,
}

/// Number of slime kinds.
pub const SLIME_KIND_COUNT: usize = 3;

pub open spec fn slime_kind_at(i: int) -> SlimeKind {
    if i == 0 {
        SlimeKind::Orange
    } else if i == 1 {
        SlimeKind::Green
    } else {
        SlimeKind::Blue
    }
}

/// Life of a fresh slime of each kind.
pub open spec fn kind_life(kind: SlimeKind) -> i32 {
    match kind {
        SlimeKind::Orange => 20,
        SlimeKind::Green => 30,
        SlimeKind::Blue => 20,
    }
}

/// Strength of the slime's own hitbox.
pub open spec fn kind_strength(kind: SlimeKind) -> i32 {
    match kind {
        SlimeKind::Orange => 2,
        SlimeKind::Green => 1,
        SlimeKind::Blue => 1,
    }
}

/// Acceleration towards the target: fifty times the kind's speed (the
/// blue slime is half again as fast).
pub open spec fn kind_acceleration(kind: SlimeKind) -> i32 {
    match kind {
        SlimeKind::Orange => 50,
        SlimeKind::Green => 50,
        SlimeKind::Blue => 75,
    }
}

impl SlimeKind {
    pub fn from_index(i: usize) -> (r: SlimeKind)
        requires
            i < SLIME_KIND_COUNT,
        ensures
            r == slime_kind_at(i as int),
    {
        if i == 0 {
            SlimeKind::Orange
        } else if i == 1 {
            SlimeKind::Green
        } else {
            SlimeKind::Blue
        }
    }

    /// The colour name used in the sprite's file name.
    pub fn name(&self) -> (r: &'static str)
        ensures
            r@ == match *self {
                SlimeKind::Orange => "orange"@,
                SlimeKind::Green => "green"@,
                SlimeKind::Blue => "blue"@,
            },
    {
        match self {
            SlimeKind::Orange => "orange",
            SlimeKind::Green => "green",
            SlimeKind::Blue => "blue",
        }
    }

    /// Resource path of the kind's sprite sheet.
    pub fn texture_path(&self) -> (r: String)
        ensures
            r@ == "res://assets/enemies/slime-"@ + self.name_spec() + ".png"@,
    {
        let mut path = String::from_str("res://assets/enemies/slime-");
        path.append(self.name());
        path.append(".png");
        path
    }

    pub open spec fn name_spec(&self) -> Seq<char> {
        match *self {
            SlimeKind::Orange => "orange"@,
            SlimeKind::Green => "green"@,
            SlimeKind::Blue => "blue"@,
        }
    }

    /// Life, strength and acceleration of the kind.
    pub fn stats(&self) -> (r: (i32, i32, i32))
        ensures
            r == (kind_life(*self), kind_strength(*self), kind_acceleration(*self)),
    {
        match self {
            SlimeKind::Orange => (20, 2, 50),
            SlimeKind::Green => (30, 1, 50),
            SlimeKind::Blue => (20, 1, 75),
        }
    }
}

/// Where a slime heads this frame.
#[derive(Debug, Clone, Copy, PartialEq, Eq, Structural)]
pub enum SlimeTarget {
    Player,
    /// The potato at this child index among the potatoes.
    Papita(i64),
    /// No target: roam around a random spot.
    Wander,
}

/// The sprite's tint this frame.
#[derive(Debug, Clone, Copy, PartialEq, Eq, Structural)]
pub enum HitTint {
    /// Fully opaque.
    Solid,
    /// Flashing; the transparency follows the milliseconds since the hit.
    Flash { millis: u128 },
    /// The hit just expired: leave the tint as it is this frame.
    Unchanged,
}

/// What a touch by a hitbox did to the slime.
#[derive(Debug, Clone, Copy, PartialEq, Eq, Structural)]
pub enum SlimeHit {
    Ignored,
    /// Pushed back and flashing.
    Hit,
    /// Out of life: play the dying animation and drop a coin.
    Killed,
}

pub struct Slime {
    pub dying: Option<instant::Instant>,
    pub last_flip: Option<instant::Instant>,
    /// Child index of the potato being chased.
    pub target: Option<i64>,
    pub kind: SlimeKind,
    pub life: i32,
    pub strength: i32,
    pub acceleration: i32,
    pub last_hit: Option<instant::Instant>,
}

/// A fresh slime of the given kind.
pub open spec fn fresh_slime(s: Slime, kind: SlimeKind) -> bool {
    &&& s.kind == kind
    &&& s.life == kind_life(kind)
    &&& s.strength == kind_strength(kind)
    &&& s.acceleration == kind_acceleration(kind)
    &&& s.dying is None
    &&& s.last_flip is None
    &&& s.target is None
    &&& s.last_hit is None
}

impl Slime {
    /// A slime of a kind drawn at random.
    pub fn new() -> (r: Slime)
        ensures
            exists|i: int| 0 <= i < SLIME_KIND_COUNT && fresh_slime(r, #[trigger] slime_kind_at(i)),
    {
        let mut rng = thread_rng();
        let picked = choose_index(&mut rng, SLIME_KIND_COUNT);
        let i = match picked {
            Some(i) => i,
            None => 0,
        };
        let kind = SlimeKind::from_index(i);
        Slime::of_kind(kind)
    }

    /// A fresh slime of the given kind.
    pub fn of_kind(kind: SlimeKind) -> (r: Slime)
        ensures
            fresh_slime(r, kind),
    {
        let (life, strength, acceleration) = kind.stats();
        Slime {
            dying: None,
            last_flip: None,
            target: None,
            kind,
            life,
            strength,
            acceleration,
            last_hit: None,
        }
    }

    /// The player can be seen unless invisibility is active.
    pub fn is_player_visible(&self, state: &GlobalState) -> (r: bool)
        ensures
            r == (state.power != Some(Power::Invisibility)),
    {
        match state.power {
            Some(Power::Invisibility) => false,
            _ => true,
        }
    }

    /// A random potato index among `child_count` potatoes, if there is any.
    pub fn get_random_target_id(&self, child_count: i64) -> (r: Option<i64>)
        ensures
            child_count <= 0 ==> r is None,
            child_count > 0 ==> (r matches Some(i) && 0 <= i < child_count),
    {
        if child_count <= 0 {
            None
        } else {
            let mut rng = thread_rng();
            Some(gen_range_below(&mut rng, child_count))
        }
    }

    /// Where to head this frame. A visible player close by comes first;
    /// when no potato is left a visible player is chased anywhere; then the
    /// current potato, while it exists; then a potato drawn at random;
    /// otherwise the slime wanders.
    pub fn get_target_vector(
        &mut self,
        player_visible: bool,
        player_present: bool,
        player_near: bool,
        child_count: i64,
    ) -> (r: SlimeTarget)
        ensures
            r == SlimeTarget::Player <==> player_present && player_visible && (player_near
                || child_count == 0),
            r != SlimeTarget::Player && old(self).target is Some && 0 <= old(self).target->0
                < child_count ==> r == SlimeTarget::Papita(old(self).target->0),
            r is Papita ==> 0 <= r->0 < child_count && final(self).target == Some(r->0),
            r == SlimeTarget::Wander ==> child_count <= 0 && final(self).target is None,
            r != SlimeTarget::Wander && r != SlimeTarget::Player ==> r is Papita,
            r == SlimeTarget::Player ==> final(self).target == old(self).target,
            final(self).dying == old(self).dying,
            final(self).last_hit == old(self).last_hit,
            final(self).last_flip == old(self).last_flip,
            final(self).life == old(self).life,
            final(self).kind == old(self).kind,
            *final(self) == (Slime { target: final(self).target, ..*old(self) }),
    {
        if player_present && player_visible && player_near {
            return SlimeTarget::Player;
        }
        if child_count == 0 && player_visible && player_present {
            return SlimeTarget::Player;
        }
        if let Some(target) = self.target {
            if 0 <= target && target < child_count {
                return SlimeTarget::Papita(target);
            }
        }
        let random_target = self.get_random_target_id(child_count);
        self.settle_target(random_target, child_count)
    }

    /// The end of `get_target_vector`, given the potato drawn at random.
    pub fn settle_target(&mut self, random_target: Option<i64>, child_count: i64) -> (r:
        SlimeTarget)
        ensures
            r == (match random_target {
                Some(i) => if 0 <= i < child_count {
                    SlimeTarget::Papita(i)
                } else {
                    SlimeTarget::Wander
                },
                None => SlimeTarget::Wander,
            }),
            final(self).target == (match r {
                SlimeTarget::Papita(i) => Some(i),
                _ => None,
            }),
            final(self).dying == old(self).dying,
            final(self).last_hit == old(self).last_hit,
            final(self).last_flip == old(self).last_flip,
            final(self).life == old(self).life,
            final(self).kind == old(self).kind,
            *final(self) == (Slime { target: final(self).target, ..*old(self) }),
    {
        if let Some(i) = random_target {
            if 0 <= i && i < child_count {
                self.target = Some(i);
                return SlimeTarget::Papita(i);
            }
        }
        self.target = None;
        SlimeTarget::Wander
    }

    /// One frame of the hit flash.
    pub fn handle_hit_cooldown(&mut self) -> (r: HitTint)
        ensures
            old(self).dying is Some ==> r == HitTint::Solid && final(self).last_hit == old(self).last_hit,
            old(self).dying is None && old(self).last_hit is None ==> r == HitTint::Solid
                && final(self).last_hit is None,
            r == HitTint::Unchanged ==> final(self).last_hit is None,
            r is Flash ==> final(self).last_hit == old(self).last_hit,
            old(self).dying is None && old(self).last_hit is Some ==> r != HitTint::Solid,
            final(self).dying == old(self).dying,
            final(self).life == old(self).life,
            *final(self) == (Slime { last_hit: final(self).last_hit, ..*old(self) }),
            final(self).target == old(self).target,
    {
        if self.dying.is_some() {
            return HitTint::Solid;
        }
        match self.last_hit {
            Some(hit_at) => {
                let since = nanos_since(&hit_at);
                self.flash_after(since)
            },
            None => HitTint::Solid,
        }
    }

    /// The flash of a hit `since_hit_nanos` ago: a quarter second of
    /// flashing, then the hit is forgotten.
    pub fn flash_after(&mut self, since_hit_nanos: u128) -> (r: HitTint)
        ensures
            r == (if whole_millis(since_hit_nanos) >= SLIME_HIT_COOLDOWN_MILLIS {
                HitTint::Unchanged
            } else {
                HitTint::Flash { millis: whole_millis(since_hit_nanos) }
            }),
            final(self).last_hit == (if r == HitTint::Unchanged {
                None
            } else {
                old(self).last_hit
            }),
            final(self).dying == old(self).dying,
            final(self).life == old(self).life,
            *final(self) == (Slime { last_hit: final(self).last_hit, ..*old(self) }),
            final(self).target == old(self).target,
            (r == HitTint::Unchanged) == (since_hit_nanos >= 250_000_000),
    {
        proof {
            lemma_whole_millis_threshold(since_hit_nanos, since_hit_nanos, SLIME_HIT_COOLDOWN_MILLIS);
        }
        let millis = millis_of(since_hit_nanos);
        if millis >= SLIME_HIT_COOLDOWN_MILLIS {
            self.last_hit = None;
            HitTint::Unchanged
        } else {
            HitTint::Flash { millis }
        }
    }

    /// A hitbox touched the slime. Only the player's weapon counts, and not
    /// while the slime flashes from a hit or is dying; it takes ten damage
    /// per point of the weapon's strength.
    pub fn on_hurtbox_area_entered(&mut self, area_name: &str, strength: i32) -> (r: SlimeHit)
        requires
            old(self).last_hit is None && old(self).dying is None && area_name@ == "Hitbox"@
                ==> i32::MIN <= SLIME_DAMAGE_PER_STRENGTH * strength <= i32::MAX && i32::MIN <= old(
                self).life - SLIME_DAMAGE_PER_STRENGTH * strength <= i32::MAX,
        ensures
            r == SlimeHit::Ignored <==> (old(self).last_hit is Some || old(self).dying is Some
                || area_name@ != "Hitbox"@),
            r == SlimeHit::Ignored ==> final(self).life == old(self).life && final(self).last_hit
                == old(self).last_hit && final(self).dying == old(self).dying,
            r != SlimeHit::Ignored ==> final(self).life == old(self).life
                - SLIME_DAMAGE_PER_STRENGTH * strength && final(self).last_hit is Some,
            r == SlimeHit::Killed <==> r != SlimeHit::Ignored && final(self).life <= 0,
            r == SlimeHit::Killed ==> final(self).dying is Some,
            r == SlimeHit::Hit ==> final(self).dying == old(self).dying,
            final(self).target == old(self).target,
            final(self).kind == old(self).kind,
            r == SlimeHit::Ignored ==> *final(self) == *old(self),
            *final(self) == (Slime {
                life: final(self).life,
                last_hit: final(self).last_hit,
                dying: final(self).dying,
                ..*old(self)
            }),
    {
        if self.last_hit.is_some() || self.dying.is_some() || !is_player_hitbox(area_name) {
            return SlimeHit::Ignored;
        }
        self.on_hurtbox_area_entered_at(area_name, strength, now())
    }

    /// `on_hurtbox_area_entered`, with the hit (and a death) taking place
    /// at `hit_at`.
    pub fn on_hurtbox_area_entered_at(
        &mut self,
        area_name: &str,
        strength: i32,
        hit_at: instant::Instant,
    ) -> (r: SlimeHit)
        requires
            old(self).last_hit is None && old(self).dying is None && area_name@ == "Hitbox"@
                ==> i32::MIN <= SLIME_DAMAGE_PER_STRENGTH * strength <= i32::MAX && i32::MIN <= old(
                self).life - SLIME_DAMAGE_PER_STRENGTH * strength <= i32::MAX,
        ensures
            r == SlimeHit::Ignored <==> (old(self).last_hit is Some || old(self).dying is Some
                || area_name@ != "Hitbox"@),
            r == SlimeHit::Ignored ==> final(self).life == old(self).life && final(self).last_hit
                == old(self).last_hit && final(self).dying == old(self).dying,
            r != SlimeHit::Ignored ==> final(self).life == old(self).life
                - SLIME_DAMAGE_PER_STRENGTH * strength && final(self).last_hit == Some(hit_at),
            r == SlimeHit::Killed <==> r != SlimeHit::Ignored && final(self).life <= 0,
            r == SlimeHit::Killed ==> final(self).dying == Some(hit_at),
            r == SlimeHit::Hit ==> final(self).dying == old(self).dying,
            final(self).target == old(self).target,
            final(self).kind == old(self).kind,
            r == SlimeHit::Ignored ==> *final(self) == *old(self),
            *final(self) == (Slime {
                life: final(self).life,
                last_hit: final(self).last_hit,
                dying: final(self).dying,
                ..*old(self)
            }),
    {
        if self.last_hit.is_some() || self.dying.is_some() || !is_player_hitbox(area_name) {
            return SlimeHit::Ignored;
        }
        self.life = self.life - SLIME_DAMAGE_PER_STRENGTH * strength;
        self.last_hit = Some(hit_at);
        if self.life <= 0 {
            self.dying = Some(hit_at);
            SlimeHit::Killed
        } else {
            SlimeHit::Hit
        }
    }

    /// Whether the dying animation is over (more than two seconds).
    pub fn is_dead(&self) -> (r: bool)
        ensures
            self.dying is None ==> !r,
    {
        match self.dying {
            Some(since) => {
                let nanos = nanos_since(&since);
                Slime::dying_over(nanos)
            },
            None => false,
        }
    }

    /// More than two seconds after the slime started dying.
    pub fn dying_over(since_dying_nanos: u128) -> (r: bool)
        ensures
            r == (since_dying_nanos > SLIME_DYING_SECONDS * 1_000_000_000),
    {
        since_dying_nanos > SLIME_DYING_SECONDS * 1_000_000_000
    }

    /// Whether the slime attacks this frame: it is close to its target and
    /// not flashing from a hit.
    pub fn should_attack(&self, close_to_target: bool) -> (r: bool)
        ensures
            r == (close_to_target && self.last_hit is None),
    {
        close_to_target && self.last_hit.is_none()
    }

    /// Whether the sprite may turn this frame: at most once every 150
    /// milliseconds. A turn restarts the wait.
    pub fn turn_sprite(&mut self) -> (turned: bool)
        ensures
            old(self).last_flip is None ==> turned,
            turned ==> final(self).last_flip is Some,
            !turned ==> *final(self) == *old(self),
            *final(self) == (Slime { last_flip: final(self).last_flip, ..*old(self) }),
    {
        let since = match self.last_flip {
            Some(last_flip) => nanos_since(&last_flip),
            None => 0,
        };
        self.turn_sprite_after(since, now())
    }

    /// The rest of `turn_sprite`, given the time since the last turn: the
    /// sprite turns when it never turned, or when the last turn is at least
    /// 150 milliseconds old; a turn is remembered from `now`.
    pub fn turn_sprite_after(&mut self, since_flip_nanos: u128, now: instant::Instant) -> (turned:
        bool)
        ensures
            turned == (old(self).last_flip is None || whole_millis(since_flip_nanos)
                >= SLIME_FLIP_MILLIS),
            turned ==> final(self).last_flip == Some(now),
            !turned ==> *final(self) == *old(self),
            *final(self) == (Slime { last_flip: final(self).last_flip, ..*old(self) }),
    {
        if self.last_flip.is_some() && millis_of(since_flip_nanos) < SLIME_FLIP_MILLIS {
            return false;
        }
        self.last_flip = Some(now);
        true
    }

    /// The question mark shows when the player is invisible and the slime
    /// has no potato to chase and is not dying.
    pub fn handle_is_confussed(&self, state: &GlobalState) -> (r: bool)
        ensures
            r == (state.power == Some(Power::Invisibility) && self.target is None && self.dying is None),
    {
        !self.is_player_visible(state) && self.target.is_none() && self.dying.is_none()
    }
}

/// A wandering slime picks a new spot once more than a whole second has
/// passed since it picked the current one.
pub fn wander_spot_due(since_update_nanos: u128) -> (r: bool)
    ensures
        r == (whole_seconds(since_update_nanos) > 1),
{
    seconds_of(since_update_nanos) > 1
}

/// A hit stops the flash exactly once a quarter of a second (250 000 000
/// nanoseconds) has passed since it landed, and once over it stays over;
/// before that the flash follows the whole milliseconds since the hit.
pub proof fn lemma_hit_flash_lasts_a_quarter_second(since_hit: u128, later: u128)
    requires
        since_hit <= later,
    ensures
        (whole_millis(since_hit) >= SLIME_HIT_COOLDOWN_MILLIS) == (since_hit >= 250_000_000),
        whole_millis(since_hit) >= SLIME_HIT_COOLDOWN_MILLIS ==> whole_millis(later)
            >= SLIME_HIT_COOLDOWN_MILLIS,
        since_hit < 250_000_000 ==> whole_millis(since_hit) < SLIME_HIT_COOLDOWN_MILLIS
            && whole_millis(since_hit) * 1_000_000 <= since_hit,
{
    lemma_whole_millis_threshold(since_hit, later, SLIME_HIT_COOLDOWN_MILLIS);
    assert(whole_millis(since_hit) * 1_000_000 <= since_hit) by (nonlinear_arith)
        requires
            whole_millis(since_hit) == since_hit / 1_000_000,
    ;
}

} // verus!
