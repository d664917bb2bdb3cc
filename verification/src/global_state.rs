//! The player's shared state: life, coins, seeds, score, the heart buff
//! that can drop and the power bought from the merchant.
//!
//! Life is counted in half hearts: a full life of three hearts is six.
use vstd::prelude::*;

use crate::clock::{lemma_whole_seconds_threshold, nanos_since, now, seconds_of, whole_seconds};
use crate::persistence::{best_after, PersistentState};
use crate::random::{gen_ratio, thread_rng};

verus! {

/// Half hearts in a full life (three hearts).
pub const FULL_LIFE: i32 = 6;

/// Seconds that a bought power lasts.
pub const POWER_SECONDS: u128 = 10;

/// Seconds after a collected buff before another can drop.
pub const BUFF_COOLDOWN_SECONDS: u128 = 10;

/// A drop has one chance in this many to become a heart buff.
pub const BUFF_ODDS: u32 = 1000;

/// The powers that the merchant sells, in the order the merchant lists them.
#[derive(Debug, Clone, Copy, PartialEq, Eq, Structural)]
pub enum Power {
    Attack,
    Speed,
    Defence,
    Invisibility,
}

/// Number of powers.
pub const POWER_COUNT: usize = 4;

pub open spec fn power_at(i: int) -> Power {
    if i == 0 {
        Power::Attack
    } else if i == 1 {
        Power::Speed
    } else if i == 2 {
        Power::Defence
    } else {
        Power::Invisibility
    }
}

pub open spec fn power_index(p: Power) -> int {
    match p {
        Power::Attack => 0,
        Power::Speed => 1,
        Power::Defence => 2,
        Power::Invisibility => 3,
    }
}

impl Power {
    /// The power at position `i` of the merchant's list.
    pub fn from_index(i: usize) -> (r: Power)
        requires
            i < POWER_COUNT,
        ensures
            r == power_at(i as int),
            power_index(r) == i,
    {
        if i == 0 {
            Power::Attack
        } else if i == 1 {
            Power::Speed
        } else if i == 2 {
            Power::Defence
        } else {
            Power::Invisibility
        }
    }

    /// Position of the power in the merchant's list.
    pub fn index(&self) -> (r: usize)
        ensures
            r == power_index(*self),
            r < POWER_COUNT,
            power_at(r as int) == *self,
    {
        match self {
            Power::Attack => 0,
            Power::Speed => 1,
            Power::Defence => 2,
            Power::Invisibility => 3,
        }
    }

    /// Resource path of the icon that shows the power.
    pub fn texture_path(&self) -> (r: &'static str)
        ensures
            r@ == match *self {
                Power::Attack => "res://assets/ui/Espada.png"@,
                Power::Speed => "res://assets/ui/Zapatito.png"@,
                Power::Defence => "res://assets/ui/Escudo.png"@,
                Power::Invisibility => "res://assets/ui/Invisible.png"@,
            },
    {
        match self {
            Power::Attack => "res://assets/ui/Espada.png",
            Power::Speed => "res://assets/ui/Zapatito.png",
            Power::Defence => "res://assets/ui/Escudo.png",
            Power::Invisibility => "res://assets/ui/Invisible.png",
        }
    }
}

#[derive(Debug, Clone, Copy, PartialEq, Eq, Structural)]
pub enum Buff {
    Heart,
}

#[derive(Debug, Clone, Copy)]
pub struct GlobalState {
    /// Life in half hearts.
    pub player_life: i32,
    pub coins: i32,
    pub seeds: i32,
    pub score: i32,
    /// The buff waiting to be picked up, if one dropped.
    pub collectable_buff: Option<Buff>,
    /// When a buff was last picked up (or the state created).
    pub last_collectable: Option<instant::Instant>,
    pub power: Option<Power>,
    /// When the current power was bought.
    pub last_power: Option<instant::Instant>,
}

/// Life after picking up a heart buff: half a heart more, but never more
/// than a full life.
pub open spec fn healed_life(life: i32) -> i32 {
    if life + 1 < FULL_LIFE {
        (life + 1) as i32
    } else {
        FULL_LIFE
    }
}

impl GlobalState {
    /// The state at the start of a game: three hearts, no coins, one seed,
    /// no score, no buff, no power, and the buff cooldown just started.
    pub open spec fn is_fresh(&self) -> bool {
        &&& self.player_life == FULL_LIFE
        &&& self.coins == 0
        &&& self.seeds == 1
        &&& self.score == 0
        &&& self.collectable_buff is None
        &&& self.last_collectable is Some
        &&& self.power is None
        &&& self.last_power is None
    }

    /// The buff cooldown clock is set. Every way of making a state sets it,
    /// and every method keeps it set.
    pub open spec fn has_buff_clock(&self) -> bool {
        self.last_collectable is Some
    }

    /// What `get_buff` needs: the cooldown clock exists whenever no buff is
    /// waiting. Every state that this library makes satisfies it.
    pub open spec fn buff_clock_ok(&self) -> bool {
        self.collectable_buff is Some || self.last_collectable is Some
    }
}

impl Default for GlobalState {
    fn default() -> (r: Self)
        ensures
            r.has_buff_clock(),
            r.is_fresh(),
    {
        GlobalState {
            player_life: FULL_LIFE,
            coins: 0,
            seeds: 1,
            score: 0,
            collectable_buff: None,
            last_collectable: Some(now()),
            power: None,
            last_power: None,
        }
    }
}

impl GlobalState {
    /// A fresh state for a new game.
    pub fn new() -> (r: Self)
        ensures
            r.has_buff_clock(),
            r.is_fresh(),
    {
        GlobalState::default()
    }

    /// Back to the start of a game.
    pub fn reset(&mut self)
        ensures
            final(self).has_buff_clock(),
            final(self).is_fresh(),
    {
        *self = GlobalState::default();
    }

    /// The per-frame check: a power bought ten or more seconds ago runs
    /// out. Returns whether the state changed.
    pub fn process(&mut self) -> (changed: bool)
        ensures
            old(self).has_buff_clock() ==> final(self).has_buff_clock(),
            old(self).last_power is None ==> !changed,
            changed ==> *final(self) == (GlobalState { power: None, last_power: None, ..*old(self) }),
            !changed ==> *final(self) == *old(self),
    {
        match self.last_power {
            Some(bought) => {
                let since = nanos_since(&bought);
                self.expire_power_after(since)
            },
            None => false,
        }
    }

    /// The power runs out once `since_bought_nanos` reaches ten whole seconds.
    pub fn expire_power_after(&mut self, since_bought_nanos: u128) -> (changed: bool)
        requires
            old(self).last_power is Some,
        ensures
            old(self).has_buff_clock() ==> final(self).has_buff_clock(),
            changed == (whole_seconds(since_bought_nanos) >= POWER_SECONDS),
            changed == (since_bought_nanos >= 10_000_000_000),
            changed ==> *final(self) == (GlobalState { power: None, last_power: None, ..*old(self) }),
            !changed ==> *final(self) == *old(self),
    {
        proof {
            lemma_whole_seconds_threshold(since_bought_nanos, since_bought_nanos, POWER_SECONDS);
        }
        if seconds_of(since_bought_nanos) >= POWER_SECONDS {
            self.last_power = None;
            self.power = None;
            true
        } else {
            false
        }
    }

    /// Maybe drop a heart buff: never while one is waiting or within ten
    /// seconds of the last pickup, otherwise with one chance in a thousand.
    pub fn get_buff(&mut self) -> (r: Option<Buff>)
        requires
            old(self).buff_clock_ok(),
        ensures
            old(self).has_buff_clock() ==> final(self).has_buff_clock(),
            old(self).collectable_buff is Some ==> r is None,
            r is None ==> *final(self) == *old(self),
            r is Some ==> r == Some(Buff::Heart) && *final(self) == (GlobalState {
                collectable_buff: Some(Buff::Heart),
                ..*old(self)
            }),
    {
        if self.collectable_buff.is_some() {
            return None;
        }
        let since = match self.last_collectable {
            Some(at) => nanos_since(&at),
            None => 0,
        };
        if seconds_of(since) < BUFF_COOLDOWN_SECONDS {
            return None;
        }
        let mut rng = thread_rng();
        let lucky = gen_ratio(&mut rng, 1, BUFF_ODDS);
        self.offer_buff(since, lucky)
    }

    /// The rest of `get_buff`, given the time since the last pickup and the
    /// outcome of the one-in-a-thousand draw.
    pub fn offer_buff(&mut self, since_collect_nanos: u128, lucky: bool) -> (r: Option<Buff>)
        ensures
            old(self).has_buff_clock() ==> final(self).has_buff_clock(),
            r == (if old(self).collectable_buff is None && whole_seconds(since_collect_nanos)
                >= BUFF_COOLDOWN_SECONDS && lucky {
                Some(Buff::Heart)
            } else {
                None
            }),
            r is None ==> *final(self) == *old(self),
            r is Some ==> *final(self) == (GlobalState {
                collectable_buff: Some(Buff::Heart),
                ..*old(self)
            }),
    {
        if self.collectable_buff.is_some() || seconds_of(since_collect_nanos)
            < BUFF_COOLDOWN_SECONDS {
            return None;
        }
        if lucky {
            self.collectable_buff = Some(Buff::Heart);
            self.collectable_buff
        } else {
            None
        }
    }

    /// Take a power; its ten seconds start now.
    pub fn set_power(&mut self, power: Power)
        ensures
            old(self).has_buff_clock() ==> final(self).has_buff_clock(),
            final(self).power == Some(power),
            final(self).last_power is Some,
            *final(self) == (GlobalState {
                power: Some(power),
                last_power: final(self).last_power,
                ..*old(self)
            }),
    {
        self.set_power_at(power, now());
    }

    /// Take a power whose ten seconds start at `bought_at`.
    pub fn set_power_at(&mut self, power: Power, bought_at: instant::Instant)
        ensures
            old(self).has_buff_clock() ==> final(self).has_buff_clock(),
            *final(self) == (GlobalState {
                power: Some(power),
                last_power: Some(bought_at),
                ..*old(self)
            }),
    {
        self.power = Some(power);
        self.last_power = Some(bought_at);
    }

    /// Pick up the waiting heart buff: half a heart more life, up to a full
    /// life, and the cooldown restarts. Returns `false`, changing nothing,
    /// when no buff is waiting.
    pub fn collect_buff(&mut self) -> (collected: bool)
        ensures
            old(self).has_buff_clock() ==> final(self).has_buff_clock(),
            collected == (old(self).collectable_buff is Some),
            !collected ==> *final(self) == *old(self),
            collected ==> *final(self) == (GlobalState {
                player_life: healed_life(old(self).player_life),
                collectable_buff: None,
                last_collectable: final(self).last_collectable,
                ..*old(self)
            }),
            collected ==> final(self).last_collectable is Some,
    {
        if self.collectable_buff.is_some() {
            self.collect_buff_at(now())
        } else {
            false
        }
    }

    /// `collect_buff`, with the cooldown restarting at `collected_at`.
    pub fn collect_buff_at(&mut self, collected_at: instant::Instant) -> (collected: bool)
        ensures
            old(self).has_buff_clock() ==> final(self).has_buff_clock(),
            collected == (old(self).collectable_buff is Some),
            !collected ==> *final(self) == *old(self),
            collected ==> *final(self) == (GlobalState {
                player_life: healed_life(old(self).player_life),
                collectable_buff: None,
                last_collectable: Some(collected_at),
                ..*old(self)
            }),
    {
        match self.collectable_buff {
            Some(Buff::Heart) => {
                self.last_collectable = Some(collected_at);
                self.collectable_buff = None;
                self.player_life = if self.player_life < FULL_LIFE - 1 {
                    self.player_life + 1
                } else {
                    FULL_LIFE
                };
                true
            },
            None => false,
        }
    }

    /// Add `half_hearts` (negative for damage) and return the new life.
    pub fn update_life(&mut self, half_hearts: i32) -> (life: i32)
        requires
            i32::MIN <= old(self).player_life + half_hearts <= i32::MAX,
        ensures
            old(self).has_buff_clock() ==> final(self).has_buff_clock(),
            life == old(self).player_life + half_hearts,
            *final(self) == (GlobalState { player_life: life, ..*old(self) }),
    {
        self.player_life = self.player_life + half_hearts;
        self.player_life
    }

    /// Add `coins` (negative to spend) and return the new amount.
    pub fn update_coins(&mut self, coins: i32) -> (total: i32)
        requires
            i32::MIN <= old(self).coins + coins <= i32::MAX,
        ensures
            old(self).has_buff_clock() ==> final(self).has_buff_clock(),
            total == old(self).coins + coins,
            *final(self) == (GlobalState { coins: total, ..*old(self) }),
    {
        self.coins = self.coins + coins;
        self.coins
    }

    /// Add `seeds` (negative to use some) and return the new amount.
    pub fn update_seeds(&mut self, seeds: i32) -> (total: i32)
        requires
            i32::MIN <= old(self).seeds + seeds <= i32::MAX,
        ensures
            old(self).has_buff_clock() ==> final(self).has_buff_clock(),
            total == old(self).seeds + seeds,
            *final(self) == (GlobalState { seeds: total, ..*old(self) }),
    {
        self.seeds = self.seeds + seeds;
        self.seeds
    }

    /// Add `score` points and return the new score, which the caller also
    /// offers to the saved best score.
    pub fn update_score(&mut self, score: i32) -> (total: i32)
        requires
            i32::MIN <= old(self).score + score <= i32::MAX,
        ensures
            old(self).has_buff_clock() ==> final(self).has_buff_clock(),
            total == old(self).score + score,
            *final(self) == (GlobalState { score: total, ..*old(self) }),
    {
        self.score = self.score + score;
        self.score
    }

    /// Add `score` points and offer the new score to the saved best score.
    /// Returns the new score and whether the best score rose, so that the
    /// save file is written again.
    pub fn record_score(&mut self, best: &mut PersistentState, score: i32) -> (r: (i32, bool))
        requires
            i32::MIN <= old(self).score + score <= i32::MAX,
        ensures
            old(self).has_buff_clock() ==> final(self).has_buff_clock(),
            r.0 == old(self).score + score,
            *final(self) == (GlobalState { score: r.0, ..*old(self) }),
            r.1 == (r.0 > old(best).score),
            final(best).score == best_after(old(best).score, r.0),
    {
        let total = self.update_score(score);
        let save = best.update_score(total);
        (total, save)
    }
}

/// A heart buff never heals past a full life, never takes life away from
/// a player who is not above full life, and gives at most half a heart.
pub proof fn lemma_heart_buff_caps_life(life: i32)
    ensures
        healed_life(life) <= FULL_LIFE,
        life <= FULL_LIFE ==> life <= healed_life(life) <= life + 1,
        life < FULL_LIFE ==> healed_life(life) == life + 1,
{
}

/// A state whose buff clock is set always meets what `get_buff` needs,
/// so `get_buff` can be called on any state that `default`, `new` or
/// `reset` made and the methods of `GlobalState` then changed.
pub proof fn lemma_buff_clock_enables_get_buff(state: GlobalState)
    requires
        state.has_buff_clock(),
    ensures
        state.buff_clock_ok(),
{
}

/// A power runs out exactly once ten seconds (10 000 000 000 nanoseconds)
/// have passed since it was bought, and once out it stays out.
pub proof fn lemma_power_lasts_ten_seconds(since_bought: u128, later: u128)
    requires
        since_bought <= later,
    ensures
        (whole_seconds(since_bought) >= POWER_SECONDS) == (since_bought >= 10_000_000_000),
        whole_seconds(since_bought) >= POWER_SECONDS ==> whole_seconds(later) >= POWER_SECONDS,
{
    lemma_whole_seconds_threshold(since_bought, later, POWER_SECONDS);
}

} // verus!
