//! A coin dropped by a slime: it rests on the floor, blinks before it
//! vanishes, and flies to the coin counter once the player touches it.
use vstd::prelude::*;

use crate::areas::is_player_hurtbox;
use crate::clock::{lemma_whole_millis_threshold, millis_of, nanos_since, now, whole_millis};

verus! {

/// Milliseconds a coin rests on the floor before it vanishes.
pub const COIN_LIFETIME_MILLIS: u128 = 6000;

/// Milliseconds after which a resting coin starts to blink.
pub const COIN_BLINK_MILLIS: u128 = 3000;

/// Milliseconds after spawning during which a coin cannot be picked up.
pub const COIN_PICKUP_DELAY_MILLIS: u128 = 10;

#[derive(Debug, Clone, Copy, PartialEq, Eq, Structural)]
pub enum CoinState {
    Floor,
    Collected,
    Flying,
}

impl CoinState {
    pub fn on_floor(&self) -> (r: bool)
        ensures
            r == (*self == CoinState::Floor),
    {
        match self {
            CoinState::Floor => true,
            _ => false,
        }
    }
}

/// What the engine does with the coin this frame.
#[derive(Debug, Clone, Copy, PartialEq, Eq, Structural)]
pub enum CoinAction {
    /// Nothing to show.
    Rest,
    /// Blink; the transparency follows the milliseconds since the spawn.
    Blink { millis: u128 },
    /// Remove the coin.
    Vanish,
    /// Make it opaque and move it above everything, to fly to the counter.
    LiftToHud,
    /// Keep flying to the counter (and count it once it arrives).
    FlyToHud,
}

/// The action for a coin on the floor, `millis` after it spawned.
pub open spec fn floor_action_of(millis: u128) -> CoinAction {
    if millis >= COIN_LIFETIME_MILLIS {
        CoinAction::Vanish
    } else if millis >= COIN_BLINK_MILLIS {
        CoinAction::Blink { millis }
    } else {
        CoinAction::Rest
    }
}

pub struct Coin {
    pub started_at: instant::Instant,
    pub state: CoinState,
}

impl Coin {
    pub fn new() -> (r: Coin)
        ensures
            r.state == CoinState::Floor,
    {
        Coin { started_at: now(), state: CoinState::Floor }
    }

    /// What a floor coin does `millis` after it spawned.
    pub fn floor_action(millis: u128) -> (r: CoinAction)
        ensures
            r == floor_action_of(millis),
    {
        if millis >= COIN_LIFETIME_MILLIS {
            CoinAction::Vanish
        } else if millis >= COIN_BLINK_MILLIS {
            CoinAction::Blink { millis }
        } else {
            CoinAction::Rest
        }
    }

    /// One frame: a floor coin ages, a collected coin starts flying, a
    /// flying coin keeps flying.
    pub fn process(&mut self) -> (r: CoinAction)
        ensures
            old(self).state == CoinState::Floor ==> final(self).state == CoinState::Floor
                && exists|nanos: u128| r == floor_action_of(#[trigger] whole_millis(nanos)),
            old(self).state == CoinState::Collected ==> final(self).state == CoinState::Flying
                && r == CoinAction::LiftToHud,
            old(self).state == CoinState::Flying ==> final(self).state == CoinState::Flying
                && r == CoinAction::FlyToHud,
            final(self).started_at == old(self).started_at,
    {
        match self.state {
            CoinState::Floor => {
                let since = nanos_since(&self.started_at);
                let r = Coin::floor_action(millis_of(since));
                assert(r == floor_action_of(whole_millis(since)));
                r
            },
            CoinState::Collected => {
                self.state = CoinState::Flying;
                CoinAction::LiftToHud
            },
            CoinState::Flying => CoinAction::FlyToHud,
        }
    }

    /// An area touched the coin. Returns whether the pickup sound plays.
    pub fn on_coin_entered(&mut self, area_name: &str) -> (picked: bool)
        ensures
            picked ==> old(self).state == CoinState::Floor && area_name@ == "PlayerHurtbox"@
                && final(self).state == CoinState::Collected,
            !picked ==> final(self).state == old(self).state,
            final(self).started_at == old(self).started_at,
    {
        let since = nanos_since(&self.started_at);
        self.enter_after(since, area_name)
    }

    /// The rest of `on_coin_entered`, given the time since the coin spawned:
    /// only a coin still on the floor, older than ten milliseconds, is
    /// picked up, and only by the player's hurtbox.
    pub fn enter_after(&mut self, since_spawn_nanos: u128, area_name: &str) -> (picked: bool)
        ensures
            picked == (whole_millis(since_spawn_nanos) >= COIN_PICKUP_DELAY_MILLIS && old(self).state == CoinState::Floor && area_name@ == "PlayerHurtbox"@),
            final(self).state == (if picked {
                CoinState::Collected
            } else {
                old(self).state
            }),
            final(self).started_at == old(self).started_at,
            picked == (since_spawn_nanos >= 10_000_000 && old(self).state == CoinState::Floor
                && area_name@ == "PlayerHurtbox"@),
    {
        proof {
            lemma_whole_millis_threshold(since_spawn_nanos, since_spawn_nanos, COIN_PICKUP_DELAY_MILLIS);
        }
        if millis_of(since_spawn_nanos) < COIN_PICKUP_DELAY_MILLIS || !self.state.on_floor() {
            return false;
        }
        if is_player_hurtbox(area_name) {
            self.state = CoinState::Collected;
            true
        } else {
            false
        }
    }
}

/// A coin on the floor can be picked up exactly once ten milliseconds
/// (10 000 000 nanoseconds) have passed since it spawned, and from then on.
pub proof fn lemma_coin_pickable_after_ten_millis(since_spawn: u128, later: u128)
    requires
        since_spawn <= later,
    ensures
        (whole_millis(since_spawn) >= COIN_PICKUP_DELAY_MILLIS) == (since_spawn >= 10_000_000),
        whole_millis(since_spawn) >= COIN_PICKUP_DELAY_MILLIS ==> whole_millis(later)
            >= COIN_PICKUP_DELAY_MILLIS,
{
    lemma_whole_millis_threshold(since_spawn, later, COIN_PICKUP_DELAY_MILLIS);
}

} // verus!
