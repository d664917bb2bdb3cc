//! The merchant: sells seeds and one power at a time, and changes the
//! power on offer every ten seconds.
use vstd::prelude::*;

use crate::areas::is_player_hurtbox;
use crate::clock::{lemma_whole_seconds_threshold, nanos_since, now, seconds_of, whole_seconds};
use crate::global_state::{power_at, power_index, GlobalState, Power, POWER_COUNT};
use crate::random::{choose_index, thread_rng};

verus! {

/// Price of a seed and of a power, in coins.
pub const PRICE: i32 = 5;

/// Seconds between two changes of the power on offer.
pub const RESTOCK_SECONDS: u128 = 10;

/// The `pick`-th power other than `current`, in the merchant's order.
pub open spec fn other_power(current: Power, pick: int) -> Power {
    if pick < power_index(current) {
        power_at(pick)
    } else {
        power_at(pick + 1)
    }
}

/// The merchant's decision for the shop window this frame.
#[derive(Debug, Clone, Copy, PartialEq, Eq, Structural)]
pub enum ShopFocus {
    /// Nothing under the mouse.
    Nothing,
    /// The seeds are highlighted.
    Seeds,
    /// The power is highlighted.
    Power,
}

pub struct Merchant {
    pub player_close: bool,
    pub power: Power,
    pub sold: bool,
    pub last_power: instant::Instant,
}

/// Buying a seed: five coins for one seed, when the player has five coins.
pub open spec fn after_seed_purchase(state: GlobalState) -> GlobalState {
    GlobalState { seeds: (state.seeds + 1) as i32, coins: (state.coins - PRICE) as i32, ..state }
}

/// Buying the power on offer: five coins for the power, whose clock
/// starts at `bought_at`.
pub open spec fn after_power_purchase(
    state: GlobalState,
    power: Power,
    bought_at: Option<instant::Instant>,
) -> GlobalState {
    GlobalState {
        coins: (state.coins - PRICE) as i32,
        power: Some(power),
        last_power: bought_at,
        ..state
    }
}

/// The item highlighted with the mouse over it.
pub open spec fn keyboard_focus(over_seeds: bool, over_power: bool) -> ShopFocus {
    if over_seeds {
        ShopFocus::Seeds
    } else if over_power {
        ShopFocus::Power
    } else {
        ShopFocus::Nothing
    }
}

/// What a release of the second action buys with the mouse.
pub open spec fn keyboard_purchase(
    coins: i32,
    over_seeds: bool,
    over_power: bool,
    released: bool,
) -> Option<ShopFocus> {
    if !released || coins < PRICE || keyboard_focus(over_seeds, over_power) == ShopFocus::Nothing {
        None
    } else {
        Some(keyboard_focus(over_seeds, over_power))
    }
}

/// What the joystick buys: the third action a seed, otherwise the fourth
/// the power.
pub open spec fn joystick_purchase(coins: i32, third_released: bool, fourth_released: bool) -> Option<
    ShopFocus,
> {
    if coins < PRICE {
        None
    } else if third_released {
        Some(ShopFocus::Seeds)
    } else if fourth_released {
        Some(ShopFocus::Power)
    } else {
        None
    }
}

/// What the shop sells this frame: nothing unless the player is close.
pub open spec fn served_purchase(
    merchant: Merchant,
    state: GlobalState,
    keyboard: bool,
    over_seeds: bool,
    over_power: bool,
    second_released: bool,
    third_released: bool,
    fourth_released: bool,
) -> Option<ShopFocus> {
    if !merchant.player_close {
        None
    } else if keyboard {
        keyboard_purchase(state.coins, over_seeds, over_power, second_released)
    } else {
        joystick_purchase(state.coins, third_released, fourth_released)
    }
}

impl Merchant {
    /// A merchant offering a power drawn at random.
    pub fn new() -> (r: Merchant)
        ensures
            !r.player_close,
            !r.sold,
    {
        let mut rng = thread_rng();
        let i = match choose_index(&mut rng, POWER_COUNT) {
            Some(i) => i,
            None => 0,
        };
        Merchant { player_close: false, last_power: now(), sold: false, power: Power::from_index(i) }
    }

    pub fn on_sell_area_entered(&mut self, area_name: &str)
        ensures
            final(self).player_close == (old(self).player_close || area_name@ == "PlayerHurtbox"@),
            final(self).power == old(self).power,
            final(self).sold == old(self).sold,
            final(self).last_power == old(self).last_power,
    {
        if is_player_hurtbox(area_name) {
            self.player_close = true;
        }
    }

    pub fn on_sell_area_exited(&mut self, area_name: &str)
        ensures
            final(self).player_close == (old(self).player_close && area_name@ != "PlayerHurtbox"@),
            final(self).power == old(self).power,
            final(self).sold == old(self).sold,
            final(self).last_power == old(self).last_power,
    {
        if is_player_hurtbox(area_name) {
            self.player_close = false;
        }
    }

    /// The power that replaces `current` when the `pick`-th of the other
    /// three is drawn.
    pub fn other_power(current: Power, pick: usize) -> (r: Power)
        requires
            pick < POWER_COUNT - 1,
        ensures
            r == other_power(current, pick as int),
            r != current,
    {
        let skip = current.index();
        if pick < skip {
            Power::from_index(pick)
        } else {
            Power::from_index(pick + 1)
        }
    }

    /// Draw a new power to offer, always a different one from `current`,
    /// each of the other three equally likely.
    pub fn restock_power(current: Power) -> (r: Power)
        ensures
            r != current,
    {
        let mut rng = thread_rng();
        let pick = match choose_index(&mut rng, POWER_COUNT - 1) {
            Some(pick) => pick,
            None => 0,
        };
        Merchant::other_power(current, pick)
    }

    /// Every ten seconds the merchant offers a new power and can sell
    /// again. Returns whether the offer changed, so that the icon is
    /// redrawn and shown.
    pub fn process(&mut self) -> (restocked: bool)
        ensures
            restocked ==> final(self).power != old(self).power && !final(self).sold,
            !restocked ==> *final(self) == *old(self),
            final(self).player_close == old(self).player_close,
    {
        let since = nanos_since(&self.last_power);
        self.restock_after(since, now())
    }

    /// The rest of `process`, given the time since the offer last changed
    /// and the instant at which a new offer starts.
    pub fn restock_after(&mut self, since_restock_nanos: u128, now: instant::Instant) -> (restocked: bool)
        ensures
            restocked == (whole_seconds(since_restock_nanos) >= RESTOCK_SECONDS),
            restocked == (since_restock_nanos >= 10_000_000_000),
            restocked ==> final(self).power != old(self).power && !final(self).sold && final(
                self).last_power == now,
            !restocked ==> *final(self) == *old(self),
            final(self).player_close == old(self).player_close,
    {
        proof {
            lemma_whole_seconds_threshold(since_restock_nanos, since_restock_nanos, RESTOCK_SECONDS);
        }
        if seconds_of(since_restock_nanos) >= RESTOCK_SECONDS {
            self.last_power = now;
            self.sold = false;
            self.power = Merchant::restock_power(self.power);
            true
        } else {
            false
        }
    }

    /// The shop's input this frame. Nothing is handled unless the player
    /// stands close (`None`); then the keyboard and mouse, or the joystick,
    /// pick the item, as `handle_keyboard` and `handle_joystick` say.
    pub fn serve(
        &mut self,
        state: &mut GlobalState,
        keyboard: bool,
        over_seeds: bool,
        over_power: bool,
        second_released: bool,
        third_released: bool,
        fourth_released: bool,
    ) -> (r: Option<ShopFocus>)
        requires
            old(self).player_close && keyboard && over_seeds && second_released && old(state).coins
                >= PRICE ==> old(state).seeds < i32::MAX,
            old(self).player_close && !keyboard && third_released && old(state).coins >= PRICE
                ==> old(state).seeds < i32::MAX,
        ensures
            r is None <==> !old(self).player_close,
            r is None ==> *final(state) == *old(state) && *final(self) == *old(self),
            r is Some && keyboard ==> r == Some(keyboard_focus(over_seeds, over_power)),
            r is Some && !keyboard ==> r == Some(
                match joystick_purchase(old(state).coins, third_released, fourth_released) {
                    Some(item) => item,
                    None => ShopFocus::Nothing,
                },
            ),
            served_purchase(*old(self), *old(state), keyboard, over_seeds, over_power, second_released, third_released, fourth_released) is None
                ==> *final(state) == *old(state) && final(self).sold == old(self).sold,
            served_purchase(*old(self), *old(state), keyboard, over_seeds, over_power, second_released, third_released, fourth_released) == Some(ShopFocus::Seeds)
                ==> *final(state) == after_seed_purchase(*old(state)) && final(self).sold == old(self).sold,
            served_purchase(*old(self), *old(state), keyboard, over_seeds, over_power, second_released, third_released, fourth_released) == Some(ShopFocus::Power)
                ==> final(self).sold && final(state).last_power is Some && *final(state)
                == after_power_purchase(*old(state), old(self).power, final(state).last_power),
            final(self).power == old(self).power,
            final(self).player_close == old(self).player_close,
            final(self).last_power == old(self).last_power,
    {
        if !self.player_close {
            return None;
        }
        if keyboard {
            Some(self.handle_keyboard(state, over_seeds, over_power, second_released))
        } else {
            Some(self.handle_joystick(state, third_released, fourth_released))
        }
    }

    /// Buy a seed if the player has at least five coins. Returns whether
    /// the sale happened.
    pub fn buy_seed(&self, state: &mut GlobalState) -> (bought: bool)
        requires
            old(state).coins >= PRICE ==> old(state).seeds < i32::MAX,
        ensures
            bought == (old(state).coins >= PRICE),
            bought ==> *final(state) == after_seed_purchase(*old(state)),
            !bought ==> *final(state) == *old(state),
    {
        if state.coins >= PRICE {
            state.update_seeds(1);
            state.update_coins(-PRICE);
            true
        } else {
            false
        }
    }

    /// Buy the power on offer if the player has at least five coins: the
    /// player gets the power for ten seconds and the merchant's icon goes
    /// away until the next offer.
    pub fn buy_power(&mut self, state: &mut GlobalState) -> (bought: bool)
        ensures
            bought == (old(state).coins >= PRICE),
            bought ==> final(self).sold && final(state).last_power is Some
                && *final(state) == after_power_purchase(*old(state), old(self).power, final(state).last_power),
            !bought ==> *final(state) == *old(state) && final(self).sold == old(self).sold,
            final(self).power == old(self).power,
            final(self).player_close == old(self).player_close,
            final(self).last_power == old(self).last_power,
    {
        if state.coins >= PRICE {
            self.sold = true;
            state.set_power(self.power);
            state.update_coins(-PRICE);
            true
        } else {
            false
        }
    }

    /// Keyboard and mouse: the item under the mouse is highlighted, and
    /// releasing the second action buys it.
    pub fn handle_keyboard(
        &mut self,
        state: &mut GlobalState,
        over_seeds: bool,
        over_power: bool,
        action_released: bool,
    ) -> (r: ShopFocus)
        requires
            over_seeds && action_released && old(state).coins >= PRICE ==> old(state).seeds < i32::MAX,
        ensures
            r == (if over_seeds {
                ShopFocus::Seeds
            } else if over_power {
                ShopFocus::Power
            } else {
                ShopFocus::Nothing
            }),
            r == ShopFocus::Seeds && action_released && old(state).coins >= PRICE ==> *final(state)
                == after_seed_purchase(*old(state)),
            r == ShopFocus::Power && action_released && old(state).coins >= PRICE ==> final(self).sold && final(state).last_power is Some
                && *final(state) == after_power_purchase(*old(state), old(self).power, final(state).last_power),
            !action_released || old(state).coins < PRICE || r == ShopFocus::Nothing ==> *final(state)
                == *old(state) && final(self).sold == old(self).sold,
            r == ShopFocus::Seeds ==> final(self).sold == old(self).sold,
            final(self).power == old(self).power,
            final(self).player_close == old(self).player_close,
            final(self).last_power == old(self).last_power,
    {
        if over_seeds {
            if action_released {
                self.buy_seed(state);
            }
            ShopFocus::Seeds
        } else if over_power {
            if action_released {
                self.buy_power(state);
            }
            ShopFocus::Power
        } else {
            ShopFocus::Nothing
        }
    }

    /// Joystick: the third action buys a seed, otherwise the fourth buys
    /// the power. Returns what was bought.
    pub fn handle_joystick(
        &mut self,
        state: &mut GlobalState,
        third_released: bool,
        fourth_released: bool,
    ) -> (r: ShopFocus)
        requires
            third_released && old(state).coins >= PRICE ==> old(state).seeds < i32::MAX,
        ensures
            r == ShopFocus::Seeds <==> third_released && old(state).coins >= PRICE,
            r == ShopFocus::Power <==> !third_released && fourth_released && old(state).coins
                >= PRICE,
            r == ShopFocus::Seeds ==> final(self).sold == old(self).sold,
            r == ShopFocus::Seeds ==> *final(state) == after_seed_purchase(*old(state)),
            r == ShopFocus::Power ==> final(self).sold && final(state).last_power is Some
                && *final(state) == after_power_purchase(*old(state), old(self).power, final(state).last_power),
            r == ShopFocus::Nothing ==> *final(state) == *old(state) && final(self).sold == old(self).sold,
            final(self).power == old(self).power,
            final(self).player_close == old(self).player_close,
            final(self).last_power == old(self).last_power,
    {
        if third_released {
            if self.buy_seed(state) {
                return ShopFocus::Seeds;
            }
            ShopFocus::Nothing
        } else if fourth_released {
            if self.buy_power(state) {
                return ShopFocus::Power;
            }
            ShopFocus::Nothing
        } else {
            ShopFocus::Nothing
        }
    }
}

/// Shopping never drives the counters below zero: a seed is only sold to
/// a player with at least five coins, and leaves the player one seed more.
pub proof fn lemma_seed_purchase_keeps_counts_nonnegative(state: GlobalState)
    requires
        state.coins >= PRICE,
        state.seeds >= 0,
        state.seeds < i32::MAX,
    ensures
        after_seed_purchase(state).coins >= 0,
        after_seed_purchase(state).seeds >= 1,
        after_seed_purchase(state).coins + PRICE == state.coins,
        after_seed_purchase(state).seeds == state.seeds + 1,
{
}

/// Restocking always changes the power on offer, and every power other
/// than the current one can come out.
pub proof fn lemma_restock_reaches_every_other_power(current: Power, other: Power)
    requires
        other != current,
    ensures
        exists|pick: int| 0 <= pick < POWER_COUNT - 1 && #[trigger] other_power(current, pick) == other,
        forall|pick: int| 0 <= pick < POWER_COUNT - 1 ==> #[trigger] other_power(current, pick) != current,
{
    let pick = if power_index(other) < power_index(current) {
        power_index(other)
    } else {
        power_index(other) - 1
    };
    assert(other_power(current, pick) == other);
}

/// The merchant changes the offer exactly once ten seconds
/// (10 000 000 000 nanoseconds) have passed since the offer started, and
/// from then on until it restocks.
pub proof fn lemma_offer_lasts_ten_seconds(since_restock: u128, later: u128)
    requires
        since_restock <= later,
    ensures
        (whole_seconds(since_restock) >= RESTOCK_SECONDS) == (since_restock >= 10_000_000_000),
        whole_seconds(since_restock) >= RESTOCK_SECONDS ==> whole_seconds(later)
            >= RESTOCK_SECONDS,
{
    lemma_whole_seconds_threshold(since_restock, later, RESTOCK_SECONDS);
}

} // verus!
