//! The heads-up display: the width of the heart bar and the texts of the
//! counters.
use vstd::prelude::*;

use crate::global_state::GlobalState;
use vstd::string::to_string_from_display_ensures;

verus! {

/// Pixel width of one heart in the bar.
pub const HEART_WIDTH: i64 = 12;

/// Pixel gap after each whole heart.
pub const HEART_MARGIN: i64 = 4;

/// Whole hearts in `half_hearts`, rounded toward zero.
pub open spec fn whole_hearts(half_hearts: int) -> int {
    if half_hearts >= 0 {
        half_hearts / 2
    } else {
        -((-half_hearts) / 2)
    }
}

/// Width of the visible part of the heart bar: twelve pixels per heart,
/// four more after each whole heart, and half a margin at the end.
pub open spec fn heart_bar_width(half_hearts: int) -> int {
    half_hearts * HEART_WIDTH / 2 + whole_hearts(half_hearts) * HEART_MARGIN + HEART_MARGIN / 2
}

/// What the display shows for a state.
pub struct HudView {
    pub heart_width: i64,
    pub coins: String,
    pub seeds: String,
    pub score: String,
}

pub struct Hud;

impl Hud {
    pub fn new() -> (r: Hud) {
        Hud
    }

    /// Everything the display shows for `state`.
    pub fn on_state_changed(&self, state: &GlobalState) -> (r: HudView)
        ensures
            r.heart_width == heart_bar_width(state.player_life as int),
            to_string_from_display_ensures::<i32>(&state.coins, r.coins),
            to_string_from_display_ensures::<i32>(&state.seeds, r.seeds),
            to_string_from_display_ensures::<i32>(&state.score, r.score),
    {
        HudView {
            coins: self.update_coins(state),
            heart_width: self.update_life(state),
            score: self.update_score(state),
            seeds: self.update_seeds(state),
        }
    }

    /// Width of the heart bar for the player's life.
    pub fn update_life(&self, state: &GlobalState) -> (width: i64)
        ensures
            width == heart_bar_width(state.player_life as int),
    {
        let half_hearts = state.player_life as i64;
        let whole = if half_hearts >= 0 {
            half_hearts / 2
        } else {
            -((-half_hearts) / 2)
        };
        half_hearts * HEART_WIDTH / 2 + whole * HEART_MARGIN + HEART_MARGIN / 2
    }

    /// Text of the coin counter.
    pub fn update_coins(&self, state: &GlobalState) -> (text: String)
        ensures
            to_string_from_display_ensures::<i32>(&state.coins, text),
    {
        state.coins.to_string()
    }

    /// Text of the seed counter.
    pub fn update_seeds(&self, state: &GlobalState) -> (text: String)
        ensures
            to_string_from_display_ensures::<i32>(&state.seeds, text),
    {
        state.seeds.to_string()
    }

    /// Text of the score.
    pub fn update_score(&self, state: &GlobalState) -> (text: String)
        ensures
            to_string_from_display_ensures::<i32>(&state.score, text),
    {
        state.score.to_string()
    }
}

/// A full life of three hearts fills fifty pixels, and every half heart
/// more or less widens or narrows the bar.
pub proof fn lemma_heart_bar_grows_with_life(a: int, b: int)
    requires
        0 <= a < b,
    ensures
        heart_bar_width(a) < heart_bar_width(b),
        heart_bar_width(6) == 50,
        heart_bar_width(0) == 2,
{
    assert(a * 12 / 2 == a * 6);
    assert(b * 12 / 2 == b * 6);
}

} // verus!
