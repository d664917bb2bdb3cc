//! The best score kept across games, and the score board node.
use vstd::prelude::*;

verus! {

/// The best score after offering `score` to a board holding `best`.
pub open spec fn best_after(best: i32, score: i32) -> i32 {
    if score > best {
        score
    } else {
        best
    }
}

/// The saved best score. Loading and saving the file is the caller's.
#[derive(Debug, Clone, Copy, PartialEq, Eq, Structural)]
pub struct PersistentState {
    pub score: i32,
}

impl PersistentState {
    /// The state when no save file can be read: no best score yet.
    pub fn new() -> (r: PersistentState)
        ensures
            r.score == 0,
    {
        PersistentState { score: 0 }
    }

    /// Offer a reached score: a higher one becomes the best score. Returns
    /// whether it did, so that the file is written again.
    pub fn update_score(&mut self, score: i32) -> (save: bool)
        ensures
            save == (score > old(self).score),
            final(self).score == best_after(old(self).score, score),
    {
        if score > self.score {
            self.score = score;
            true
        } else {
            false
        }
    }
}

/// A score board that keeps the highest score it was given.
#[derive(Debug, Clone, Copy, PartialEq, Eq, Structural)]
pub struct Data {
    pub score: i32,
}

impl Data {
    pub fn new() -> (r: Data)
        ensures
            r.score == 0,
    {
        Data { score: 0 }
    }

    pub fn update_score(&mut self, score: i32)
        ensures
            final(self).score == best_after(old(self).score, score),
    {
        if score > self.score {
            self.score = score;
        }
    }
}

/// The best score never goes down, is at least every score offered, and
/// does not depend on the order in which scores are offered.
pub proof fn lemma_best_score_is_maximum(best: i32, x: i32, y: i32)
    ensures
        best_after(best, x) >= best,
        best_after(best, x) >= x,
        best_after(best_after(best, x), y) == best_after(best_after(best, y), x),
        best_after(best_after(best, x), x) == best_after(best, x),
{
}

} // verus!
