//! The game's waves: every ten seconds a new wave of slimes spawns at
//! distinct spawn points, one more slime every three waves.
use vstd::prelude::*;

use crate::random::{choose_index, thread_rng};

verus! {

/// Number of slimes a wave wants: one, and one more every three waves.
pub open spec fn slimes_in_wave(wave: int) -> int {
    wave / 3 + 1
}

/// Number of slimes that actually spawn: no more than there are spawn points.
pub open spec fn spawned_in_wave(wave: int, spawn_points: int) -> int {
    if slimes_in_wave(wave) < spawn_points {
        slimes_in_wave(wave)
    } else {
        spawn_points
    }
}

/// No index appears twice in `s`.
pub open spec fn all_distinct(s: Seq<usize>) -> bool {
    forall|i: int, j: int| 0 <= i < j < s.len() ==> s[i] != s[j]
}

/// The spawn points `0..n`, by index.
pub open spec fn index_range(n: nat) -> Seq<usize> {
    Seq::new(n, |i: int| i as usize)
}

/// Draws that can pick from `n` points without repeats: the `k`-th draw
/// chooses among the `n - k` points still unused.
pub open spec fn valid_draws(n: int, draws: Seq<usize>) -> bool {
    &&& draws.len() <= n
    &&& forall|k: int| 0 <= k < draws.len() ==> draws[k] < n - k
}

/// The points that `draws` pick from `remaining`: each draw takes the
/// point at its position among the points not yet taken.
pub open spec fn picks(remaining: Seq<usize>, draws: Seq<usize>) -> Seq<usize>
    decreases draws.len(),
{
    if draws.len() == 0 {
        Seq::empty()
    } else {
        seq![remaining[draws[0] as int]] + picks(
            remaining.remove(draws[0] as int),
            draws.drop_first(),
        )
    }
}

/// Pick spawn points among `spawn_points` points: the `k`-th pick is the
/// `draws[k]`-th point not picked before.
pub fn pick_spawn_points(spawn_points: usize, draws: &Vec<usize>) -> (picked: Vec<usize>)
    requires
        valid_draws(spawn_points as int, draws@),
    ensures
        picked@ == picks(index_range(spawn_points as nat), draws@),
        picked@.len() == draws@.len(),
        forall|i: int| 0 <= i < picked@.len() ==> picked@[i] < spawn_points,
        all_distinct(picked@),
{
    let mut remaining: Vec<usize> = Vec::new();
    let mut i: usize = 0;
    while i < spawn_points
        invariant
            i <= spawn_points,
            remaining@.len() == i,
            forall|k: int| 0 <= k < i ==> remaining@[k] == k,
        decreases spawn_points - i,
    {
        remaining.push(i);
        i = i + 1;
    }
    assert(remaining@ =~= index_range(spawn_points as nat));
    assert(draws@.skip(0) =~= draws@);

    let mut picked: Vec<usize> = Vec::new();
    let mut k: usize = 0;
    while k < draws.len()
        invariant
            valid_draws(spawn_points as int, draws@),
            k <= draws@.len(),
            picked@.len() == k,
            remaining@.len() == spawn_points - k,
            picks(index_range(spawn_points as nat), draws@) == picked@ + picks(
                remaining@,
                draws@.skip(k as int),
            ),
            forall|j: int| 0 <= j < picked@.len() ==> picked@[j] < spawn_points,
            forall|j: int| 0 <= j < remaining@.len() ==> remaining@[j] < spawn_points,
            all_distinct(picked@),
            all_distinct(remaining@),
            forall|a: int, b: int|
                0 <= a < picked@.len() && 0 <= b < remaining@.len() ==> picked@[a]
                    != remaining@[b],
        decreases draws@.len() - k,
    {
        let selected = draws[k];
        let ghost before = remaining@;
        let ghost rest = draws@.skip(k as int);
        assert(rest[0] == selected);
        assert(rest.drop_first() =~= draws@.skip(k + 1));
        assert(picks(before, rest) == seq![before[selected as int]] + picks(
            before.remove(selected as int),
            rest.drop_first(),
        ));
        let point = remaining.remove(selected);
        assert(forall|j: int|
            0 <= j < remaining@.len() ==> #[trigger] remaining@[j] == (if j < selected {
                before[j]
            } else {
                before[j + 1]
            }));
        let ghost old_picked = picked@;
        picked.push(point);
        assert(old_picked + (seq![point] + picks(remaining@, draws@.skip(k + 1))) =~= picked@
            + picks(remaining@, draws@.skip(k + 1)));
        k = k + 1;
    }
    assert(draws@.skip(k as int) =~= Seq::<usize>::empty());
    assert(picked@ + Seq::<usize>::empty() =~= picked@);
    picked
}

pub struct Game {
    pub wave: usize,
}

impl Game {
    pub fn new() -> (r: Game)
        ensures
            r.wave == 0,
    {
        Game { wave: 0 }
    }

    /// The wave timer ran out: the next wave starts. Returns the spawn
    /// points, by index among `spawn_points` points, where its slimes
    /// appear: each drawn at random among the points not yet used in this
    /// wave.
    pub fn on_timeout(&mut self, spawn_points: usize) -> (picked: Vec<usize>)
        requires
            old(self).wave < usize::MAX,
        ensures
            final(self).wave == old(self).wave + 1,
            picked@.len() == spawned_in_wave(final(self).wave as int, spawn_points as int),
            exists|draws: Seq<usize>|
                #![trigger picks(index_range(spawn_points as nat), draws)]
                valid_draws(spawn_points as int, draws) && draws.len() == spawned_in_wave(
                    final(self).wave as int,
                    spawn_points as int,
                ) && picked@ == picks(index_range(spawn_points as nat), draws),
            forall|i: int| 0 <= i < picked@.len() ==> picked@[i] < spawn_points,
            all_distinct(picked@),
    {
        self.wave = self.wave + 1;
        let wanted = self.wave / 3 + 1;
        let count = if wanted < spawn_points {
            wanted
        } else {
            spawn_points
        };

        let mut rng = thread_rng();
        let mut draws: Vec<usize> = Vec::new();
        let mut k: usize = 0;
        while k < count
            invariant
                count <= spawn_points,
                k <= count,
                draws@.len() == k,
                forall|j: int| 0 <= j < k ==> draws@[j] < spawn_points - j,
            decreases count - k,
        {
            let draw = match choose_index(&mut rng, spawn_points - k) {
                Some(draw) => draw,
                None => 0,
            };
            draws.push(draw);
            k = k + 1;
        }
        let picked = pick_spawn_points(spawn_points, &draws);
        assert(picked@ == picks(index_range(spawn_points as nat), draws@));
        picked
    }
}

} // verus!
