//! The names of the collision areas that the game's handlers react to.
use vstd::prelude::*;

use crate::text::str_eq;

verus! {

/// The player's hurtbox, which picks up coins and opens the shop.
pub fn is_player_hurtbox(name: &str) -> (r: bool)
    ensures
        r == (name@ == "PlayerHurtbox"@),
{
    str_eq(name, "PlayerHurtbox")
}

/// The pointer area in front of the player, used to aim at dirt.
pub fn is_player_pointer(name: &str) -> (r: bool)
    ensures
        r == (name@ == "PlayerPointer"@),
{
    str_eq(name, "PlayerPointer")
}

/// The player's weapon hitbox.
pub fn is_player_hitbox(name: &str) -> (r: bool)
    ensures
        r == (name@ == "Hitbox"@),
{
    str_eq(name, "Hitbox")
}

/// A slime's attack hitbox.
pub fn is_enemy_hitbox(name: &str) -> (r: bool)
    ensures
        r == (name@ == "HitboxEnemy"@),
{
    str_eq(name, "HitboxEnemy")
}

} // verus!
