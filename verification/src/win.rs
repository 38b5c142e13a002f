//! When the game is won.

use vstd::prelude::*;
use crate::enemy::Enemy;

verus! {

/// Every enemy has fallen.  With no enemy at all this holds too: a game
/// without opponents counts as won.
pub open spec fn all_fallen(enemies: Seq<Enemy>) -> bool {
    forall|i: int| 0 <= i < enemies.len() ==> (#[trigger] enemies[i]).is_fallen
}

/// Whether the game is won: see `all_fallen`.
pub fn check_win_condition(enemies: &Vec<Enemy>) -> (won: bool)
    ensures
        won == all_fallen(enemies@),
{
    let mut i: usize = 0;
    while i < enemies.len()
        invariant
            i <= enemies.len(),
            forall|j: int| 0 <= j < i ==> (#[trigger] enemies@[j]).is_fallen,
        decreases enemies.len() - i,
    {
        if !enemies[i].is_fallen {
            return false;
        }
        i += 1;
    }
    true
}

/// Without enemies the game is won.
pub proof fn lemma_no_enemies_is_won()
    ensures
        all_fallen(Seq::<Enemy>::empty()),
{
}

} // verus!
