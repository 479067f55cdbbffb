//! The player registry: the roster and its elimination flags.

use vstd::prelude::*;
use crate::GameError;

verus! {

/// A roster entry: a display name (not guaranteed unique) and an elimination
/// flag. Entries are created at roster setup, mutated only by elimination,
/// and never deleted during a round.
#[derive(Debug, Clone)]
pub struct Player {
    pub name: String,
    pub is_eliminated: bool,
}

impl Player {
    /// A fresh roster entry, not yet eliminated.
    pub fn new(name: String) -> (p: Player)
        ensures
            p.name == name,
            !p.is_eliminated,
    {
        Player { name, is_eliminated: false }
    }
}

/// The indices of the active (non-eliminated) players, in roster order.
pub open spec fn active_indices_of(players: Seq<Player>) -> Seq<usize>
    decreases players.len(),
{
    if players.len() == 0 {
        Seq::empty()
    } else if !players.last().is_eliminated {
        active_indices_of(players.drop_last()).push((players.len() - 1) as usize)
    } else {
        active_indices_of(players.drop_last())
    }
}

/// The active-index sequence lists exactly the in-range indices whose player
/// is not eliminated, in strictly increasing (roster) order.
pub proof fn lemma_active_indices_characterization(players: Seq<Player>)
    requires
        players.len() <= usize::MAX,
    ensures
        forall|j: int| 0 <= j < active_indices_of(players).len() ==>
            (#[trigger] active_indices_of(players)[j]) < players.len()
            && !players[active_indices_of(players)[j] as int].is_eliminated,
        forall|i: int| 0 <= i < players.len() && !players[i].is_eliminated ==>
            active_indices_of(players).contains(i as usize),
        forall|j: int, k: int| 0 <= j < k < active_indices_of(players).len() ==>
            active_indices_of(players)[j] < active_indices_of(players)[k],
    decreases players.len(),
{
    if players.len() > 0 {
        let prefix = players.drop_last();
        lemma_active_indices_characterization(prefix);
        let s0 = active_indices_of(prefix);
        let s = active_indices_of(players);
        if !players.last().is_eliminated {
            assert(s == s0.push((players.len() - 1) as usize));
        } else {
            assert(s == s0);
        }
        assert forall|j: int| 0 <= j < s.len() implies
            (#[trigger] s[j]) < players.len()
            && !players[s[j] as int].is_eliminated by {
            if j < s0.len() {
                assert(s[j] == s0[j]);
                assert(s0[j] < prefix.len());
                assert(prefix[s0[j] as int] == players[s0[j] as int]);
            } else {
                assert(s[j] == (players.len() - 1) as usize);
                assert(!players.last().is_eliminated);
            }
        }
        assert forall|j: int, k: int| 0 <= j < k < s.len() implies
            s[j] < s[k] by {
            if k < s0.len() {
                assert(s[j] == s0[j] && s[k] == s0[k]);
            } else {
                assert(s[j] == s0[j]);
                assert(s0[j] < prefix.len());
                assert(s[k] == (players.len() - 1) as usize);
            }
        }
        assert forall|i: int| 0 <= i < players.len() && !players[i].is_eliminated implies
            s.contains(i as usize) by {
            if i < players.len() - 1 {
                assert(prefix[i] == players[i]);
                assert(s0.contains(i as usize));
                let w = choose|w: int| 0 <= w < s0.len() && s0[w] == i as usize;
                assert(s[w] == i as usize);
            } else {
                assert(s.last() == i as usize);
            }
        }
    }
}

/// Collects the indices of the active players, preserving roster order.
pub fn active_indices(players: &Vec<Player>) -> (r: Vec<usize>)
    ensures
        r@ == active_indices_of(players@),
{
    let n = players.len();
    let mut r: Vec<usize> = Vec::new();
    for i in 0..n
        invariant
            n == players@.len(),
            r@ == active_indices_of(players@.take(i as int)),
    {
        if !players[i].is_eliminated {
            r.push(i);
        }
        proof {
            let taken = players@.take(i + 1);
            assert(taken.drop_last() =~= players@.take(i as int));
            assert(taken.last() == players@[i as int]);
        }
    }
    proof {
        assert(players@.take(n as int) =~= players@);
    }
    r
}

/// Marks the player at `index` as eliminated. Fails with `InvalidIndex` when
/// the index is out of range or the player is already eliminated; rejecting a
/// double elimination is deliberate, to catch logic errors upstream. On
/// failure the roster is unchanged; on success exactly that player's flag is
/// set and every other entry (and every name) is untouched.
pub fn eliminate(players: &mut Vec<Player>, index: usize) -> (r: Result<(), GameError>)
    ensures
        r is Ok <==> (index < old(players)@.len()
            && !old(players)@[index as int].is_eliminated),
        r is Err ==> r == Err::<(), GameError>(GameError::InvalidIndex)
            && *final(players) == *old(players),
        r is Ok ==> {
            &&& final(players)@.len() == old(players)@.len()
            &&& final(players)@[index as int].is_eliminated
            &&& final(players)@[index as int].name == old(players)@[index as int].name
            &&& forall|i: int| 0 <= i < old(players)@.len() && i != index ==>
                final(players)@[i] == old(players)@[i]
        },
{
    if index >= players.len() {
        return Err(GameError::InvalidIndex);
    }
    if players[index].is_eliminated {
        return Err(GameError::InvalidIndex);
    }
    players[index].is_eliminated = true;
    Ok(())
}

} // verus!
