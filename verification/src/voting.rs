//! The voting and elimination engine: the rotated discussion order shown to
//! the group, and the resolution of an eviction into an outcome.

use vstd::prelude::*;
use vstd::arithmetic::div_mod::{lemma_small_mod, lemma_mod_sub_multiples_vanish};
use vstd::seq_lib::lemma_seq_union_to_multiset_commutative;
use crate::GameError;
use crate::player::{Player, active_indices_of, lemma_active_indices_characterization};

verus! {

/// What one eviction produced: who left, and whether they were the imposter.
#[derive(Clone, Copy, Debug, PartialEq, Eq, Structural)]
pub struct EliminationOutcome {
    pub eliminated_index: usize,
    pub was_imposter: bool,
}

/// `s` rotated left by `k` places: the suffix from `k` followed by the
/// prefix up to `k`.
pub open spec fn rotate_left(s: Seq<usize>, k: int) -> Seq<usize>
    recommends
        0 <= k <= s.len(),
{
    s.subrange(k, s.len() as int) + s.subrange(0, k)
}

/// Position `i` of a left rotation by `k` is the source element at
/// `(k + i) % len`.
pub proof fn lemma_rotate_left_index(s: Seq<usize>, k: int, i: int)
    requires
        0 <= k < s.len(),
        0 <= i < s.len(),
    ensures
        rotate_left(s, k)[i] == s[(k + i) % (s.len() as int)],
{
    let n = s.len() as int;
    if k + i < n {
        lemma_small_mod((k + i) as nat, n as nat);
    } else {
        lemma_mod_sub_multiples_vanish(k + i, n);
        lemma_small_mod((k + i - n) as nat, n as nat);
    }
}

/// A left rotation keeps the length and the elements (it is a permutation),
/// and rotating the result left by the complementary amount restores the
/// original sequence.
pub proof fn lemma_rotation_round_trip(s: Seq<usize>, k: int)
    requires
        0 <= k <= s.len(),
    ensures
        rotate_left(s, k).len() == s.len(),
        rotate_left(s, k).to_multiset() == s.to_multiset(),
        rotate_left(rotate_left(s, k), s.len() - k) == s,
{
    let n = s.len() as int;
    let a = s.subrange(k, n);
    let b = s.subrange(0, k);
    lemma_seq_union_to_multiset_commutative(a, b);
    assert(b + a =~= s);
    assert((a + b).to_multiset() =~= s.to_multiset());
    let r = rotate_left(s, k);
    assert(rotate_left(r, n - k) =~= s);
}

/// Whatever the rotation amount, a rotation of the active indices holds only
/// in-range indices of non-eliminated players: eliminated players never
/// appear in a discussion order.
pub proof fn lemma_discussion_order_only_active(players: Seq<Player>, k: int)
    requires
        players.len() <= usize::MAX,
        0 <= k <= active_indices_of(players).len(),
    ensures
        forall|j: int| 0 <= j < rotate_left(active_indices_of(players), k).len() ==>
            (#[trigger] rotate_left(active_indices_of(players), k)[j]) < players.len()
            && !players[rotate_left(active_indices_of(players), k)[j] as int].is_eliminated,
{
    lemma_active_indices_characterization(players);
    let s = active_indices_of(players);
    let r = rotate_left(s, k);
    let n = s.len() as int;
    assert forall|j: int| 0 <= j < r.len() implies
        (#[trigger] r[j]) < players.len()
        && !players[r[j] as int].is_eliminated by {
        if j < n - k {
            assert(r[j] == s[k + j]);
        } else {
            assert(r[j] == s[j - (n - k)]);
        }
    }
}

/// The canonical discussion/voting order: the active indices rotated left by
/// `starting_player_index` reduced modulo their count. Deterministic in its
/// inputs, contains exactly the given active indices, and fails with
/// `NoActivePlayers` exactly when there is no active player to order (rather
/// than dividing by zero).
pub fn compute_discussion_order(
    active_indices: &Vec<usize>,
    starting_player_index: usize,
) -> (r: Result<Vec<usize>, GameError>)
    ensures
        r is Ok <==> active_indices@.len() > 0,
        r is Err ==> r == Err::<Vec<usize>, GameError>(GameError::NoActivePlayers),
        r matches Ok(order) ==> order@ == rotate_left(
            active_indices@,
            starting_player_index as int % active_indices@.len() as int,
        ),
{
    let n = active_indices.len();
    if n == 0 {
        return Err(GameError::NoActivePlayers);
    }
    let start = starting_player_index % n;
    let mut order: Vec<usize> = Vec::new();
    for i in 0..n
        invariant
            n == active_indices@.len(),
            0 <= start < n,
            order@.len() == i,
            forall|j: int| 0 <= j < i ==>
                (#[trigger] order@[j]) == rotate_left(active_indices@, start as int)[j],
    {
        let source = if i < n - start {
            start + i
        } else {
            i - (n - start)
        };
        order.push(active_indices[source]);
    }
    proof {
        assert(order@ =~= rotate_left(active_indices@, start as int));
    }
    Ok(order)
}

/// Resolves an eviction: the chosen player is eliminated, and they were the
/// imposter exactly when the chosen index is the imposter's index. The bound
/// check on the target is the player registry's job and happens before this
/// is invoked; this function itself cannot fail.
pub fn resolve_eviction(target_index: usize, imposter_index: usize) -> (o: EliminationOutcome)
    ensures
        o.eliminated_index == target_index,
        o.was_imposter <==> target_index == imposter_index,
{
    EliminationOutcome {
        eliminated_index: target_index,
        was_imposter: target_index == imposter_index,
    }
}

} // verus!
