//! Round-scoped state: the per-player cards, the imposter assignment, the
//! chosen category, and the round-reset semantics.

use vstd::prelude::*;
use crate::GameError;
use crate::player::Player;

verus! {

/// The card dealt to one roster position: either the shared secret word or
/// the imposter marker. Cards are created in bulk at round setup, one per
/// player, and cleared wholesale on round reset.
#[derive(Debug, Clone)]
pub enum GameCard {
    /// The shared secret word tied to the chosen category.
    Word(String),
    /// The imposter's card: no word.
    Imposter,
}

/// State that lives exactly one round: the imposter assignment, the chosen
/// category, and the dealt cards. `starting_player_index` (the rotation seed
/// for the discussion order) and `hide_imposter_identity` (the "hard mode"
/// preference) live here too but persist across rounds: round setup and round
/// reset leave both untouched.
#[derive(Debug)]
pub struct RoundState {
    /// Roster index of the imposter; meaningful while cards are dealt, and
    /// then always in range of the roster the round was started with.
    pub imposter_index: usize,
    /// The picked category as `(name, icon)`; cleared on reset.
    pub current_category: Option<(String, String)>,
    /// One card per roster position while a round is running; empty otherwise.
    pub cards: Vec<GameCard>,
    /// Seed for rotating the discussion order; owned by the caller's policy.
    pub starting_player_index: usize,
    /// The "hard mode" preference; persists until explicitly toggled.
    pub hide_imposter_identity: bool,
}

/// How many cards of a hand are the imposter card.
pub open spec fn imposter_card_count(cards: Seq<GameCard>) -> nat
    decreases cards.len(),
{
    if cards.len() == 0 {
        0
    } else {
        imposter_card_count(cards.drop_last()) + if cards.last() is Imposter { 1nat } else { 0nat }
    }
}

/// A hand in which no card is the imposter card counts zero imposter cards.
proof fn lemma_no_imposter_card(cards: Seq<GameCard>)
    requires
        forall|i: int| 0 <= i < cards.len() ==> !((#[trigger] cards[i]) is Imposter),
    ensures
        imposter_card_count(cards) == 0,
    decreases cards.len(),
{
    if cards.len() > 0 {
        lemma_no_imposter_card(cards.drop_last());
    }
}

/// A hand whose imposter cards sit exactly at one in-range position holds
/// exactly one imposter card.
pub proof fn lemma_one_imposter_card(cards: Seq<GameCard>, imposter_index: int)
    requires
        0 <= imposter_index < cards.len(),
        forall|i: int| 0 <= i < cards.len() ==>
            (((#[trigger] cards[i]) is Imposter) <==> i == imposter_index),
    ensures
        imposter_card_count(cards) == 1,
    decreases cards.len(),
{
    let prefix = cards.drop_last();
    if imposter_index == cards.len() - 1 {
        lemma_no_imposter_card(prefix);
    } else {
        lemma_one_imposter_card(prefix, imposter_index);
    }
}

/// What round setup leaves behind, relative to the state before it: the
/// imposter index is the injected random draw reduced modulo the roster
/// size, exactly that position's card is the imposter card, every other
/// position holds the shared secret word, the category is recorded, and the
/// cross-round fields are untouched.
pub open spec fn round_started(
    pre: RoundState,
    post: RoundState,
    category_name: String,
    category_icon: String,
    secret_word: String,
    roster_len: int,
    random_value: usize,
) -> bool {
    &&& post.imposter_index == random_value as int % roster_len
    &&& post.imposter_index < roster_len
    &&& post.cards@.len() == roster_len
    &&& forall|i: int| 0 <= i < roster_len ==>
        (((#[trigger] post.cards@[i]) is Imposter) <==> i == post.imposter_index)
    &&& forall|i: int| 0 <= i < roster_len && i != post.imposter_index ==>
        (#[trigger] post.cards@[i]) == GameCard::Word(secret_word)
    &&& imposter_card_count(post.cards@) == 1
    &&& post.current_category == Some((category_name, category_icon))
    &&& post.starting_player_index == pre.starting_player_index
    &&& post.hide_imposter_identity == pre.hide_imposter_identity
}

impl RoundState {
    /// Round state before any round has been started: no cards, no category,
    /// hard mode off, rotation seed zero.
    pub fn new() -> (r: RoundState)
        ensures
            r.cards@.len() == 0,
            r.current_category is None,
            r.imposter_index == 0,
            r.starting_player_index == 0,
            !r.hide_imposter_identity,
    {
        RoundState {
            imposter_index: 0,
            current_category: None,
            cards: Vec::new(),
            starting_player_index: 0,
            hide_imposter_identity: false,
        }
    }

    /// Starts a round for the given roster: picks the imposter from the
    /// injected random draw (the random source is an external collaborator;
    /// a draw uniform over its type is uniform over the roster positions
    /// after the modulo), deals one card per player — the imposter marker at
    /// the imposter's position, the shared secret word (supplied by the
    /// external category-to-word collaborator) everywhere else — and records
    /// the category. Fails with `InsufficientPlayers` on a roster of fewer
    /// than three, leaving the state unchanged; a smaller group cannot
    /// produce a meaningful majority vote. Never alters the rotation seed or
    /// the hard-mode preference.
    pub fn start_round(
        &mut self,
        category_name: String,
        category_icon: String,
        secret_word: String,
        roster: &Vec<Player>,
        random_value: usize,
    ) -> (r: Result<(), GameError>)
        ensures
            r is Ok <==> roster@.len() >= 3,
            r is Err ==> r == Err::<(), GameError>(GameError::InsufficientPlayers)
                && *final(self) == *old(self),
            r is Ok ==> round_started(
                *old(self),
                *final(self),
                category_name,
                category_icon,
                secret_word,
                roster@.len() as int,
                random_value,
            ),
    {
        let roster_len = roster.len();
        if roster_len < 3 {
            return Err(GameError::InsufficientPlayers);
        }
        let imposter_index = random_value % roster_len;
        let mut cards: Vec<GameCard> = Vec::new();
        for i in 0..roster_len
            invariant
                imposter_index < roster_len,
                cards@.len() == i,
                forall|j: int| 0 <= j < i ==>
                    (((#[trigger] cards@[j]) is Imposter) <==> j == imposter_index),
                forall|j: int| 0 <= j < i && j != imposter_index ==>
                    (#[trigger] cards@[j]) == GameCard::Word(secret_word),
        {
            if i == imposter_index {
                cards.push(GameCard::Imposter);
            } else {
                cards.push(GameCard::Word(secret_word.clone()));
            }
        }
        proof {
            lemma_one_imposter_card(cards@, imposter_index as int);
        }
        self.imposter_index = imposter_index;
        self.current_category = Some((category_name, category_icon));
        self.cards = cards;
        Ok(())
    }

    /// Clears the round-scoped state: the cards become empty and the category
    /// becomes `None`. Deliberately leaves the hard-mode preference and the
    /// rotation seed alone — both outlive a round — and touches no roster
    /// data, so elimination flags are unaffected.
    pub fn reset_round(&mut self)
        ensures
            final(self).cards@.len() == 0,
            final(self).current_category is None,
            final(self).imposter_index == old(self).imposter_index,
            final(self).starting_player_index == old(self).starting_player_index,
            final(self).hide_imposter_identity == old(self).hide_imposter_identity,
    {
        self.cards = Vec::new();
        self.current_category = None;
    }
}

} // verus!
