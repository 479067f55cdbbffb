//! The screen controller: a finite state machine over the named game
//! screens, driven by the user intents the presentation layer submits. Every
//! transition runs to completion before the next intent, and an intent that
//! does not apply to the current screen leaves the state untouched.

use vstd::prelude::*;
use crate::GameError;
use crate::player::{Player, active_indices, active_indices_of, eliminate};
use crate::round::{RoundState, round_started};
use crate::voting::{compute_discussion_order, resolve_eviction, rotate_left};

verus! {

/// What is currently shown: exactly one of these is current at any time, and
/// no screen is reachable except through an explicit transition.
#[derive(Debug)]
pub enum GameScreen {
    /// Picking a category; the initial screen.
    CategorySelection,
    /// The chosen category is shown before the round starts.
    CategoryReveal { category_name: String, category_icon: String },
    /// The device is passed around; one player looks at their card.
    CardView { current_player_index: usize },
    /// The group discusses and picks someone to evict.
    Voting,
    /// The vote's outcome, shown after the eviction.
    Elimination { eliminated_index: usize, was_imposter: bool },
}

/// The single owner of all game state: the roster, the round-scoped state,
/// the current screen, and the pending two-step restart confirmation. The
/// presentation layer reads this and submits intents through the methods
/// below; it never mutates the fields directly.
#[derive(Debug)]
pub struct GameState {
    pub players: Vec<Player>,
    pub round: RoundState,
    pub screen: GameScreen,
    /// Whether a round restart has been requested and awaits confirmation.
    pub restart_requested: bool,
}

impl GameState {
    /// Well-formedness: while cards are dealt there is one per roster entry
    /// and the imposter index is in range of the roster.
    pub open spec fn wf(self) -> bool {
        self.round.cards@.len() == 0 || (self.round.cards@.len() == self.players@.len()
            && self.round.imposter_index < self.players@.len())
    }

    /// A fresh game over the given roster, on the category selection screen,
    /// with no round running.
    pub fn new(roster: Vec<Player>) -> (s: GameState)
        ensures
            s.players == roster,
            s.screen is CategorySelection,
            s.round.cards@.len() == 0,
            s.round.current_category is None,
            s.round.starting_player_index == 0,
            !s.round.hide_imposter_identity,
            !s.restart_requested,
            s.wf(),
    {
        GameState {
            players: roster,
            round: RoundState::new(),
            screen: GameScreen::CategorySelection,
            restart_requested: false,
        }
    }

    /// Intent: a category was chosen on the category selection screen. Round
    /// setup runs (dealing cards and assigning the imposter from the injected
    /// random draw; the secret word comes from the external category-to-word
    /// collaborator) and the screen moves to the category reveal. Fails with
    /// `InsufficientPlayers` on a roster of fewer than three, changing
    /// nothing. On any other screen the intent is ignored.
    pub fn select_category(
        &mut self,
        category_name: String,
        category_icon: String,
        secret_word: String,
        random_value: usize,
    ) -> (r: Result<(), GameError>)
        ensures
            old(self).screen is CategorySelection && old(self).players@.len() >= 3 ==> {
                &&& r is Ok
                &&& round_started(
                    old(self).round,
                    final(self).round,
                    category_name,
                    category_icon,
                    secret_word,
                    old(self).players@.len() as int,
                    random_value,
                )
                &&& final(self).screen matches GameScreen::CategoryReveal {
                    category_name: n, category_icon: i
                } && n == category_name && i == category_icon
            },
            old(self).screen is CategorySelection && old(self).players@.len() < 3 ==>
                r == Err::<(), GameError>(GameError::InsufficientPlayers)
                && *final(self) == *old(self),
            !(old(self).screen is CategorySelection) ==> r is Ok && *final(self) == *old(self),
            final(self).players == old(self).players,
            final(self).restart_requested == old(self).restart_requested,
            old(self).wf() ==> final(self).wf(),
    {
        let is_selection = match &self.screen {
            GameScreen::CategorySelection => true,
            _ => false,
        };
        if !is_selection {
            return Ok(());
        }
        let screen_name = category_name.clone();
        let screen_icon = category_icon.clone();
        match self.round.start_round(
            category_name,
            category_icon,
            secret_word,
            &self.players,
            random_value,
        ) {
            Ok(()) => {
                self.screen = GameScreen::CategoryReveal {
                    category_name: screen_name,
                    category_icon: screen_icon,
                };
                Ok(())
            },
            Err(e) => Err(e),
        }
    }

    /// Intent: the "hard mode" toggle was flipped on the category reveal
    /// screen. A pure preference write: the screen does not change, and on
    /// any other screen the intent is ignored.
    pub fn toggle_hard_mode(&mut self, enabled: bool)
        ensures
            old(self).screen is CategoryReveal ==> {
                &&& final(self).round.hide_imposter_identity == enabled
                &&& final(self).round.cards == old(self).round.cards
                &&& final(self).round.current_category == old(self).round.current_category
                &&& final(self).round.imposter_index == old(self).round.imposter_index
                &&& final(self).round.starting_player_index
                    == old(self).round.starting_player_index
                &&& final(self).screen == old(self).screen
            },
            !(old(self).screen is CategoryReveal) ==> *final(self) == *old(self),
            final(self).players == old(self).players,
            final(self).restart_requested == old(self).restart_requested,
            old(self).wf() ==> final(self).wf(),
    {
        let is_reveal = match &self.screen {
            GameScreen::CategoryReveal { .. } => true,
            _ => false,
        };
        if is_reveal {
            self.round.hide_imposter_identity = enabled;
        }
    }

    /// Intent: "back" from the category reveal screen, returning to category
    /// selection with no other effect. Ignored on any other screen.
    pub fn back_to_categories(&mut self)
        ensures
            old(self).screen is CategoryReveal ==> final(self).screen is CategorySelection,
            !(old(self).screen is CategoryReveal) ==> final(self).screen == old(self).screen,
            final(self).players == old(self).players,
            final(self).round == old(self).round,
            final(self).restart_requested == old(self).restart_requested,
            old(self).wf() ==> final(self).wf(),
    {
        let is_reveal = match &self.screen {
            GameScreen::CategoryReveal { .. } => true,
            _ => false,
        };
        if is_reveal {
            self.screen = GameScreen::CategorySelection;
        }
    }

    /// Intent: "start round" from the category reveal screen: the device goes
    /// to the first card view. Ignored on any other screen.
    pub fn start_round(&mut self)
        ensures
            old(self).screen is CategoryReveal ==>
                final(self).screen == (GameScreen::CardView { current_player_index: 0 }),
            !(old(self).screen is CategoryReveal) ==> final(self).screen == old(self).screen,
            final(self).players == old(self).players,
            final(self).round == old(self).round,
            final(self).restart_requested == old(self).restart_requested,
            old(self).wf() ==> final(self).wf(),
    {
        let is_reveal = match &self.screen {
            GameScreen::CategoryReveal { .. } => true,
            _ => false,
        };
        if is_reveal {
            self.screen = GameScreen::CardView { current_player_index: 0 };
        }
    }

    /// Intent: advance from one card view to the next. While another active
    /// player is waiting, the index advances by one; when the last active
    /// player has seen their card, the screen moves to voting. Ignored on any
    /// other screen.
    pub fn advance_card(&mut self)
        ensures
            old(self).screen is CardView && old(self).screen->current_player_index + 1
                < active_indices_of(old(self).players@).len() ==>
                (final(self).screen is CardView && final(self).screen->current_player_index
                    == old(self).screen->current_player_index + 1),
            old(self).screen is CardView && old(self).screen->current_player_index + 1
                >= active_indices_of(old(self).players@).len() ==>
                final(self).screen is Voting,
            !(old(self).screen is CardView) ==> final(self).screen == old(self).screen,
            final(self).players == old(self).players,
            final(self).round == old(self).round,
            final(self).restart_requested == old(self).restart_requested,
            old(self).wf() ==> final(self).wf(),
    {
        let card_index: Option<usize> = match &self.screen {
            GameScreen::CardView { current_player_index } => Some(*current_player_index),
            _ => None,
        };
        if let Some(i) = card_index {
            let active = active_indices(&self.players);
            let active_count = active.len();
            if active_count > 0 && i < active_count - 1 {
                self.screen = GameScreen::CardView { current_player_index: i + 1 };
            } else {
                self.screen = GameScreen::Voting;
            }
        }
    }

    /// The discussion/voting order for the current state: the active roster
    /// indices rotated left by the rotation seed reduced modulo their count.
    /// Eliminated players never appear. Fails with `NoActivePlayers` exactly
    /// when every player is eliminated.
    pub fn discussion_order(&self) -> (r: Result<Vec<usize>, GameError>)
        ensures
            r is Ok <==> active_indices_of(self.players@).len() > 0,
            r is Err ==> r == Err::<Vec<usize>, GameError>(GameError::NoActivePlayers),
            r matches Ok(order) ==> order@ == rotate_left(
                active_indices_of(self.players@),
                self.round.starting_player_index as int
                    % active_indices_of(self.players@).len() as int,
            ),
    {
        let active = active_indices(&self.players);
        compute_discussion_order(&active, self.round.starting_player_index)
    }

    /// Intent: "evict" with a target index, from the voting screen. When the
    /// target is a currently active player, the registry marks them
    /// eliminated and the screen shows the outcome: who left, and whether
    /// they were the imposter. An out-of-range or already-eliminated target
    /// fails with `InvalidIndex` and changes nothing. Ignored on any other
    /// screen.
    pub fn request_evict(&mut self, target_index: usize) -> (r: Result<(), GameError>)
        ensures
            old(self).screen is Voting && target_index < old(self).players@.len()
                && !old(self).players@[target_index as int].is_eliminated ==> {
                &&& r is Ok
                &&& final(self).players@.len() == old(self).players@.len()
                &&& final(self).players@[target_index as int].is_eliminated
                &&& final(self).players@[target_index as int].name
                    == old(self).players@[target_index as int].name
                &&& forall|i: int| 0 <= i < old(self).players@.len() && i != target_index ==>
                    final(self).players@[i] == old(self).players@[i]
                &&& final(self).screen == (GameScreen::Elimination {
                    eliminated_index: target_index,
                    was_imposter: target_index == old(self).round.imposter_index,
                })
            },
            old(self).screen is Voting && !(target_index < old(self).players@.len()
                && !old(self).players@[target_index as int].is_eliminated) ==>
                r == Err::<(), GameError>(GameError::InvalidIndex)
                && *final(self) == *old(self),
            !(old(self).screen is Voting) ==> r is Ok && *final(self) == *old(self),
            final(self).round == old(self).round,
            final(self).restart_requested == old(self).restart_requested,
            old(self).wf() ==> final(self).wf(),
    {
        let is_voting = match &self.screen {
            GameScreen::Voting => true,
            _ => false,
        };
        if !is_voting {
            return Ok(());
        }
        match eliminate(&mut self.players, target_index) {
            Ok(()) => {
                let outcome = resolve_eviction(target_index, self.round.imposter_index);
                self.screen = GameScreen::Elimination {
                    eliminated_index: outcome.eliminated_index,
                    was_imposter: outcome.was_imposter,
                };
                Ok(())
            },
            Err(e) => Err(e),
        }
    }

    /// Intent: "restart round" was tapped on the voting screen. Nothing is
    /// mutated yet: the request only awaits confirmation, so an accidental
    /// tap loses no progress. Ignored on any other screen.
    pub fn request_restart_round(&mut self)
        ensures
            old(self).screen is Voting ==> final(self).restart_requested,
            !(old(self).screen is Voting) ==>
                final(self).restart_requested == old(self).restart_requested,
            final(self).players == old(self).players,
            final(self).round == old(self).round,
            final(self).screen == old(self).screen,
            old(self).wf() ==> final(self).wf(),
    {
        let is_voting = match &self.screen {
            GameScreen::Voting => true,
            _ => false,
        };
        if is_voting {
            self.restart_requested = true;
        }
    }

    /// Intent: the restart was confirmed. Round reset runs — the cards and
    /// the category are cleared, while elimination flags, the hard-mode
    /// preference and the rotation seed are deliberately kept — and the
    /// screen returns to category selection. Without a pending request (or
    /// away from the voting screen) the intent is ignored.
    pub fn confirm_restart_round(&mut self)
        ensures
            old(self).screen is Voting && old(self).restart_requested ==> {
                &&& final(self).screen is CategorySelection
                &&& !final(self).restart_requested
                &&& final(self).round.cards@.len() == 0
                &&& final(self).round.current_category is None
                &&& final(self).round.imposter_index == old(self).round.imposter_index
                &&& final(self).round.starting_player_index
                    == old(self).round.starting_player_index
                &&& final(self).round.hide_imposter_identity
                    == old(self).round.hide_imposter_identity
            },
            !(old(self).screen is Voting && old(self).restart_requested) ==>
                *final(self) == *old(self),
            final(self).players == old(self).players,
            old(self).wf() ==> final(self).wf(),
    {
        let is_voting = match &self.screen {
            GameScreen::Voting => true,
            _ => false,
        };
        if is_voting && self.restart_requested {
            self.round.reset_round();
            self.restart_requested = false;
            self.screen = GameScreen::CategorySelection;
        }
    }

    /// Intent: the restart was cancelled. The pending request is dropped and
    /// nothing else changes.
    pub fn cancel_restart_round(&mut self)
        ensures
            !final(self).restart_requested,
            final(self).players == old(self).players,
            final(self).round == old(self).round,
            final(self).screen == old(self).screen,
            old(self).wf() ==> final(self).wf(),
    {
        self.restart_requested = false;
    }
}

} // verus!
