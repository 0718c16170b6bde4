//! The computer's next step in a turn. The move plan itself comes from the
//! board rules' decision code; this module decides what to do with it.

use vstd::prelude::*;

use super::player::Player;
use super::session::{GameSession, Move, SessionView};

verus! {

#[derive(Clone, Copy, Debug, PartialEq, Eq, Structural)]
pub enum AiAction {
    Wait,
    Roll,
    Move(Move),
    Confirm,
    Undo,
}

/// The decision of `next_ai_action`, stated directly.
pub open spec fn ai_decision<B>(game: SessionView<B>, ai_player: Player, planned: Option<Move>) -> AiAction {
    if !game.is_playing() || game.current_player != ai_player {
        AiAction::Wait
    } else if game.remaining_dice.len() == 0 && game.move_history.len() == 0 {
        AiAction::Roll
    } else {
        match planned {
            Some(planned) => AiAction::Move(planned),
            None => if game.move_history.len() >= game.required_moves {
                AiAction::Confirm
            } else if game.move_history.len() > 0 {
                AiAction::Undo
            } else {
                AiAction::Wait
            },
        }
    }
}

/// The dice the turn started with, as the pair the plan is made for.
pub open spec fn spec_turn_start_dice<B>(game: SessionView<B>) -> (u8, u8) {
    let dice = if game.move_history.len() > 0 {
        game.move_history[0].1
    } else {
        game.remaining_dice
    };
    let first = if dice.len() > 0 { dice[0] } else { 1u8 };
    let second = if dice.len() > 1 { dice[1] } else { first };
    (first, second)
}

/// The dice the current turn started with: the first two dice before the
/// turn's first move (or of the remaining dice if nothing has been played);
/// a missing first die counts as 1 and a missing second die as the first.
pub fn turn_start_dice<B>(game: &GameSession<B>) -> (dice: (u8, u8))
    ensures
        dice == spec_turn_start_dice(game@),
{
    let dice: &Vec<u8> = if game.move_history.len() > 0 {
        &game.move_history[0].1
    } else {
        &game.remaining_dice
    };
    let first = if dice.len() > 0 {
        dice[0]
    } else {
        1u8
    };
    let second = if dice.len() > 1 {
        dice[1]
    } else {
        first
    };
    (first, second)
}

/// The board the current turn started on: the one before the turn's first
/// move, or the current board if nothing has been played.
pub fn turn_start_board<B>(game: &GameSession<B>) -> (board: &B)
    ensures
        *board == if game@.move_history.len() > 0 {
            game@.move_history[0].0
        } else {
            game@.board
        },
{
    if game.move_history.len() > 0 {
        &game.move_history[0].0
    } else {
        &game.board
    }
}

/// What the computer playing `ai_player` does next. `planned` is the move
/// of the plan for this turn (made from the turn's starting board and dice)
/// at the position of the moves already played, when that move is legal on
/// the current board; `None` otherwise.
pub fn next_ai_action<B>(game: &GameSession<B>, ai_player: Player, planned: Option<Move>) -> (action: AiAction)
    ensures
        action == ai_decision(game@, ai_player, planned),
        // The computer never acts for a side whose turn it is not.
        (!game@.is_playing() || game@.current_player != ai_player) ==> action == AiAction::Wait,
{
    if !game.is_playing() || game.current_player != ai_player {
        return AiAction::Wait;
    }
    if game.remaining_dice.len() == 0 && game.move_history.len() == 0 {
        return AiAction::Roll;
    }

    let moves_played = game.move_history.len();
    match planned {
        Some(planned) => AiAction::Move(planned),
        None => {
            if moves_played >= game.required_moves {
                AiAction::Confirm
            } else if moves_played > 0 {
                AiAction::Undo
            } else {
                AiAction::Wait
            }
        },
    }
}

/// When the computer acts: it does nothing unless the round is on and it is
/// its turn; it rolls exactly when its turn has not started (no dice left
/// and no move played); once the turn has started it plays the planned move
/// if there is one, and without one it ends the turn when the moves played
/// reach the required number, takes a move back when it is short of them,
/// and waits when it has played nothing.
pub proof fn lemma_when_the_computer_acts<B>(game: SessionView<B>, ai_player: Player, planned: Option<Move>)
    ensures
        ({
            let action = ai_decision(game, ai_player, planned);
            let its_turn = game.is_playing() && game.current_player == ai_player;
            let started = game.remaining_dice.len() > 0 || game.move_history.len() > 0;
            &&& !its_turn ==> action == AiAction::Wait
            &&& action == AiAction::Roll <==> its_turn && !started
            &&& its_turn && started && planned is Some ==> action == AiAction::Move(planned->0)
            &&& its_turn && started && planned is None && game.move_history.len() >= game.required_moves
                ==> action == AiAction::Confirm
            &&& its_turn && started && planned is None && 0 < game.move_history.len() < game.required_moves
                ==> action == AiAction::Undo
            &&& action == AiAction::Confirm ==> its_turn && game.move_history.len() >= game.required_moves
            &&& action == AiAction::Undo ==> its_turn && game.move_history.len() > 0
        }),
{
}

} // verus!
