use vstd::prelude::*;

use super::player::Player;

verus! {

/// What the server does when the player to move has let the turn clock run out.
#[derive(Clone, Copy, Debug, PartialEq, Eq, Structural)]
pub enum ExpiredTurn {
    /// Both sides are in the game (or the opponent is the computer): the idle
    /// player's turn is played for them.
    AutoPlay,
    /// One human has dropped: the connected one is asked whether to continue
    /// against the computer.
    AskToContinueWithAi { present: Player, absent: Player },
    /// No human is connected.
    NobodyPresent,
}

/// The decision of `decide_expired_turn`, stated directly.
pub open spec fn expired_turn_outcome(
    current: Player,
    current_connected: bool,
    opponent_connected: bool,
    opponent_is_ai: bool,
) -> ExpiredTurn {
    if current_connected {
        if opponent_connected || opponent_is_ai {
            ExpiredTurn::AutoPlay
        } else {
            ExpiredTurn::AskToContinueWithAi { present: current, absent: current.spec_opponent() }
        }
    } else if opponent_connected {
        ExpiredTurn::AskToContinueWithAi { present: current.spec_opponent(), absent: current }
    } else {
        ExpiredTurn::NobodyPresent
    }
}

pub fn decide_expired_turn(
    current: Player,
    current_connected: bool,
    opponent_connected: bool,
    opponent_is_ai: bool,
) -> (decision: ExpiredTurn)
    ensures
        decision == expired_turn_outcome(current, current_connected, opponent_connected, opponent_is_ai),
        // The question always goes to a connected side and names the other one as absent.
        decision matches ExpiredTurn::AskToContinueWithAi { present, absent } ==> {
            &&& absent == present.spec_opponent()
            &&& (present == current ==> current_connected)
            &&& (present != current ==> opponent_connected)
        },
{
    let opponent = current.opponent();
    let opponent_in_game = opponent_connected || opponent_is_ai;

    match (current_connected, opponent_in_game, opponent_connected) {
        (true, true, _) => ExpiredTurn::AutoPlay,
        (true, false, _) => ExpiredTurn::AskToContinueWithAi { present: current, absent: opponent },
        (false, _, true) => ExpiredTurn::AskToContinueWithAi { present: opponent, absent: current },
        (false, _, false) => ExpiredTurn::NobodyPresent,
    }
}

/// What happens when a turn runs out: the turn is played for the player when
/// they are there and their opponent is too (or is the computer); when one
/// side is there and the other is neither there nor the computer, the one
/// there is asked whether to go on against the computer; with nobody there,
/// the match is left to be abandoned.
pub proof fn lemma_who_decides_an_expired_turn(
    current: Player,
    current_connected: bool,
    opponent_connected: bool,
    opponent_is_ai: bool,
)
    ensures
        ({
            let outcome = expired_turn_outcome(current, current_connected, opponent_connected, opponent_is_ai);
            &&& outcome == ExpiredTurn::AutoPlay <==> current_connected && (opponent_connected || opponent_is_ai)
            &&& outcome == ExpiredTurn::NobodyPresent <==> !current_connected && !opponent_connected
            &&& current_connected && !opponent_connected && !opponent_is_ai ==> outcome
                == ExpiredTurn::AskToContinueWithAi { present: current, absent: current.spec_opponent() }
            &&& !current_connected && opponent_connected ==> outcome == ExpiredTurn::AskToContinueWithAi {
                present: current.spec_opponent(),
                absent: current,
            }
        }),
{
}

} // verus!
