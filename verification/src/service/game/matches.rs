//! Decisions of the match endpoints: who may see a match, who the opponent
//! is, how a finished match reads in the history, and when an invite can be
//! accepted.

use vstd::prelude::*;

use super::outbox::GameStatus;
use crate::utils::consts::errors;

verus! {

/// Whether `user_id` plays in the match between `white_user_id` and
/// `black_user_id`.
pub fn is_participant(white_user_id: u64, black_user_id: u64, user_id: u64) -> (plays: bool)
    ensures
        plays == (user_id == white_user_id || user_id == black_user_id),
{
    white_user_id == user_id || black_user_id == user_id
}

/// The other player of a match, seen from `user_id` (the white player unless
/// `user_id` is white).
pub fn opponent_of(white_user_id: u64, black_user_id: u64, user_id: u64) -> (opponent: u64)
    ensures
        opponent == if white_user_id == user_id { black_user_id } else { white_user_id },
{
    if white_user_id == user_id {
        black_user_id
    } else {
        white_user_id
    }
}

/// What a match means to `user_id` in their history.
#[derive(Clone, Copy, Debug, PartialEq, Eq, Structural)]
pub enum HistoryResult {
    Win,
    Loss,
    Abandoned,
    Ongoing,
}

impl HistoryResult {
    pub open spec fn spec_key(self) -> Seq<char> {
        match self {
            HistoryResult::Win => "win"@,
            HistoryResult::Loss => "loss"@,
            HistoryResult::Abandoned => "abandoned"@,
            HistoryResult::Ongoing => "ongoing"@,
        }
    }

    pub fn key(self) -> (key: &'static str)
        ensures
            key@ == self.spec_key(),
    {
        match self {
            HistoryResult::Win => "win",
            HistoryResult::Loss => "loss",
            HistoryResult::Abandoned => "abandoned",
            HistoryResult::Ongoing => "ongoing",
        }
    }
}

pub open spec fn spec_history_result(status: GameStatus, winner_user_id: Option<u64>, user_id: u64) -> HistoryResult {
    match status {
        GameStatus::Finished => if winner_user_id == Some(user_id) {
            HistoryResult::Win
        } else {
            HistoryResult::Loss
        },
        GameStatus::Abandoned => HistoryResult::Abandoned,
        GameStatus::Waiting | GameStatus::Active => HistoryResult::Ongoing,
    }
}

/// How a match reads in `user_id`'s history.
pub fn history_result(status: GameStatus, winner_user_id: Option<u64>, user_id: u64) -> (result: HistoryResult)
    ensures
        result == spec_history_result(status, winner_user_id, user_id),
{
    match status {
        GameStatus::Finished => {
            match winner_user_id {
                Some(winner) => if winner == user_id {
                    HistoryResult::Win
                } else {
                    HistoryResult::Loss
                },
                None => HistoryResult::Loss,
            }
        },
        GameStatus::Abandoned => HistoryResult::Abandoned,
        GameStatus::Waiting | GameStatus::Active => HistoryResult::Ongoing,
    }
}

/// A history entry's side of the user and their opponent: `white` with the
/// black player as opponent when the user is the white player, `black`
/// with the white player as opponent otherwise.
pub fn history_side(white_user_id: u64, black_user_id: u64, user_id: u64) -> (side: (&'static str, u64))
    ensures
        white_user_id == user_id ==> side.0@ == "white"@ && side.1 == black_user_id,
        white_user_id != user_id ==> side.0@ == "black"@ && side.1 == white_user_id,
{
    if white_user_id == user_id {
        ("white", black_user_id)
    } else {
        ("black", white_user_id)
    }
}

/// Why an invite cannot be accepted.
#[derive(Clone, Copy, Debug, PartialEq, Eq, Structural)]
pub enum InviteError {
    NotAvailable,
    Expired,
    OwnInvite,
}

impl InviteError {
    pub open spec fn spec_key(self) -> Seq<char> {
        match self {
            InviteError::NotAvailable => errors::INVITE_NOT_AVAILABLE@,
            InviteError::Expired => errors::INVITE_EXPIRED@,
            InviteError::OwnInvite => errors::CANNOT_ACCEPT_OWN_INVITE@,
        }
    }

    /// The error key sent to the client.
    pub fn key(self) -> (key: &'static str)
        ensures
            key@ == self.spec_key(),
    {
        match self {
            InviteError::NotAvailable => errors::INVITE_NOT_AVAILABLE,
            InviteError::Expired => errors::INVITE_EXPIRED,
            InviteError::OwnInvite => errors::CANNOT_ACCEPT_OWN_INVITE,
        }
    }
}

pub open spec fn spec_invite_acceptance(
    pending: bool,
    expired: bool,
    created_by_user_id: u64,
    accepting_user_id: u64,
) -> Result<(), InviteError> {
    if !pending {
        Err(InviteError::NotAvailable)
    } else if expired {
        Err(InviteError::Expired)
    } else if created_by_user_id == accepting_user_id {
        Err(InviteError::OwnInvite)
    } else {
        Ok(())
    }
}

/// Whether an invite can be accepted (`pending` says whether its status is
/// still pending): it must still be pending, not past its
/// expiry, and not the accepting user's own.
pub fn check_invite_acceptance(
    pending: bool,
    expired: bool,
    created_by_user_id: u64,
    accepting_user_id: u64,
) -> (checked: Result<(), InviteError>)
    ensures
        checked == spec_invite_acceptance(pending, expired, created_by_user_id, accepting_user_id),
{
    if !pending {
        return Err(InviteError::NotAvailable);
    }
    if expired {
        return Err(InviteError::Expired);
    }
    if created_by_user_id == accepting_user_id {
        return Err(InviteError::OwnInvite);
    }
    Ok(())
}

/// An invite is accepted exactly when it is still pending, not expired and
/// not the accepting user's own; an expired invite is never accepted, and a
/// pending one that has expired is refused as expired.
pub proof fn lemma_only_a_live_invite_of_another_is_accepted(
    pending: bool,
    expired: bool,
    created_by_user_id: u64,
    accepting_user_id: u64,
)
    ensures
        ({
            let checked = spec_invite_acceptance(pending, expired, created_by_user_id, accepting_user_id);
            &&& checked is Ok <==> pending && !expired && created_by_user_id != accepting_user_id
            &&& !pending ==> checked == Err::<(), InviteError>(InviteError::NotAvailable)
            &&& pending && expired ==> checked == Err::<(), InviteError>(InviteError::Expired)
            &&& pending && !expired && created_by_user_id == accepting_user_id ==> checked == Err::<(), InviteError>(
                InviteError::OwnInvite,
            )
        }),
{
}

/// A user's wins and losses.
#[derive(Clone, Copy, Debug, PartialEq, Eq, Structural)]
pub struct ScoreDto {
    pub wins: u32,
    pub losses: u32,
}

/// A user's score: their row if they have one, 0:0 otherwise.
pub fn score_or_zero(row: Option<ScoreDto>) -> (score: ScoreDto)
    ensures
        score == match row {
            Some(row) => row,
            None => ScoreDto { wins: 0, losses: 0 },
        },
{
    match row {
        Some(row) => row,
        None => ScoreDto { wins: 0, losses: 0 },
    }
}

/// The answer of a quick-match request.
pub enum QuickMatchResultDto {
    Waiting,
    Matched { game_id: u64, opponent_name: String },
    NoOpponent,
}

/// The name shown when the opponent has no username.
pub const UNKNOWN_OPPONENT_NAME: &'static str = "Rakip";

} // verus!
