use vstd::prelude::*;

verus! {

/// A side of the board. `White` plays the light pieces and is the match's
/// `white_user_id`; `Black` plays the dark pieces and is `black_user_id`.
#[derive(Clone, Copy, Debug, PartialEq, Eq, Structural)]
pub enum Player {
    White,
    Black,
}

impl Player {
    pub open spec fn spec_opponent(self) -> Player {
        match self {
            Player::White => Player::Black,
            Player::Black => Player::White,
        }
    }

    /// The other side.
    #[verifier::when_used_as_spec(spec_opponent)]
    pub fn opponent(self) -> (other: Player)
        ensures
            other == self.spec_opponent(),
    {
        match self {
            Player::White => Player::Black,
            Player::Black => Player::White,
        }
    }
}

} // verus!
