//! Per-match bookkeeping besides the game itself: who is connected since
//! when, and how long the next roll is held back. Times are milliseconds of
//! a monotonic clock that the caller reads.

use vstd::prelude::*;

use super::player::Player;

verus! {

/// Since when each side has been without a connection (`None` while it is
/// connected).
#[derive(Clone, Copy, Debug, PartialEq, Eq, Structural)]
pub struct Presence {
    pub white_gone_since_ms: Option<u64>,
    pub black_gone_since_ms: Option<u64>,
}

impl Presence {
    pub open spec fn gone_since(self, player: Player) -> Option<u64> {
        match player {
            Player::White => self.white_gone_since_ms,
            Player::Black => self.black_gone_since_ms,
        }
    }

    /// A match nobody has joined yet: both sides count as gone since it was
    /// created.
    pub fn new(created_at_ms: u64) -> (presence: Self)
        ensures
            presence.gone_since(Player::White) == Some(created_at_ms),
            presence.gone_since(Player::Black) == Some(created_at_ms),
    {
        Presence { white_gone_since_ms: Some(created_at_ms), black_gone_since_ms: Some(created_at_ms) }
    }

    /// `player` connected.
    pub fn connect(&mut self, player: Player)
        ensures
            final(self).gone_since(player) is None,
            final(self).gone_since(player.spec_opponent()) == old(self).gone_since(player.spec_opponent()),
    {
        match player {
            Player::White => self.white_gone_since_ms = None,
            Player::Black => self.black_gone_since_ms = None,
        }
    }

    /// `player`'s connection closed at `now_ms`.
    pub fn disconnect(&mut self, player: Player, now_ms: u64)
        ensures
            final(self).gone_since(player) == Some(now_ms),
            final(self).gone_since(player.spec_opponent()) == old(self).gone_since(player.spec_opponent()),
    {
        match player {
            Player::White => self.white_gone_since_ms = Some(now_ms),
            Player::Black => self.black_gone_since_ms = Some(now_ms),
        }
    }

    pub fn is_connected(&self, player: Player) -> (connected: bool)
        ensures
            connected == self.gone_since(player) is None,
    {
        match player {
            Player::White => self.white_gone_since_ms.is_none(),
            Player::Black => self.black_gone_since_ms.is_none(),
        }
    }

    /// How long `player` has been gone at `now_ms` (zero if the clock reads
    /// earlier), or `None` while connected.
    pub fn disconnected_for(&self, player: Player, now_ms: u64) -> (gone_ms: Option<u64>)
        ensures
            match self.gone_since(player) {
                Some(since) => gone_ms == Some(if now_ms >= since { (now_ms - since) as u64 } else { 0u64 }),
                None => gone_ms is None,
            },
    {
        let since = match player {
            Player::White => self.white_gone_since_ms,
            Player::Black => self.black_gone_since_ms,
        };
        match since {
            Some(since) => Some(if now_ms >= since {
                now_ms - since
            } else {
                0
            }),
            None => None,
        }
    }
}

/// How much longer the next roll is held back at `now_ms`: nothing when no
/// hold is set or it has run out.
pub fn roll_hold_remaining(not_before_ms: Option<u64>, now_ms: u64) -> (remaining_ms: Option<u64>)
    ensures
        match not_before_ms {
            Some(at) => if at > now_ms {
                remaining_ms == Some((at - now_ms) as u64)
            } else {
                remaining_ms is None
            },
            None => remaining_ms is None,
        },
{
    match not_before_ms {
        Some(at) => if at > now_ms {
            Some(at - now_ms)
        } else {
            None
        },
        None => None,
    }
}

/// The end of a hold of `hold_ms` that starts at `now_ms` (at the end of
/// the clock's range if it would go past it).
pub fn hold_until(now_ms: u64, hold_ms: u64) -> (not_before_ms: u64)
    ensures
        not_before_ms == if now_ms + hold_ms <= u64::MAX { (now_ms + hold_ms) as u64 } else { u64::MAX },
{
    now_ms.saturating_add(hold_ms)
}

} // verus!
