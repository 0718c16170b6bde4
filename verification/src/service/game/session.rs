//! The state machine of one live match: rounds, turns, dice, moves, undo and
//! the score.
//!
//! The board itself (which moves are legal, what a move does to the board,
//! who has won) is the domain of the board rules; a session is generic over
//! the board type `B` and never looks inside a board. Each action takes what
//! the board rules answered for the current board as an argument, and the
//! session decides what happens to the match.

use vstd::prelude::*;

use super::player::Player;

verus! {

/// A side wins the match as soon as it has this many points.
pub const MATCH_TARGET_SCORE: u16 = 5;

/// `next_round_at_ms` of a round that has been won but whose next round has
/// not been scheduled yet.
pub const ROUND_END_NOT_SCHEDULED: i64 = 9223372036854775807i64;

#[derive(Clone, Copy, Debug, PartialEq, Eq, Structural)]
pub enum RoundPhase {
    Playing,
    RoundEnded { next_round_at_ms: i64 },
}

impl Default for RoundPhase {
    fn default() -> (phase: RoundPhase)
        ensures
            phase == RoundPhase::Playing,
    {
        RoundPhase::Playing
    }
}

/// Where a checker is moved from.
#[derive(Clone, Copy, Debug, PartialEq, Eq, Structural)]
pub enum Origin {
    Bar,
    Point(u8),
}

/// One checker moved by one die.
#[derive(Clone, Copy, Debug, PartialEq, Eq, Structural)]
pub struct Move {
    pub origin: Origin,
    pub die: u8,
}

/// Why an action was refused.
#[derive(Clone, Copy, Debug, PartialEq, Eq, Structural)]
pub enum ActionError {
    RoundNotActive,
    NotYourTurn,
    DiceAlreadyRolled,
    NoDiceRolled,
    IllegalMove,
    NothingToUndo,
    MovesRemaining,
}

impl ActionError {
    pub open spec fn spec_key(self) -> Seq<char> {
        match self {
            ActionError::RoundNotActive => "round_not_active"@,
            ActionError::NotYourTurn => "not_your_turn"@,
            ActionError::DiceAlreadyRolled => "dice_already_rolled"@,
            ActionError::NoDiceRolled => "no_dice_rolled"@,
            ActionError::IllegalMove => "illegal_move"@,
            ActionError::NothingToUndo => "nothing_to_undo"@,
            ActionError::MovesRemaining => "moves_remaining"@,
        }
    }

    /// The key sent to the client in the `error` message.
    pub fn key(self) -> (key: &'static str)
        ensures
            key@ == self.spec_key(),
    {
        match self {
            ActionError::RoundNotActive => "round_not_active",
            ActionError::NotYourTurn => "not_your_turn",
            ActionError::DiceAlreadyRolled => "dice_already_rolled",
            ActionError::NoDiceRolled => "no_dice_rolled",
            ActionError::IllegalMove => "illegal_move",
            ActionError::NothingToUndo => "nothing_to_undo",
            ActionError::MovesRemaining => "moves_remaining",
        }
    }
}

#[derive(Clone, Copy, Debug, PartialEq, Eq, Structural)]
pub enum ActionResult {
    Accepted,
    TurnPassed { closed_out: Option<Player> },
    Rolled { die1: u8, die2: u8, no_legal_moves: bool, closed_out: Option<Player> },
    MoveApplied { die: u8, origin_point: Option<u8>, sequence_no: u32, round_no: u16 },
    RoundWon { winner: Player, die: u8, origin_point: Option<u8>, sequence_no: u32, round_no: u16 },
    Refused(ActionError),
}

#[derive(Clone, Copy, Debug, PartialEq, Eq, Structural)]
pub enum RoundOutcome {
    MatchContinues,
    MatchWon(Player),
}

/// A roll of the dice, together with what the board rules say about it on the
/// current board.
pub struct TurnRoll {
    pub die1: u8,
    pub die2: u8,
    /// The dice the player gets to use (four of them for a double).
    pub dice: Vec<u8>,
    /// The length of the longest legal move sequence with these dice.
    pub required_moves: usize,
    /// Whether the opponent of the roller could not enter from the bar and
    /// so has to skip a turn that is passed to them.
    pub opponent_closed_out: bool,
}

/// What a legal move does, as the board rules computed it on the current
/// board.
pub struct MoveOutcome<B> {
    pub board_after: B,
    pub winner: Option<Player>,
}

/// The mathematical model of a session: the same fields, with sequences in
/// place of vectors.
#[verifier::ext_equal]
pub struct SessionView<B> {
    pub white_user_id: u64,
    pub black_user_id: u64,
    pub board: B,
    pub current_player: Player,
    pub remaining_dice: Seq<u8>,
    pub last_roll: Option<(u8, u8)>,
    pub last_round_mars: bool,
    pub required_moves: usize,
    pub move_history: Seq<(B, Seq<u8>)>,
    pub next_sequence_no: u32,
    pub round_no: u16,
    pub white_score: u16,
    pub black_score: u16,
    pub last_round_winner: Option<Player>,
    pub phase: RoundPhase,
    pub ai_side: Option<Player>,
    pub ai_used: bool,
}

/// `values` without its first occurrence of `value` (unchanged if there is none).
pub open spec fn remove_first(values: Seq<u8>, value: u8) -> Seq<u8> {
    if values.contains(value) {
        values.remove(first_position(values, value))
    } else {
        values
    }
}

pub open spec fn is_first_position(values: Seq<u8>, value: u8, i: int) -> bool {
    &&& 0 <= i < values.len()
    &&& values[i] == value
    &&& forall|j: int| 0 <= j < i ==> values[j] != value
}

pub open spec fn first_position(values: Seq<u8>, value: u8) -> int {
    choose|i: int| is_first_position(values, value, i)
}

pub open spec fn origin_point(origin: Origin) -> Option<u8> {
    match origin {
        Origin::Bar => None,
        Origin::Point(point) => Some(point),
    }
}

impl<B> SessionView<B> {
    pub open spec fn is_playing(self) -> bool {
        self.phase == RoundPhase::Playing
    }

    pub open spec fn score_for(self, player: Player) -> u16 {
        match player {
            Player::White => self.white_score,
            Player::Black => self.black_score,
        }
    }

    /// The refusal every turn action shares: the round must be on and it must
    /// be the player's turn.
    pub open spec fn turn_rejection(self, player: Player) -> Option<ActionError> {
        if !self.is_playing() {
            Some(ActionError::RoundNotActive)
        } else if player != self.current_player {
            Some(ActionError::NotYourTurn)
        } else {
            None
        }
    }

    /// Ends the current turn: the turn's dice and history are dropped and the
    /// opponent moves next, unless they are closed out, in which case the
    /// turn comes straight back and the closed-out side is reported.
    pub open spec fn pass_turn(self, next_closed_out: bool) -> (SessionView<B>, Option<Player>) {
        let cleared = SessionView::<B> {
            move_history: Seq::empty(),
            remaining_dice: Seq::empty(),
            required_moves: 0,
            ..self
        };
        let next = self.current_player.spec_opponent();
        if next_closed_out {
            (cleared, Some(next))
        } else {
            (SessionView::<B> { current_player: next, ..cleared }, None)
        }
    }

    pub open spec fn roll_dice(self, player: Player, roll: TurnRoll) -> (SessionView<B>, ActionResult) {
        match self.turn_rejection(player) {
            Some(error) => (self, ActionResult::Refused(error)),
            None => if self.remaining_dice.len() > 0 {
                (self, ActionResult::Refused(ActionError::DiceAlreadyRolled))
            } else {
                let rolled = SessionView::<B> {
                    remaining_dice: roll.dice@,
                    last_roll: Some((roll.die1, roll.die2)),
                    move_history: Seq::empty(),
                    required_moves: roll.required_moves,
                    ..self
                };
                if roll.required_moves == 0 {
                    let (passed, closed_out) = rolled.pass_turn(roll.opponent_closed_out);
                    (passed, ActionResult::Rolled {
                        die1: roll.die1,
                        die2: roll.die2,
                        no_legal_moves: true,
                        closed_out,
                    })
                } else {
                    (rolled, ActionResult::Rolled {
                        die1: roll.die1,
                        die2: roll.die2,
                        no_legal_moves: false,
                        closed_out: None,
                    })
                }
            },
        }
    }

    /// Whether `make_move` applies the move (and so takes a sequence number).
    pub open spec fn move_accepted(self, player: Player, legal: bool) -> bool {
        &&& self.turn_rejection(player) is None
        &&& self.remaining_dice.len() > 0
        &&& legal
    }

    pub open spec fn make_move(
        self,
        player: Player,
        origin: Origin,
        die: u8,
        checked: Option<MoveOutcome<B>>,
    ) -> (SessionView<B>, ActionResult) {
        match self.turn_rejection(player) {
            Some(error) => (self, ActionResult::Refused(error)),
            None => if self.remaining_dice.len() == 0 {
                (self, ActionResult::Refused(ActionError::NoDiceRolled))
            } else {
                match checked {
                    None => (self, ActionResult::Refused(ActionError::IllegalMove)),
                    Some(outcome) => {
                        let moved = SessionView::<B> {
                            move_history: self.move_history.push((self.board, self.remaining_dice)),
                            board: outcome.board_after,
                            remaining_dice: remove_first(self.remaining_dice, die),
                            next_sequence_no: (self.next_sequence_no + 1) as u32,
                            ..self
                        };
                        match outcome.winner {
                            Some(winner) => (
                                SessionView::<B> {
                                    phase: RoundPhase::RoundEnded {
                                        next_round_at_ms: ROUND_END_NOT_SCHEDULED,
                                    },
                                    ..moved
                                },
                                ActionResult::RoundWon {
                                    winner,
                                    die,
                                    origin_point: origin_point(origin),
                                    sequence_no: self.next_sequence_no,
                                    round_no: self.round_no,
                                },
                            ),
                            None => (moved, ActionResult::MoveApplied {
                                die,
                                origin_point: origin_point(origin),
                                sequence_no: self.next_sequence_no,
                                round_no: self.round_no,
                            }),
                        }
                    },
                }
            },
        }
    }

    pub open spec fn undo(self, player: Player) -> (SessionView<B>, ActionResult) {
        match self.turn_rejection(player) {
            Some(error) => (self, ActionResult::Refused(error)),
            None => if self.move_history.len() == 0 {
                (self, ActionResult::Refused(ActionError::NothingToUndo))
            } else {
                let (board, dice) = self.move_history.last();
                (SessionView::<B> {
                    board,
                    remaining_dice: dice,
                    move_history: self.move_history.drop_last(),
                    ..self
                }, ActionResult::Accepted)
            },
        }
    }

    pub open spec fn confirm_turn(self, player: Player, next_closed_out: bool) -> (
        SessionView<B>,
        ActionResult,
    ) {
        match self.turn_rejection(player) {
            Some(error) => (self, ActionResult::Refused(error)),
            None => if self.move_history.len() < self.required_moves {
                (self, ActionResult::Refused(ActionError::MovesRemaining))
            } else {
                let (passed, closed_out) = self.pass_turn(next_closed_out);
                (passed, ActionResult::TurnPassed { closed_out })
            },
        }
    }

    /// A won round is worth two points when it was a mars, one otherwise.
    pub open spec fn round_points(mars: bool) -> u16 {
        if mars { 2 } else { 1 }
    }

    pub open spec fn finish_round(self, winner: Player, next_round_at_ms: i64, mars: bool) -> (
        SessionView<B>,
        RoundOutcome,
    ) {
        let points = Self::round_points(mars);
        let scored = match winner {
            Player::White => SessionView::<B> {
                white_score: (self.white_score + points) as u16,
                ..self
            },
            Player::Black => SessionView::<B> {
                black_score: (self.black_score + points) as u16,
                ..self
            },
        };
        let finished = SessionView::<B> {
            last_round_mars: mars,
            last_round_winner: Some(winner),
            phase: RoundPhase::RoundEnded { next_round_at_ms },
            ..scored
        };
        if finished.score_for(winner) >= MATCH_TARGET_SCORE {
            (finished, RoundOutcome::MatchWon(winner))
        } else {
            (finished, RoundOutcome::MatchContinues)
        }
    }

    pub open spec fn start_next_round(self, starting_board: B) -> SessionView<B> {
        SessionView::<B> {
            board: starting_board,
            current_player: match self.last_round_winner {
                Some(winner) => winner,
                None => self.current_player,
            },
            remaining_dice: Seq::empty(),
            last_roll: None,
            last_round_mars: false,
            move_history: Seq::empty(),
            required_moves: 0,
            round_no: (self.round_no + 1) as u16,
            phase: RoundPhase::Playing,
            ..self
        }
    }

    pub open spec fn hand_side_to_ai(self, player: Player) -> SessionView<B> {
        let seated = SessionView::<B> { ai_side: Some(player), ai_used: true, ..self };
        if self.current_player == player && self.move_history.len() > 0 {
            SessionView::<B> {
                board: self.move_history[0].0,
                remaining_dice: self.move_history[0].1,
                move_history: Seq::empty(),
                ..seated
            }
        } else {
            seated
        }
    }
}

pub struct GameSession<B> {
    pub white_user_id: u64,
    pub black_user_id: u64,
    pub board: B,
    pub current_player: Player,
    pub remaining_dice: Vec<u8>,
    pub last_roll: Option<[u8; 2]>,
    pub last_round_mars: bool,
    pub required_moves: usize,
    pub move_history: Vec<(B, Vec<u8>)>,
    pub next_sequence_no: u32,
    pub round_no: u16,
    pub white_score: u16,
    pub black_score: u16,
    pub last_round_winner: Option<Player>,
    pub phase: RoundPhase,
    pub ai_side: Option<Player>,
    pub ai_used: bool,
}

pub open spec fn history_view<B>(history: Seq<(B, Vec<u8>)>) -> Seq<(B, Seq<u8>)> {
    history.map_values(|entry: (B, Vec<u8>)| (entry.0, entry.1@))
}

pub open spec fn last_roll_view(last_roll: Option<[u8; 2]>) -> Option<(u8, u8)> {
    match last_roll {
        Some(dice) => Some((dice@[0], dice@[1])),
        None => None,
    }
}

impl<B> View for GameSession<B> {
    type V = SessionView<B>;

    open spec fn view(&self) -> SessionView<B> {
        SessionView::<B> {
            white_user_id: self.white_user_id,
            black_user_id: self.black_user_id,
            board: self.board,
            current_player: self.current_player,
            remaining_dice: self.remaining_dice@,
            last_roll: last_roll_view(self.last_roll),
            last_round_mars: self.last_round_mars,
            required_moves: self.required_moves,
            move_history: history_view(self.move_history@),
            next_sequence_no: self.next_sequence_no,
            round_no: self.round_no,
            white_score: self.white_score,
            black_score: self.black_score,
            last_round_winner: self.last_round_winner,
            phase: self.phase,
            ai_side: self.ai_side,
            ai_used: self.ai_used,
        }
    }
}

/// The round number of a new match.
pub fn first_round_no() -> (round_no: u16)
    ensures
        round_no == 1,
{
    1
}

/// A fair coin from the thread-local generator.
#[verifier::external_body]
fn coin_flip() -> bool {
    rand::random_ratio(1, 2)
}

/// The side that opens the first round for a coin toss.
pub open spec fn first_player_of(coin: bool) -> Player {
    if coin { Player::White } else { Player::Black }
}

/// The side that opens the first round for a coin toss: white on heads
/// (`true`), black on tails.
pub fn first_player_for(coin: bool) -> (player: Player)
    ensures
        player == first_player_of(coin),
{
    if coin {
        Player::White
    } else {
        Player::Black
    }
}

/// The side that opens the first round of a match, chosen by a fair coin.
pub fn random_first_player() -> (player: Player)
    ensures
        exists|coin: bool| player == #[trigger] first_player_of(coin),
{
    first_player_for(coin_flip())
}

/// Removes the first occurrence of `value` from `values`, if there is one.
pub fn remove_one(values: &mut Vec<u8>, value: u8)
    ensures
        final(values)@ == remove_first(old(values)@, value),
{
    let mut pos: usize = 0;
    while pos < values.len()
        invariant
            values@ == old(values)@,
            pos <= values.len(),
            forall|j: int| 0 <= j < pos ==> values@[j] != value,
        decreases values.len() - pos,
    {
        if values[pos] == value {
            proof {
                let s = old(values)@;
                assert(is_first_position(s, value, pos as int));
                assert(s.contains(value));
                let k = first_position(s, value);
                assert(is_first_position(s, value, k));
                if k < pos {
                    assert(s[k] != value);
                }
                if k > pos {
                    assert(s[pos as int] != value);
                }
                assert(k == pos);
            }
            values.remove(pos);
            return;
        }
        pos = pos + 1;
    }
    proof {
        let s = old(values)@;
        if s.contains(value) {
            let i = choose|i: int| 0 <= i < s.len() && s[i] == value;
            assert(s[i] != value);
        }
    }
}

/// A copy of the dice, element by element.
fn copy_dice(dice: &Vec<u8>) -> (copy: Vec<u8>)
    ensures
        copy@ == dice@,
{
    let mut copy: Vec<u8> = Vec::new();
    let mut i: usize = 0;
    while i < dice.len()
        invariant
            i <= dice.len(),
            copy@ == dice@.subrange(0, i as int),
        decreases dice.len() - i,
    {
        copy.push(dice[i]);
        i = i + 1;
        assert(copy@ =~= dice@.subrange(0, i as int));
    }
    assert(copy@ =~= dice@);
    copy
}

impl<B> GameSession<B> {
    /// A new match: round one, no dice, scores at zero, `first_player` to
    /// move on `starting_board`.
    pub fn new(white_user_id: u64, black_user_id: u64, first_player: Player, starting_board: B) -> (session: Self)
        ensures
            session@ == (SessionView::<B> {
                white_user_id,
                black_user_id,
                board: starting_board,
                current_player: first_player,
                remaining_dice: Seq::empty(),
                last_roll: None,
                last_round_mars: false,
                required_moves: 0,
                move_history: Seq::empty(),
                next_sequence_no: 0,
                round_no: 1,
                white_score: 0,
                black_score: 0,
                last_round_winner: None,
                phase: RoundPhase::Playing,
                ai_side: None,
                ai_used: false,
            }),
    {
        let session = Self {
            white_user_id,
            black_user_id,
            board: starting_board,
            current_player: first_player,
            remaining_dice: Vec::new(),
            last_roll: None,
            last_round_mars: false,
            required_moves: 0,
            move_history: Vec::new(),
            next_sequence_no: 0,
            round_no: first_round_no(),
            white_score: 0,
            black_score: 0,
            last_round_winner: None,
            phase: RoundPhase::Playing,
            ai_side: None,
            ai_used: false,
        };
        assert(history_view(session.move_history@) =~= Seq::<(B, Seq<u8>)>::empty());
        session
    }

    /// Gives `player`'s seat to the computer. If it is that side's turn, the
    /// half-played turn is rewound to where it started.
    pub fn hand_side_to_ai(&mut self, player: Player)
        ensures
            final(self)@ == old(self)@.hand_side_to_ai(player),
    {
        self.ai_side = Some(player);
        self.ai_used = true;
        if self.current_player == player && self.move_history.len() > 0 {
            let (board, remaining_dice) = self.move_history.remove(0);
            self.board = board;
            self.remaining_dice = remaining_dice;
            self.move_history.clear();
            assert(history_view(self.move_history@) =~= Seq::<(B, Seq<u8>)>::empty());
        }
    }

    pub fn score_for(&self, player: Player) -> (score: u16)
        ensures
            score == self@.score_for(player),
    {
        match player {
            Player::White => self.white_score,
            Player::Black => self.black_score,
        }
    }

    pub fn is_playing(&self) -> (playing: bool)
        ensures
            playing == self@.is_playing(),
    {
        match self.phase {
            RoundPhase::Playing => true,
            RoundPhase::RoundEnded { .. } => false,
        }
    }

    /// When the next round starts, once the end of this one has been scheduled.
    pub fn next_round_at_ms(&self) -> (at: Option<i64>)
        ensures
            at == (match self.phase {
                RoundPhase::RoundEnded { next_round_at_ms } => if next_round_at_ms
                    != ROUND_END_NOT_SCHEDULED {
                    Some(next_round_at_ms)
                } else {
                    None::<i64>
                },
                RoundPhase::Playing => None::<i64>,
            }),
    {
        match self.phase {
            RoundPhase::RoundEnded { next_round_at_ms } => {
                if next_round_at_ms != ROUND_END_NOT_SCHEDULED {
                    Some(next_round_at_ms)
                } else {
                    None
                }
            },
            RoundPhase::Playing => None,
        }
    }

    /// Scores a won round for `winner` (two points for a mars, one otherwise)
    /// and schedules the next round; reports whether the match is over.
    pub fn finish_round(&mut self, winner: Player, next_round_at_ms: i64, mars: bool) -> (outcome: RoundOutcome)
        requires
            old(self)@.score_for(winner) + SessionView::<B>::round_points(mars) <= u16::MAX,
        ensures
            (final(self)@, outcome) == old(self)@.finish_round(winner, next_round_at_ms, mars),
    {
        let points: u16 = if mars {
            2
        } else {
            1
        };
        self.last_round_mars = mars;
        match winner {
            Player::White => self.white_score = self.white_score + points,
            Player::Black => self.black_score = self.black_score + points,
        }
        self.last_round_winner = Some(winner);
        self.phase = RoundPhase::RoundEnded { next_round_at_ms };

        if self.score_for(winner) >= MATCH_TARGET_SCORE {
            RoundOutcome::MatchWon(winner)
        } else {
            RoundOutcome::MatchContinues
        }
    }

    /// Starts the next round on `starting_board`; the previous round's winner
    /// opens it. The score and the move numbering carry over.
    pub fn start_next_round(&mut self, starting_board: B)
        requires
            old(self).round_no < u16::MAX,
        ensures
            final(self)@ == old(self)@.start_next_round(starting_board),
    {
        self.board = starting_board;
        self.current_player = match self.last_round_winner {
            Some(winner) => winner,
            None => self.current_player,
        };
        self.remaining_dice.clear();
        self.last_roll = None;
        self.last_round_mars = false;
        self.move_history.clear();
        self.required_moves = 0;
        self.round_no = self.round_no + 1;
        self.phase = RoundPhase::Playing;
        assert(history_view(self.move_history@) =~= Seq::<(B, Seq<u8>)>::empty());
    }

    fn reject_when_round_is_over(&self) -> (rejection: Option<ActionResult>)
        ensures
            rejection == (if self@.is_playing() {
                None
            } else {
                Some(ActionResult::Refused(ActionError::RoundNotActive))
            }),
    {
        if self.is_playing() {
            None
        } else {
            Some(ActionResult::Refused(ActionError::RoundNotActive))
        }
    }

    pub fn player_for_user(&self, user_id: u64) -> (player: Option<Player>)
        ensures
            player == (if user_id == self.white_user_id {
                Some(Player::White)
            } else if user_id == self.black_user_id {
                Some(Player::Black)
            } else {
                None
            }),
    {
        if user_id == self.white_user_id {
            Some(Player::White)
        } else if user_id == self.black_user_id {
            Some(Player::Black)
        } else {
            None
        }
    }

    pub fn user_id_for(&self, player: Player) -> (user_id: u64)
        ensures
            user_id == (match player {
                Player::White => self.white_user_id,
                Player::Black => self.black_user_id,
            }),
    {
        match player {
            Player::White => self.white_user_id,
            Player::Black => self.black_user_id,
        }
    }

    fn pass_turn(&mut self, next_closed_out: bool) -> (closed_out: Option<Player>)
        ensures
            (final(self)@, closed_out) == old(self)@.pass_turn(next_closed_out),
    {
        self.move_history.clear();
        self.remaining_dice.clear();
        self.required_moves = 0;
        assert(history_view(self.move_history@) =~= Seq::<(B, Seq<u8>)>::empty());

        let next = self.current_player.opponent();
        if next_closed_out {
            return Some(next);
        }
        self.current_player = next;
        None
    }

    /// Rolls for `player`: `roll` is the roll with what the board rules said
    /// about it on the current board.
    pub fn roll_dice(&mut self, player: Player, roll: TurnRoll) -> (result: ActionResult)
        ensures
            (final(self)@, result) == old(self)@.roll_dice(player, roll),
    {
        if let Some(rejection) = self.reject_when_round_is_over() {
            return rejection;
        }
        if player != self.current_player {
            return ActionResult::Refused(ActionError::NotYourTurn);
        }
        if self.remaining_dice.len() > 0 {
            return ActionResult::Refused(ActionError::DiceAlreadyRolled);
        }
        let ghost old_view = self@;

        let die1 = roll.die1;
        let die2 = roll.die2;
        let required_moves = roll.required_moves;
        let opponent_closed_out = roll.opponent_closed_out;
        self.remaining_dice = roll.dice;
        self.last_roll = Some([die1, die2]);
        self.move_history.clear();
        self.required_moves = required_moves;
        assert(history_view(self.move_history@) =~= Seq::<(B, Seq<u8>)>::empty());
        assert(self@ =~= (SessionView::<B> {
            remaining_dice: roll.dice@,
            last_roll: Some((die1, die2)),
            move_history: Seq::empty(),
            required_moves,
            ..old_view
        }));

        let no_legal_moves = required_moves == 0;
        let closed_out = if no_legal_moves {
            self.pass_turn(opponent_closed_out)
        } else {
            None
        };

        ActionResult::Rolled { die1, die2, no_legal_moves, closed_out }
    }

    /// Moves a checker of `player` from `origin` with `die`. `checked` is the
    /// board rules' answer for that move on the current board: `None` when it
    /// is illegal, otherwise the board after it and the round's winner, if the
    /// move won it.
    pub fn make_move(
        &mut self,
        player: Player,
        origin: Origin,
        die: u8,
        checked: Option<MoveOutcome<B>>,
    ) -> (result: ActionResult)
        requires
            old(self)@.move_accepted(player, checked is Some) ==> old(self).next_sequence_no
                < u32::MAX,
        ensures
            (final(self)@, result) == old(self)@.make_move(player, origin, die, checked),
    {
        if let Some(rejection) = self.reject_when_round_is_over() {
            return rejection;
        }
        if player != self.current_player {
            return ActionResult::Refused(ActionError::NotYourTurn);
        }
        if self.remaining_dice.len() == 0 {
            return ActionResult::Refused(ActionError::NoDiceRolled);
        }
        let outcome = match checked {
            None => {
                return ActionResult::Refused(ActionError::IllegalMove);
            },
            Some(outcome) => outcome,
        };
        let ghost old_view = self@;
        let ghost old_history = self.move_history@;

        let MoveOutcome { board_after, winner } = outcome;
        let mut previous_board = board_after;
        std::mem::swap(&mut self.board, &mut previous_board);
        let previous_dice = copy_dice(&self.remaining_dice);
        self.move_history.push((previous_board, previous_dice));
        remove_one(&mut self.remaining_dice, die);
        proof {
            let f = |entry: (B, Vec<u8>)| (entry.0, entry.1@);
            assert(self.move_history@ == old_history.push((previous_board, previous_dice)));
            assert(history_view(self.move_history@) =~= history_view(old_history).push(
                (old_view.board, old_view.remaining_dice),
            ));
        }

        let origin_point = match origin {
            Origin::Bar => None,
            Origin::Point(point) => Some(point),
        };
        let sequence_no = self.next_sequence_no;
        self.next_sequence_no = self.next_sequence_no + 1;

        if let Some(winner) = winner {
            self.phase = RoundPhase::RoundEnded { next_round_at_ms: ROUND_END_NOT_SCHEDULED };
            return ActionResult::RoundWon {
                winner,
                die,
                origin_point,
                sequence_no,
                round_no: self.round_no,
            };
        }

        ActionResult::MoveApplied { die, origin_point, sequence_no, round_no: self.round_no }
    }

    /// Takes back the last move of the current turn.
    pub fn undo(&mut self, player: Player) -> (result: ActionResult)
        ensures
            (final(self)@, result) == old(self)@.undo(player),
    {
        if let Some(rejection) = self.reject_when_round_is_over() {
            return rejection;
        }
        if player != self.current_player {
            return ActionResult::Refused(ActionError::NotYourTurn);
        }
        let ghost old_history = self.move_history@;
        match self.move_history.pop() {
            None => ActionResult::Refused(ActionError::NothingToUndo),
            Some((board, remaining_dice)) => {
                self.board = board;
                self.remaining_dice = remaining_dice;
                assert(history_view(self.move_history@) =~= history_view(old_history).drop_last());
                ActionResult::Accepted
            },
        }
    }

    /// Ends `player`'s turn once every required move has been played.
    /// `next_closed_out` says whether the opponent is closed out on the
    /// current board.
    pub fn confirm_turn(&mut self, player: Player, next_closed_out: bool) -> (result: ActionResult)
        ensures
            (final(self)@, result) == old(self)@.confirm_turn(player, next_closed_out),
    {
        if let Some(rejection) = self.reject_when_round_is_over() {
            return rejection;
        }
        if player != self.current_player {
            return ActionResult::Refused(ActionError::NotYourTurn);
        }
        if self.move_history.len() < self.required_moves {
            return ActionResult::Refused(ActionError::MovesRemaining);
        }

        ActionResult::TurnPassed { closed_out: self.pass_turn(next_closed_out) }
    }
}

/// A move that did not end the round is taken back whole by an undo of the
/// same player: the board, the dice and the turn history are as before the
/// move (the move number it used stays used).
pub proof fn lemma_undo_takes_back_a_move<B>(
    s: SessionView<B>,
    player: Player,
    origin: Origin,
    die: u8,
    board_after: B,
)
    requires
        s.move_accepted(player, true),
        s.next_sequence_no < u32::MAX,
    ensures
        ({
            let (moved, applied) = s.make_move(
                player,
                origin,
                die,
                Some(MoveOutcome { board_after, winner: None }),
            );
            let (undone, result) = moved.undo(player);
            &&& applied is MoveApplied
            &&& result == ActionResult::Accepted
            &&& undone.board == s.board
            &&& undone.remaining_dice == s.remaining_dice
            &&& undone.move_history == s.move_history
            &&& undone.current_player == s.current_player
            &&& undone.next_sequence_no == s.next_sequence_no + 1
        }),
{
    let (moved, _) = s.make_move(
        player,
        origin,
        die,
        Some(MoveOutcome { board_after, winner: None }),
    );
    assert(moved.move_history.drop_last() =~= s.move_history);
}

/// A die that is among the remaining dice has a first position there.
proof fn lemma_a_held_die_has_a_first_position(values: Seq<u8>, value: u8, i: int)
    requires
        0 <= i < values.len(),
        values[i] == value,
    ensures
        is_first_position(values, value, first_position(values, value)),
    decreases i,
{
    if forall|j: int| 0 <= j < i ==> values[j] != value {
        assert(is_first_position(values, value, i));
    } else {
        let j = choose|j: int| 0 <= j < i && values[j] == value;
        lemma_a_held_die_has_a_first_position(values, value, j);
    }
}

/// An accepted move uses up exactly the die it played: when that die is
/// among the remaining dice, the dice afterwards together with one more of
/// it are the dice before (as a multiset, so its count drops by one and no
/// other die changes), one fewer in all; a die that is not there takes
/// nothing away.
pub proof fn lemma_a_move_uses_up_its_die<B>(
    s: SessionView<B>,
    player: Player,
    origin: Origin,
    die: u8,
    outcome: MoveOutcome<B>,
)
    requires
        s.move_accepted(player, true),
    ensures
        ({
            let (after, _) = s.make_move(player, origin, die, Some(outcome));
            &&& s.remaining_dice.contains(die) ==> after.remaining_dice.to_multiset().insert(die)
                == s.remaining_dice.to_multiset()
            &&& s.remaining_dice.contains(die) ==> after.remaining_dice.len() + 1 == s.remaining_dice.len()
            &&& !s.remaining_dice.contains(die) ==> after.remaining_dice == s.remaining_dice
        }),
{
    broadcast use vstd::seq_lib::group_to_multiset_ensures;

    let dice = s.remaining_dice;
    if dice.contains(die) {
        let i = choose|i: int| 0 <= i < dice.len() && dice[i] == die;
        lemma_a_held_die_has_a_first_position(dice, die, i);
        let k = first_position(dice, die);
        let (after, _) = s.make_move(player, origin, die, Some(outcome));
        assert(after.remaining_dice == dice.remove(k));
        assert(dice.remove(k).to_multiset() == dice.to_multiset().remove(die));
        assert(dice.to_multiset().count(die) > 0);
        assert(dice.to_multiset().remove(die).insert(die) =~= dice.to_multiset());
    }
}

/// What an accepted move records: the board the rules gave, the position and
/// dice before it on the turn's history, the next move number, and a report
/// of the die, the point it left and the number it used; the side to move,
/// the round and the scores stay.
pub proof fn lemma_an_accepted_move_is_recorded<B>(
    s: SessionView<B>,
    player: Player,
    origin: Origin,
    die: u8,
    outcome: MoveOutcome<B>,
)
    requires
        s.move_accepted(player, true),
        s.next_sequence_no < u32::MAX,
    ensures
        ({
            let (after, result) = s.make_move(player, origin, die, Some(outcome));
            &&& after.board == outcome.board_after
            &&& after.move_history == s.move_history.push((s.board, s.remaining_dice))
            &&& after.next_sequence_no == s.next_sequence_no + 1
            &&& after.current_player == s.current_player
            &&& after.round_no == s.round_no
            &&& after.white_score == s.white_score
            &&& after.black_score == s.black_score
            &&& outcome.winner is None ==> after.is_playing() && result == ActionResult::MoveApplied {
                die,
                origin_point: match origin {
                    Origin::Bar => None,
                    Origin::Point(p) => Some(p),
                },
                sequence_no: s.next_sequence_no,
                round_no: s.round_no,
            }
        }),
{
}

/// The order of a turn, for the player whose turn it is while the round is
/// on: dice are rolled once (a second roll before they are used up is
/// refused), a move needs rolled dice and a legal move, an undo needs a move
/// played this turn, and the turn is confirmed only once the required moves
/// are played; each of these refusals changes nothing.
pub proof fn lemma_a_turn_goes_in_order<B>(
    s: SessionView<B>,
    roll: TurnRoll,
    origin: Origin,
    die: u8,
    checked: Option<MoveOutcome<B>>,
    next_closed_out: bool,
)
    requires
        s.is_playing(),
    ensures
        ({
            let p = s.current_player;
            &&& s.remaining_dice.len() > 0 ==> s.roll_dice(p, roll) == (
                s,
                ActionResult::Refused(ActionError::DiceAlreadyRolled),
            )
            &&& s.remaining_dice.len() == 0 ==> s.roll_dice(p, roll).1 is Rolled
            &&& s.remaining_dice.len() == 0 ==> s.make_move(p, origin, die, checked) == (
                s,
                ActionResult::Refused(ActionError::NoDiceRolled),
            )
            &&& s.remaining_dice.len() > 0 && checked is None ==> s.make_move(p, origin, die, checked) == (
                s,
                ActionResult::Refused(ActionError::IllegalMove),
            )
            &&& s.move_history.len() == 0 ==> s.undo(p) == (
                s,
                ActionResult::Refused(ActionError::NothingToUndo),
            )
            &&& s.move_history.len() > 0 ==> s.undo(p) == ((SessionView::<B> {
                board: s.move_history[s.move_history.len() - 1].0,
                remaining_dice: s.move_history[s.move_history.len() - 1].1,
                move_history: s.move_history.subrange(0, s.move_history.len() - 1),
                ..s
            }), ActionResult::Accepted)
            &&& s.move_history.len() < s.required_moves ==> s.confirm_turn(p, next_closed_out) == (
                s,
                ActionResult::Refused(ActionError::MovesRemaining),
            )
            &&& s.move_history.len() >= s.required_moves ==> s.confirm_turn(p, next_closed_out).1 is TurnPassed
        }),
{
    if s.move_history.len() > 0 {
        assert(s.move_history.drop_last() =~= s.move_history.subrange(0, s.move_history.len() - 1));
    }
}

/// Once a round is over, every turn action is refused with
/// `round_not_active` and changes nothing.
pub proof fn lemma_a_finished_round_blocks_every_action<B>(
    s: SessionView<B>,
    player: Player,
    roll: TurnRoll,
    origin: Origin,
    die: u8,
    checked: Option<MoveOutcome<B>>,
    next_closed_out: bool,
)
    requires
        !s.is_playing(),
    ensures
        s.roll_dice(player, roll) == (s, ActionResult::Refused(ActionError::RoundNotActive)),
        s.make_move(player, origin, die, checked) == (
            s,
            ActionResult::Refused(ActionError::RoundNotActive),
        ),
        s.undo(player) == (s, ActionResult::Refused(ActionError::RoundNotActive)),
        s.confirm_turn(player, next_closed_out) == (
            s,
            ActionResult::Refused(ActionError::RoundNotActive),
        ),
{
}

/// The move that wins the round ends it: the session leaves the playing
/// phase, so every further action is refused until the next round starts.
pub proof fn lemma_the_winning_move_ends_the_round<B>(
    s: SessionView<B>,
    player: Player,
    origin: Origin,
    die: u8,
    board_after: B,
    winner: Player,
)
    requires
        s.move_accepted(player, true),
    ensures
        ({
            let (after, result) = s.make_move(
                player,
                origin,
                die,
                Some(MoveOutcome { board_after, winner: Some(winner) }),
            );
            &&& !after.is_playing()
            &&& result matches ActionResult::RoundWon { winner: w, .. } && w == winner
        }),
{
}

/// While a round is on, only the player whose turn it is can act; anyone
/// else is refused with `not_your_turn` and nothing changes.
pub proof fn lemma_only_the_current_player_acts<B>(
    s: SessionView<B>,
    player: Player,
    roll: TurnRoll,
    origin: Origin,
    die: u8,
    checked: Option<MoveOutcome<B>>,
    next_closed_out: bool,
)
    requires
        s.is_playing(),
        player != s.current_player,
    ensures
        s.roll_dice(player, roll) == (s, ActionResult::Refused(ActionError::NotYourTurn)),
        s.make_move(player, origin, die, checked) == (
            s,
            ActionResult::Refused(ActionError::NotYourTurn),
        ),
        s.undo(player) == (s, ActionResult::Refused(ActionError::NotYourTurn)),
        s.confirm_turn(player, next_closed_out) == (
            s,
            ActionResult::Refused(ActionError::NotYourTurn),
        ),
{
}

/// Every refused action leaves the session exactly as it was.
pub proof fn lemma_a_refused_action_changes_nothing<B>(
    s: SessionView<B>,
    player: Player,
    roll: TurnRoll,
    origin: Origin,
    die: u8,
    checked: Option<MoveOutcome<B>>,
    next_closed_out: bool,
)
    ensures
        s.roll_dice(player, roll).1 is Refused ==> s.roll_dice(player, roll).0 == s,
        s.make_move(player, origin, die, checked).1 is Refused ==> s.make_move(
            player,
            origin,
            die,
            checked,
        ).0 == s,
        s.undo(player).1 is Refused ==> s.undo(player).0 == s,
        s.confirm_turn(player, next_closed_out).1 is Refused ==> s.confirm_turn(
            player,
            next_closed_out,
        ).0 == s,
{
}

/// Confirming a turn hands it to the opponent, unless the opponent is closed
/// out, in which case the turn comes straight back to the same player and the
/// closed-out side is reported. Either way the turn starts without dice.
pub proof fn lemma_confirm_passes_the_turn<B>(s: SessionView<B>, next_closed_out: bool)
    requires
        s.is_playing(),
        s.move_history.len() >= s.required_moves,
    ensures
        ({
            let (after, result) = s.confirm_turn(s.current_player, next_closed_out);
            &&& after.remaining_dice.len() == 0
            &&& after.move_history.len() == 0
            &&& after.required_moves == 0
            &&& if next_closed_out {
                &&& after.current_player == s.current_player
                &&& result == ActionResult::TurnPassed {
                    closed_out: Some(s.current_player.spec_opponent()),
                }
            } else {
                &&& after.current_player == s.current_player.spec_opponent()
                &&& result == ActionResult::TurnPassed { closed_out: None }
            }
        }),
{
}

/// A roll with no legal move ends the turn at once: it is reported as such
/// and the dice are cleared; a roll with a legal move keeps the turn and
/// reports that there is something to play.
pub proof fn lemma_a_roll_without_moves_passes_the_turn<B>(s: SessionView<B>, roll: TurnRoll)
    requires
        s.is_playing(),
        s.remaining_dice.len() == 0,
    ensures
        ({
            let (after, result) = s.roll_dice(s.current_player, roll);
            &&& after.last_roll == Some((roll.die1, roll.die2))
            &&& result matches ActionResult::Rolled { no_legal_moves, .. } && no_legal_moves == (
                roll.required_moves == 0)
            &&& roll.required_moves == 0 ==> {
                &&& after.remaining_dice.len() == 0
                &&& after.required_moves == 0
                &&& (after.current_player == s.current_player) == roll.opponent_closed_out
            }
            &&& roll.required_moves > 0 ==> {
                &&& after.current_player == s.current_player
                &&& after.remaining_dice == roll.dice@
            }
        }),
{
}

/// Scoring a round: the winner gains two points for a mars and one
/// otherwise, the loser's score is unchanged, and the match is won exactly
/// when the winner's score reaches the target.
pub proof fn lemma_scoring_a_round<B>(s: SessionView<B>, winner: Player, next_round_at_ms: i64, mars: bool)
    requires
        s.score_for(winner) + SessionView::<B>::round_points(mars) <= u16::MAX,
    ensures
        ({
            let (after, outcome) = s.finish_round(winner, next_round_at_ms, mars);
            &&& after.score_for(winner) == s.score_for(winner) + (if mars { 2int } else { 1int })
            &&& after.score_for(winner.spec_opponent()) == s.score_for(winner.spec_opponent())
            &&& after.last_round_mars == mars
            &&& after.last_round_winner == Some(winner)
            &&& !after.is_playing()
            &&& (outcome == RoundOutcome::MatchWon(winner)) == (after.score_for(winner)
                >= MATCH_TARGET_SCORE)
            &&& (outcome == RoundOutcome::MatchContinues) == (after.score_for(winner)
                < MATCH_TARGET_SCORE)
        }),
{
}

/// The next round starts fresh: the given board, no dice or history, no
/// mars, the previous round's winner to move and the round number one higher;
/// the scores, the players and the move numbering carry over.
pub proof fn lemma_the_next_round_starts_fresh<B>(s: SessionView<B>, winner: Player, starting_board: B)
    requires
        s.last_round_winner == Some(winner),
        s.round_no < u16::MAX,
    ensures
        ({
            let after = s.start_next_round(starting_board);
            &&& after.is_playing()
            &&& after.board == starting_board
            &&& after.current_player == winner
            &&& after.remaining_dice.len() == 0
            &&& after.move_history.len() == 0
            &&& after.required_moves == 0
            &&& after.last_roll is None
            &&& !after.last_round_mars
            &&& after.round_no == s.round_no + 1
            &&& after.white_score == s.white_score
            &&& after.black_score == s.black_score
            &&& after.next_sequence_no == s.next_sequence_no
        }),
{
}

/// Handing the side to move to the computer rewinds its half-played turn to
/// where the turn started; handing the other side leaves the turn alone.
pub proof fn lemma_handing_a_side_to_the_ai<B>(s: SessionView<B>, player: Player)
    ensures
        ({
            let after = s.hand_side_to_ai(player);
            &&& after.ai_side == Some(player)
            &&& after.ai_used
            &&& if player == s.current_player && s.move_history.len() > 0 {
                &&& after.board == s.move_history[0].0
                &&& after.remaining_dice == s.move_history[0].1
                &&& after.move_history.len() == 0
            } else {
                &&& after.board == s.board
                &&& after.remaining_dice == s.remaining_dice
                &&& after.move_history == s.move_history
            }
        }),
{
}

/// Move numbers only go forward: no action of a match ever lowers the next
/// sequence number, and an applied move raises it by one.
pub proof fn lemma_move_numbers_never_go_back<B>(
    s: SessionView<B>,
    player: Player,
    roll: TurnRoll,
    origin: Origin,
    die: u8,
    checked: Option<MoveOutcome<B>>,
    next_closed_out: bool,
    winner: Player,
    next_round_at_ms: i64,
    mars: bool,
    starting_board: B,
)
    requires
        s.move_accepted(player, checked is Some) ==> s.next_sequence_no < u32::MAX,
    ensures
        s.roll_dice(player, roll).0.next_sequence_no == s.next_sequence_no,
        s.undo(player).0.next_sequence_no == s.next_sequence_no,
        s.confirm_turn(player, next_closed_out).0.next_sequence_no == s.next_sequence_no,
        s.finish_round(winner, next_round_at_ms, mars).0.next_sequence_no == s.next_sequence_no,
        s.start_next_round(starting_board).next_sequence_no == s.next_sequence_no,
        s.hand_side_to_ai(player).next_sequence_no == s.next_sequence_no,
        s.make_move(player, origin, die, checked).0.next_sequence_no == if s.move_accepted(
            player,
            checked is Some,
        ) {
            s.next_sequence_no + 1
        } else {
            s.next_sequence_no as int
        },
{
}

} // verus!
