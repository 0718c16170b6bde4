//! Game events queued for the database, and how a batch of them becomes
//! rows.

use vstd::prelude::*;

use std::collections::HashMap;

use super::player::Player;
use crate::utils::clock::{spec_utc_ms_or_epoch, utc_ms_or_epoch};

verus! {

broadcast use vstd::std_specs::hash::group_hash_axioms;

#[derive(Clone, Copy, Debug, PartialEq, Eq, Structural)]
pub enum OutboxEvent {
    Move {
        game_id: u64,
        round_no: u16,
        sequence_no: u32,
        player: Player,
        origin_point: Option<u8>,
        die: u8,
        is_ai: bool,
        at_ms: i64,
    },
    RoundWon {
        game_id: u64,
        round_no: u16,
        winner_user_id: u64,
        white_score: u16,
        black_score: u16,
        at_ms: i64,
    },
    MatchFinished {
        game_id: u64,
        winner_user_id: u64,
        loser_user_id: u64,
        white_score: u16,
        black_score: u16,
        at_ms: i64,
        ranked: bool,
    },
    MatchAbandoned { game_id: u64, white_score: u16, black_score: u16, at_ms: i64 },
}

/// Whether a finished match counts towards wins and losses when its event
/// does not say (events queued before the flag existed did count).
pub fn counts_towards_scores() -> (ranked: bool)
    ensures
        ranked,
{
    true
}

/// The side column of a move row.
#[derive(Clone, Copy, Debug, PartialEq, Eq, Structural)]
pub enum GameMovePlayer {
    White,
    Black,
}

/// The status column of a match row.
#[derive(Clone, Copy, Debug, PartialEq, Eq, Structural)]
pub enum GameStatus {
    Waiting,
    Active,
    Finished,
    Abandoned,
}

#[derive(Clone, Copy, Debug, PartialEq, Eq, Structural)]
pub struct NewMoveRow {
    pub game_id: u64,
    pub round_no: u16,
    pub sequence_no: u32,
    pub player: GameMovePlayer,
    pub origin_point: Option<u8>,
    pub die: u8,
    pub is_ai: bool,
    /// The event's time as a UTC date-time, in unix milliseconds; see
    /// `utc_ms_or_epoch`.
    pub created_at_ms: i64,
}

#[derive(Clone, Copy, Debug, PartialEq, Eq, Structural)]
pub struct NewRoundRow {
    pub game_id: u64,
    pub round_no: u16,
    pub winner_user_id: u64,
    pub white_score: u16,
    pub black_score: u16,
    /// The event's time as a UTC date-time, in unix milliseconds; see
    /// `utc_ms_or_epoch`.
    pub created_at_ms: i64,
}

#[derive(Clone, Copy, Debug, PartialEq, Eq, Structural)]
pub struct MatchEndRow {
    pub game_id: u64,
    pub status: GameStatus,
    pub winner_user_id: Option<u64>,
    pub white_score: u16,
    pub black_score: u16,
    /// The event's time as a UTC date-time, in unix milliseconds; see
    /// `utc_ms_or_epoch`.
    pub finished_at_ms: i64,
}

#[derive(Clone, Copy, Debug, PartialEq, Eq)]
pub struct PlannedMatchEnd {
    pub row: MatchEndRow,
    /// The winner and the loser whose counts change, for a ranked finish.
    pub winner_and_loser: Option<(u64, u64)>,
}

pub struct BatchPlan {
    pub moves: Vec<NewMoveRow>,
    pub rounds: Vec<NewRoundRow>,
    pub match_ends: Vec<PlannedMatchEnd>,
}

#[derive(Clone, Copy, Debug, Default, PartialEq, Eq, Structural)]
pub struct ScoreDelta {
    pub wins: u32,
    pub losses: u32,
}

pub open spec fn spec_white_or_black(player: Player) -> GameMovePlayer {
    match player {
        Player::White => GameMovePlayer::White,
        Player::Black => GameMovePlayer::Black,
    }
}

fn white_or_black(player: Player) -> (side: GameMovePlayer)
    ensures
        side == spec_white_or_black(player),
{
    match player {
        Player::White => GameMovePlayer::White,
        Player::Black => GameMovePlayer::Black,
    }
}

/// The rows a sequence of events becomes, in the order of the events:
/// moves, won rounds and match ends, each in its own list.
pub open spec fn plan_of(events: Seq<OutboxEvent>) -> (Seq<NewMoveRow>, Seq<NewRoundRow>, Seq<
    PlannedMatchEnd,
>)
    decreases events.len(),
{
    if events.len() == 0 {
        (Seq::empty(), Seq::empty(), Seq::empty())
    } else {
        let (moves, rounds, ends) = plan_of(events.drop_last());
        match events.last() {
            OutboxEvent::Move {
                game_id,
                round_no,
                sequence_no,
                player,
                origin_point,
                die,
                is_ai,
                at_ms,
            } => (
                moves.push(
                    NewMoveRow {
                        game_id,
                        round_no,
                        sequence_no,
                        player: spec_white_or_black(player),
                        origin_point,
                        die,
                        is_ai,
                        created_at_ms: spec_utc_ms_or_epoch(at_ms),
                    },
                ),
                rounds,
                ends,
            ),
            OutboxEvent::RoundWon {
                game_id,
                round_no,
                winner_user_id,
                white_score,
                black_score,
                at_ms,
            } => (
                moves,
                rounds.push(
                    NewRoundRow {
                        game_id,
                        round_no,
                        winner_user_id,
                        white_score,
                        black_score,
                        created_at_ms: spec_utc_ms_or_epoch(at_ms),
                    },
                ),
                ends,
            ),
            OutboxEvent::MatchFinished {
                game_id,
                winner_user_id,
                loser_user_id,
                white_score,
                black_score,
                at_ms,
                ranked,
            } => (
                moves,
                rounds,
                ends.push(
                    PlannedMatchEnd {
                        row: MatchEndRow {
                            game_id,
                            status: GameStatus::Finished,
                            winner_user_id: Some(winner_user_id),
                            white_score,
                            black_score,
                            finished_at_ms: spec_utc_ms_or_epoch(at_ms),
                        },
                        winner_and_loser: if ranked {
                            Some((winner_user_id, loser_user_id))
                        } else {
                            None
                        },
                    },
                ),
            ),
            OutboxEvent::MatchAbandoned { game_id, white_score, black_score, at_ms } => (
                moves,
                rounds,
                ends.push(
                    PlannedMatchEnd {
                        row: MatchEndRow {
                            game_id,
                            status: GameStatus::Abandoned,
                            winner_user_id: None,
                            white_score,
                            black_score,
                            finished_at_ms: spec_utc_ms_or_epoch(at_ms),
                        },
                        winner_and_loser: None,
                    },
                ),
            ),
        }
    }
}

/// How many events of a batch are moves.
pub open spec fn moves_in(events: Seq<OutboxEvent>) -> nat
    decreases events.len(),
{
    if events.len() == 0 {
        0
    } else {
        moves_in(events.drop_last()) + if events.last() is Move { 1nat } else { 0nat }
    }
}

/// How many events of a batch are won rounds.
pub open spec fn rounds_in(events: Seq<OutboxEvent>) -> nat
    decreases events.len(),
{
    if events.len() == 0 {
        0
    } else {
        rounds_in(events.drop_last()) + if events.last() is RoundWon { 1nat } else { 0nat }
    }
}

/// How many events of a batch end a match.
pub open spec fn ends_in(events: Seq<OutboxEvent>) -> nat
    decreases events.len(),
{
    if events.len() == 0 {
        0
    } else {
        ends_in(events.drop_last()) + if events.last() is MatchFinished || events.last() is MatchAbandoned {
            1nat
        } else {
            0nat
        }
    }
}

/// The `i`-th event of a batch and the row it becomes agree field by field:
/// a move is the row after as many move rows as there are moves before it,
/// and likewise a won round among the round rows and a match end among the
/// match ends; the time is the event's as a UTC date-time.
pub open spec fn event_row_agrees(events: Seq<OutboxEvent>, i: int) -> bool {
    let (moves, rounds, ends) = plan_of(events);
    let before = events.take(i);
    match events[i] {
        OutboxEvent::Move { game_id, round_no, sequence_no, player, origin_point, die, is_ai, at_ms } => {
            let row = moves[moves_in(before) as int];
            &&& moves_in(before) < moves.len()
            &&& row.game_id == game_id
            &&& row.round_no == round_no
            &&& row.sequence_no == sequence_no
            &&& row.player == (if player == Player::White { GameMovePlayer::White } else { GameMovePlayer::Black })
            &&& row.origin_point == origin_point
            &&& row.die == die
            &&& row.is_ai == is_ai
            &&& row.created_at_ms == spec_utc_ms_or_epoch(at_ms)
        },
        OutboxEvent::RoundWon { game_id, round_no, winner_user_id, white_score, black_score, at_ms } => {
            let row = rounds[rounds_in(before) as int];
            &&& rounds_in(before) < rounds.len()
            &&& row.game_id == game_id
            &&& row.round_no == round_no
            &&& row.winner_user_id == winner_user_id
            &&& row.white_score == white_score
            &&& row.black_score == black_score
            &&& row.created_at_ms == spec_utc_ms_or_epoch(at_ms)
        },
        OutboxEvent::MatchFinished {
            game_id,
            winner_user_id,
            loser_user_id,
            white_score,
            black_score,
            at_ms,
            ranked,
        } => {
            let end = ends[ends_in(before) as int];
            &&& ends_in(before) < ends.len()
            &&& end.row.game_id == game_id
            &&& end.row.status == GameStatus::Finished
            &&& end.row.winner_user_id == Some(winner_user_id)
            &&& end.row.white_score == white_score
            &&& end.row.black_score == black_score
            &&& end.row.finished_at_ms == spec_utc_ms_or_epoch(at_ms)
            &&& end.winner_and_loser == (if ranked { Some((winner_user_id, loser_user_id)) } else { None })
        },
        OutboxEvent::MatchAbandoned { game_id, white_score, black_score, at_ms } => {
            let end = ends[ends_in(before) as int];
            &&& ends_in(before) < ends.len()
            &&& end.row.game_id == game_id
            &&& end.row.status == GameStatus::Abandoned
            &&& end.row.winner_user_id is None
            &&& end.row.white_score == white_score
            &&& end.row.black_score == black_score
            &&& end.row.finished_at_ms == spec_utc_ms_or_epoch(at_ms)
            &&& end.winner_and_loser is None
        },
    }
}

/// Every event of a batch becomes exactly one row, in the order of the
/// events: there are as many move rows, round rows and match ends as moves,
/// won rounds and match ends among the events, and each event's row carries
/// its fields unchanged (see `event_row_agrees`).
pub proof fn lemma_each_event_becomes_its_row(events: Seq<OutboxEvent>)
    ensures
        plan_of(events).0.len() == moves_in(events),
        plan_of(events).1.len() == rounds_in(events),
        plan_of(events).2.len() == ends_in(events),
        forall|i: int| 0 <= i < events.len() ==> #[trigger] event_row_agrees(events, i),
    decreases events.len(),
{
    if events.len() > 0 {
        let before = events.drop_last();
        lemma_each_event_becomes_its_row(before);
        let n = events.len() - 1;
        assert(events.drop_last() == before);
        assert forall|i: int| 0 <= i < events.len() implies #[trigger] event_row_agrees(events, i) by {
            if i < n {
                assert(events.take(i) =~= before.take(i));
                assert(events[i] == before[i]);
                assert(event_row_agrees(before, i));
            } else {
                assert(events.take(i) =~= before);
            }
        }
    }
}

/// The events of a batch taken from the outbox, in order, with those that
/// could not be read (`None`) left out.
pub open spec fn spec_readable_events(parsed: Seq<Option<OutboxEvent>>) -> Seq<OutboxEvent>
    decreases parsed.len(),
{
    if parsed.len() == 0 {
        Seq::empty()
    } else {
        let before = spec_readable_events(parsed.drop_last());
        match parsed.last() {
            Some(event) => before.push(event),
            None => before,
        }
    }
}

/// Keeps the events of a batch that could be read, in order.
pub fn readable_events(parsed: &[Option<OutboxEvent>]) -> (events: Vec<OutboxEvent>)
    ensures
        events@ == spec_readable_events(parsed@),
{
    let mut events: Vec<OutboxEvent> = Vec::new();
    let mut i: usize = 0;
    while i < parsed.len()
        invariant
            i <= parsed@.len(),
            events@ == spec_readable_events(parsed@.subrange(0, i as int)),
        decreases parsed.len() - i,
    {
        proof {
            assert(parsed@.subrange(0, i + 1).drop_last() =~= parsed@.subrange(0, i as int));
            assert(parsed@.subrange(0, i + 1).last() == parsed@[i as int]);
        }
        match parsed[i] {
            Some(event) => events.push(event),
            None => {},
        }
        i = i + 1;
    }
    assert(parsed@.subrange(0, i as int) =~= parsed@);
    events
}

/// Groups a batch of events into the rows to insert and the matches to close.
pub fn plan_batch(events: &[OutboxEvent]) -> (plan: BatchPlan)
    ensures
        (plan.moves@, plan.rounds@, plan.match_ends@) == plan_of(events@),
{
    let mut moves: Vec<NewMoveRow> = Vec::new();
    let mut rounds: Vec<NewRoundRow> = Vec::new();
    let mut match_ends: Vec<PlannedMatchEnd> = Vec::new();
    let mut i: usize = 0;
    while i < events.len()
        invariant
            i <= events@.len(),
            (moves@, rounds@, match_ends@) == plan_of(events@.subrange(0, i as int)),
        decreases events.len() - i,
    {
        proof {
            assert(events@.subrange(0, i + 1).drop_last() =~= events@.subrange(0, i as int));
            assert(events@.subrange(0, i + 1).last() == events@[i as int]);
        }
        match events[i] {
            OutboxEvent::Move {
                game_id,
                round_no,
                sequence_no,
                player,
                origin_point,
                die,
                is_ai,
                at_ms,
            } => {
                moves.push(
                    NewMoveRow {
                        game_id,
                        round_no,
                        sequence_no,
                        player: white_or_black(player),
                        origin_point,
                        die,
                        is_ai,
                        created_at_ms: utc_ms_or_epoch(at_ms),
                    },
                );
            },
            OutboxEvent::RoundWon {
                game_id,
                round_no,
                winner_user_id,
                white_score,
                black_score,
                at_ms,
            } => {
                rounds.push(
                    NewRoundRow {
                        game_id,
                        round_no,
                        winner_user_id,
                        white_score,
                        black_score,
                        created_at_ms: utc_ms_or_epoch(at_ms),
                    },
                );
            },
            OutboxEvent::MatchFinished {
                game_id,
                winner_user_id,
                loser_user_id,
                white_score,
                black_score,
                at_ms,
                ranked,
            } => {
                match_ends.push(
                    PlannedMatchEnd {
                        row: MatchEndRow {
                            game_id,
                            status: GameStatus::Finished,
                            winner_user_id: Some(winner_user_id),
                            white_score,
                            black_score,
                            finished_at_ms: utc_ms_or_epoch(at_ms),
                        },
                        winner_and_loser: if ranked {
                            Some((winner_user_id, loser_user_id))
                        } else {
                            None
                        },
                    },
                );
            },
            OutboxEvent::MatchAbandoned { game_id, white_score, black_score, at_ms } => {
                match_ends.push(
                    PlannedMatchEnd {
                        row: MatchEndRow {
                            game_id,
                            status: GameStatus::Abandoned,
                            winner_user_id: None,
                            white_score,
                            black_score,
                            finished_at_ms: utc_ms_or_epoch(at_ms),
                        },
                        winner_and_loser: None,
                    },
                );
            },
        }
        i = i + 1;
    }
    assert(events@.subrange(0, i as int) =~= events@);
    BatchPlan { moves, rounds, match_ends }
}

/// The winner and loser of the `i`-th match end, if that end was applied and
/// counts towards wins and losses.
pub open spec fn counted(ends: Seq<PlannedMatchEnd>, applied: Seq<bool>, i: int) -> Option<(u64, u64)> {
    if 0 <= i < ends.len() && i < applied.len() && applied[i] {
        ends[i].winner_and_loser
    } else {
        None
    }
}

/// The wins `user` gains from the first `k` match ends.
pub open spec fn wins_of(ends: Seq<PlannedMatchEnd>, applied: Seq<bool>, k: int, user: u64) -> nat
    decreases k,
{
    if k <= 0 {
        0
    } else {
        wins_of(ends, applied, k - 1, user) + match counted(ends, applied, k - 1) {
            Some((winner, _)) => if winner == user { 1nat } else { 0nat },
            None => 0nat,
        }
    }
}

/// The losses `user` gains from the first `k` match ends.
pub open spec fn losses_of(ends: Seq<PlannedMatchEnd>, applied: Seq<bool>, k: int, user: u64) -> nat
    decreases k,
{
    if k <= 0 {
        0
    } else {
        losses_of(ends, applied, k - 1, user) + match counted(ends, applied, k - 1) {
            Some((_, loser)) => if loser == user { 1nat } else { 0nat },
            None => 0nat,
        }
    }
}

proof fn lemma_counts_bounded(ends: Seq<PlannedMatchEnd>, applied: Seq<bool>, k: int, user: u64)
    requires
        k >= 0,
    ensures
        wins_of(ends, applied, k, user) <= k,
        losses_of(ends, applied, k, user) <= k,
    decreases k,
{
    if k > 0 {
        lemma_counts_bounded(ends, applied, k - 1, user);
    }
}

/// `user`'s counts in `deltas` with one more win (or loss).
pub open spec fn bumped(deltas: Map<u64, ScoreDelta>, user: u64, win: bool) -> ScoreDelta {
    let current = if deltas.contains_key(user) {
        deltas[user]
    } else {
        ScoreDelta { wins: 0, losses: 0 }
    };
    if win {
        ScoreDelta { wins: (current.wins + 1) as u32, ..current }
    } else {
        ScoreDelta { losses: (current.losses + 1) as u32, ..current }
    }
}

fn bump(deltas: &mut HashMap<u64, ScoreDelta>, user: u64, win: bool, limit: u32)
    requires
        old(deltas)@.contains_key(user) ==> (if win {
            old(deltas)@[user].wins
        } else {
            old(deltas)@[user].losses
        }) < limit,
    ensures
        final(deltas)@ == old(deltas)@.insert(user, bumped(old(deltas)@, user, win)),
{
    let current = match deltas.get(&user) {
        Some(delta) => *delta,
        None => ScoreDelta { wins: 0, losses: 0 },
    };
    let updated = if win {
        ScoreDelta { wins: current.wins + 1, ..current }
    } else {
        ScoreDelta { losses: current.losses + 1, ..current }
    };
    deltas.insert(user, updated);
}

/// Each ranked end that was applied gives its winner one win and its loser
/// one loss, and nobody else anything; an end that is unranked or was not
/// applied changes no count.
pub proof fn lemma_each_counted_end_scores_once(
    ends: Seq<PlannedMatchEnd>,
    applied: Seq<bool>,
    k: int,
    user: u64,
)
    requires
        0 <= k < ends.len(),
        k < applied.len(),
    ensures
        applied[k] && ends[k].winner_and_loser is Some ==> {
            let (winner, loser) = ends[k].winner_and_loser->0;
            &&& wins_of(ends, applied, k + 1, user) == wins_of(ends, applied, k, user) + (if user
                == winner { 1int } else { 0int })
            &&& losses_of(ends, applied, k + 1, user) == losses_of(ends, applied, k, user) + (if user
                == loser { 1int } else { 0int })
        },
        !applied[k] || ends[k].winner_and_loser is None ==> {
            &&& wins_of(ends, applied, k + 1, user) == wins_of(ends, applied, k, user)
            &&& losses_of(ends, applied, k + 1, user) == losses_of(ends, applied, k, user)
        },
{
}

/// The change of wins and losses per user for a batch of match ends, given
/// which of them were actually applied (a match already closed is not
/// applied again). Only ranked, applied ends count; a user appears exactly
/// when their counts change.
pub fn score_deltas(match_ends: &[PlannedMatchEnd], applied: &[bool]) -> (deltas: HashMap<u64, ScoreDelta>)
    requires
        match_ends@.len() < u32::MAX,
    ensures
        forall|user: u64|
            #![trigger deltas@.contains_key(user)]
            {
                let n = match_ends@.len() as int;
                let wins = wins_of(match_ends@, applied@, n, user);
                let losses = losses_of(match_ends@, applied@, n, user);
                &&& deltas@.contains_key(user) <==> (wins > 0 || losses > 0)
                &&& deltas@.contains_key(user) ==> deltas@[user].wins == wins
                    && deltas@[user].losses == losses
            },
{
    let mut deltas: HashMap<u64, ScoreDelta> = HashMap::new();
    let n = match_ends.len();
    let mut i: usize = 0;
    while i < n
        invariant
            n == match_ends@.len(),
            n < u32::MAX,
            i <= n,
            forall|user: u64|
                #![trigger deltas@.contains_key(user)]
                {
                    let wins = wins_of(match_ends@, applied@, i as int, user);
                    let losses = losses_of(match_ends@, applied@, i as int, user);
                    &&& deltas@.contains_key(user) <==> (wins > 0 || losses > 0)
                    &&& deltas@.contains_key(user) ==> deltas@[user].wins == wins
                        && deltas@[user].losses == losses
                },
        decreases n - i,
    {
        let ghost before = deltas@;
        let ghost k = i as int;
        if i < applied.len() && applied[i] {
            if let Some((winner, loser)) = match_ends[i].winner_and_loser {
                proof {
                    lemma_counts_bounded(match_ends@, applied@, k, winner);
                    lemma_counts_bounded(match_ends@, applied@, k, loser);
                }
                bump(&mut deltas, winner, true, n as u32);
                proof {
                    lemma_counts_bounded(match_ends@, applied@, k + 1, loser);
                    assert(deltas@.contains_key(loser) ==> deltas@[loser].losses
                        == losses_of(match_ends@, applied@, k, loser));
                }
                bump(&mut deltas, loser, false, n as u32);
            }
        }
        i = i + 1;
        proof {
            assert forall|user: u64| #![trigger deltas@.contains_key(user)] {
                let wins = wins_of(match_ends@, applied@, i as int, user);
                let losses = losses_of(match_ends@, applied@, i as int, user);
                &&& deltas@.contains_key(user) <==> (wins > 0 || losses > 0)
                &&& deltas@.contains_key(user) ==> deltas@[user].wins == wins
                    && deltas@[user].losses == losses
            } by {
                assert(before.contains_key(user) <==> (wins_of(match_ends@, applied@, k, user) > 0
                    || losses_of(match_ends@, applied@, k, user) > 0));
            }
        }
    }
    deltas
}

/// Every counted match end gives exactly one win and one loss: over any
/// prefix of a batch, the wins handed out equal the losses handed out.
pub open spec fn total_counted(ends: Seq<PlannedMatchEnd>, applied: Seq<bool>, k: int) -> nat
    decreases k,
{
    if k <= 0 {
        0
    } else {
        total_counted(ends, applied, k - 1) + if counted(ends, applied, k - 1) is Some {
            1nat
        } else {
            0nat
        }
    }
}

/// A match end that was not applied (it was already closed) or is not ranked
/// (the computer played in it) changes nobody's wins or losses: removing its
/// ranking from the batch gives the same counts for every user.
pub proof fn lemma_unranked_or_unapplied_ends_change_nothing(
    ends: Seq<PlannedMatchEnd>,
    applied: Seq<bool>,
    j: int,
    k: int,
    user: u64,
)
    requires
        0 <= j < ends.len(),
        !(j < applied.len() && applied[j]) || ends[j].winner_and_loser is None,
    ensures
        wins_of(ends, applied, k, user) == wins_of(
            ends.update(j, PlannedMatchEnd { winner_and_loser: None, ..ends[j] }),
            applied,
            k,
            user,
        ),
        losses_of(ends, applied, k, user) == losses_of(
            ends.update(j, PlannedMatchEnd { winner_and_loser: None, ..ends[j] }),
            applied,
            k,
            user,
        ),
    decreases k,
{
    if k > 0 {
        lemma_unranked_or_unapplied_ends_change_nothing(ends, applied, j, k - 1, user);
    }
}

} // verus!
