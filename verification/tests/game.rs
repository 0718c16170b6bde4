use std::time::Duration;
use tavla_api::service::game::ai_player::{next_ai_action, AiAction};
use tavla_api::service::game::db_writer::{
    flush_again, stale_cutoff_ms, stale_match_event, SavedMatch, FLUSH_BATCH_LIMIT, FLUSH_INTERVAL_MS,
};
use tavla_api::service::game::expired_turn::{decide_expired_turn, ExpiredTurn};
use tavla_api::service::game::live_state::{deadline_from_unix_ms, deadline_to_unix_ms, REHYDRATED_TURN_GRACE_MS};
use tavla_api::service::game::live_store::state_key;
use tavla_api::service::game::matches::{history_result, history_side, opponent_of, HistoryResult};
use tavla_api::service::game::matchmaking_queue::{
    decide, matched_key, QueueAction, WaitingEntry, MATCH_PICKUP_WINDOW_MS, WAITING_STALE_AFTER_MS, WAIT_TIMEOUT_MS,
};
use tavla_api::service::game::outbox::{plan_batch, readable_events, score_deltas, GameMovePlayer, GameStatus, OutboxEvent, ScoreDelta};
use tavla_api::service::game::player::Player;
use tavla_api::service::game::session::{
    first_player_for, random_first_player, ActionError, ActionResult, GameSession, Move, MoveOutcome, Origin, RoundOutcome, TurnRoll,
    MATCH_TARGET_SCORE,
};
use tavla_api::service::game::ws_protocol::OriginDto;
use tavla_api::service::game::sessions::{hold_until, roll_hold_remaining, Presence};

#[test]
fn the_flush_interval_is_half_a_second() {
    assert_eq!(Duration::from_millis(FLUSH_INTERVAL_MS), Duration::from_millis(500));
}

#[test]
fn a_full_batch_is_followed_at_once_by_another_flush() {
    assert!(flush_again(FLUSH_BATCH_LIMIT));
    assert!(!flush_again(FLUSH_BATCH_LIMIT - 1));
}

const NOW_MS: i64 = 1_790_000_000_000;

#[test]
fn a_deadline_round_trips_through_unix_time() {
    let now: u64 = 1_000;
    let deadline: u64 = now + 45_000;
    let at_ms = deadline_to_unix_ms(deadline, now, NOW_MS);
    assert_eq!(at_ms, NOW_MS + 45_000);
    assert_eq!(deadline_from_unix_ms(at_ms, now, NOW_MS), deadline);
}

#[test]
fn a_deadline_that_already_passed_is_saved_as_now() {
    let now: u64 = 10_000;
    let overdue: u64 = now - 5_000;
    assert_eq!(deadline_to_unix_ms(overdue, now, NOW_MS), NOW_MS);
}

#[test]
fn a_restored_deadline_never_gives_less_than_the_grace_period() {
    let now: u64 = 1_000;
    let grace: u64 = REHYDRATED_TURN_GRACE_MS;
    assert_eq!(deadline_from_unix_ms(NOW_MS + 3_000, now, NOW_MS), now + grace);
    assert_eq!(deadline_from_unix_ms(NOW_MS - 60_000, now, NOW_MS), now + grace);
    assert_eq!(deadline_from_unix_ms(NOW_MS + 50_000, now, NOW_MS), now + 50_000);
}

#[test]
fn a_restored_deadline_saturates_at_the_end_of_the_monotonic_clock() {
    assert_eq!(deadline_from_unix_ms(NOW_MS + 50_000, u64::MAX - 10, NOW_MS), u64::MAX);
}

#[test]
fn a_deadline_far_beyond_the_unix_range_is_saved_as_the_last_millisecond() {
    assert_eq!(deadline_to_unix_ms(u64::MAX, 0, NOW_MS), i64::MAX);
}

#[test]
fn the_state_key_is_scoped_per_game() {
    assert_eq!(state_key(42), "game:42:state");
    assert_ne!(state_key(1), state_key(11));
}

const USER: u64 = 1;
const OTHER: u64 = 2;
const GAME: u64 = 77;

fn entry(user_id: u64, joined_ago_ms: i64, seen_ago_ms: i64) -> WaitingEntry {
    WaitingEntry { user_id, joined_at_ms: NOW_MS - joined_ago_ms, last_seen_ms: NOW_MS - seen_ago_ms }
}

#[test]
fn a_lone_user_starts_waiting() {
    assert_eq!(
        decide(NOW_MS, USER, None, None),
        QueueAction::StartWaiting(WaitingEntry { user_id: USER, joined_at_ms: NOW_MS, last_seen_ms: NOW_MS })
    );
}

#[test]
fn the_next_user_is_paired_with_the_waiting_one() {
    let waiting = entry(OTHER, 3_000, 1_000);
    assert_eq!(decide(NOW_MS, USER, None, Some(waiting)), QueueAction::PairWith(OTHER));
}

#[test]
fn polling_keeps_the_waiting_user_alive_without_resetting_when_they_joined() {
    let waiting = entry(USER, 20_000, 1_500);
    let QueueAction::KeepWaiting(kept) = decide(NOW_MS, USER, None, Some(waiting)) else {
        panic!("the wait must go on");
    };
    assert_eq!(kept.joined_at_ms, waiting.joined_at_ms);
    assert_eq!(kept.last_seen_ms, NOW_MS);
}

#[test]
fn after_the_wait_timeout_the_search_ends_with_no_opponent() {
    let waiting = entry(USER, WAIT_TIMEOUT_MS + 1_000, 1_500);
    assert_eq!(decide(NOW_MS, USER, None, Some(waiting)), QueueAction::TimeOut);
}

#[test]
fn the_wait_lasts_the_full_timeout() {
    let waiting = entry(USER, WAIT_TIMEOUT_MS, 1_500);
    assert!(matches!(decide(NOW_MS, USER, None, Some(waiting)), QueueAction::KeepWaiting(_)));
}

#[test]
fn a_user_who_left_and_came_back_later_starts_a_fresh_search_instead_of_timing_out() {
    let old_attempt = entry(USER, 300_000, 290_000);
    assert_eq!(
        decide(NOW_MS, USER, None, Some(old_attempt)),
        QueueAction::StartWaiting(WaitingEntry { user_id: USER, joined_at_ms: NOW_MS, last_seen_ms: NOW_MS })
    );
}

#[test]
fn a_waiting_user_who_stopped_polling_is_replaced_by_the_next_user() {
    let ghost = entry(OTHER, 30_000, WAITING_STALE_AFTER_MS + 1_000);
    assert_eq!(
        decide(NOW_MS, USER, None, Some(ghost)),
        QueueAction::StartWaiting(WaitingEntry { user_id: USER, joined_at_ms: NOW_MS, last_seen_ms: NOW_MS })
    );
}

#[test]
fn a_match_made_while_waiting_is_handed_out_before_anything_else() {
    let waiting = entry(OTHER, 3_000, 1_000);
    assert_eq!(decide(NOW_MS, USER, Some(GAME), Some(waiting)), QueueAction::HandOutMatch(GAME));
}

#[test]
fn the_pickup_window_is_as_long_as_the_ghost_timeout() {
    assert_eq!(MATCH_PICKUP_WINDOW_MS, WAITING_STALE_AFTER_MS);
    assert_eq!(Duration::from_millis(WAIT_TIMEOUT_MS as u64), Duration::from_secs(60));
}

#[test]
fn the_queue_keys_are_scoped_per_user() {
    assert_eq!(matched_key(5), "mm:matched:5");
    assert_ne!(matched_key(1), matched_key(11));
}

const CURRENT: Player = Player::White;

#[test]
fn an_idle_player_in_a_full_game_gets_their_turn_played_instead_of_losing() {
    assert_eq!(decide_expired_turn(CURRENT, true, true, false), ExpiredTurn::AutoPlay);
}

#[test]
fn an_idle_player_facing_the_computer_gets_their_turn_played_too() {
    assert_eq!(decide_expired_turn(CURRENT, true, false, true), ExpiredTurn::AutoPlay);
}

#[test]
fn an_idle_player_whose_opponent_dropped_is_asked_about_the_computer() {
    assert_eq!(
        decide_expired_turn(CURRENT, true, false, false),
        ExpiredTurn::AskToContinueWithAi { present: Player::White, absent: Player::Black }
    );
}

#[test]
fn a_dropped_player_whose_time_ran_out_makes_the_connected_opponent_the_one_who_is_asked() {
    assert_eq!(
        decide_expired_turn(CURRENT, false, true, false),
        ExpiredTurn::AskToContinueWithAi { present: Player::Black, absent: Player::White }
    );
}

#[test]
fn when_no_human_is_connected_nobody_is_asked() {
    assert_eq!(decide_expired_turn(CURRENT, false, false, false), ExpiredTurn::NobodyPresent);
    assert_eq!(decide_expired_turn(CURRENT, false, false, true), ExpiredTurn::NobodyPresent);
}

#[test]
fn the_question_always_goes_to_the_connected_side() {
    for (current, current_connected, opponent_connected) in [
        (Player::White, true, false),
        (Player::Black, true, false),
        (Player::White, false, true),
        (Player::Black, false, true),
    ] {
        let ExpiredTurn::AskToContinueWithAi { present, absent } =
            decide_expired_turn(current, current_connected, opponent_connected, false)
        else {
            panic!("a question was expected");
        };
        assert_eq!(present, if current_connected { current } else { current.opponent() });
        assert_eq!(absent, present.opponent());
    }
}

type Board = u32;

const START: Board = 0;
const AFTER_ONE: Board = 1;
const WON: Board = 99;

fn roll(die1: u8, die2: u8, required_moves: usize) -> TurnRoll {
    let dice = if die1 == die2 { vec![die1; 4] } else { vec![die1, die2] };
    TurnRoll { die1, die2, dice, required_moves, opponent_closed_out: false }
}

fn win_the_round_as_white(session: &mut GameSession<Board>) -> ActionResult {
    let ActionResult::Rolled { die1, .. } = session.roll_dice(Player::White, roll(3, 5, 2)) else {
        panic!("the dice must be rolled");
    };
    session.make_move(Player::White, Origin::Point(1), die1, Some(MoveOutcome { board_after: WON, winner: Some(Player::White) }))
}

fn win_and_finish_the_round(session: &mut GameSession<Board>, mars: bool) -> RoundOutcome {
    let ActionResult::RoundWon { winner, .. } = win_the_round_as_white(session) else {
        panic!("the round must be won");
    };
    session.finish_round(winner, 0, mars)
}

#[test]
fn the_winning_move_ends_the_round_and_blocks_every_further_action() {
    let mut session = GameSession::new(1, 2, Player::White, START);
    let result = win_the_round_as_white(&mut session);
    assert!(matches!(result, ActionResult::RoundWon { winner: Player::White, .. }));
    assert!(!session.is_playing());
    let refused = ActionResult::Refused(ActionError::RoundNotActive);
    assert_eq!(session.roll_dice(Player::White, roll(1, 2, 1)), refused);
    assert_eq!(session.undo(Player::White), refused);
    assert_eq!(session.confirm_turn(Player::White, false), refused);
    assert_eq!(session.make_move(Player::White, Origin::Point(1), 1, None), refused);
    assert_eq!(ActionError::RoundNotActive.key(), "round_not_active");
}

#[test]
fn finishing_a_round_gives_the_winner_a_point_and_schedules_the_next_round() {
    let mut session = GameSession::new(1, 2, Player::White, START);
    win_the_round_as_white(&mut session);
    let outcome = session.finish_round(Player::White, 12_345, false);
    assert_eq!(outcome, RoundOutcome::MatchContinues);
    assert_eq!((session.white_score, session.black_score), (1, 0));
    assert_eq!(session.last_round_winner, Some(Player::White));
    assert_eq!(session.next_round_at_ms(), Some(12_345));
}

#[test]
fn the_next_round_starts_fresh_and_the_previous_winner_moves_first() {
    let mut session = GameSession::new(1, 2, Player::White, START);
    win_the_round_as_white(&mut session);
    let moves_played = session.next_sequence_no;
    session.finish_round(Player::Black, 1, false);
    session.start_next_round(START);
    assert!(session.is_playing());
    assert_eq!(session.board, START);
    assert_eq!(session.current_player, Player::Black);
    assert_eq!(session.round_no, 2);
    assert!(session.remaining_dice.is_empty() && session.move_history.is_empty());
    assert_eq!(session.required_moves, 0);
    assert_eq!(session.next_sequence_no, moves_played);
    assert_eq!(session.next_round_at_ms(), None);
}

#[test]
fn a_mars_is_worth_two_points() {
    let mut session = GameSession::new(1, 2, Player::White, START);
    win_and_finish_the_round(&mut session, true);
    assert_eq!((session.white_score, session.black_score), (2, 0));
}

#[test]
fn the_round_remembers_whether_it_was_a_mars_until_the_next_round_starts() {
    let mut mars = GameSession::new(1, 2, Player::White, START);
    win_and_finish_the_round(&mut mars, true);
    assert!(mars.last_round_mars);
    mars.start_next_round(START);
    assert!(!mars.last_round_mars);

    let mut plain = GameSession::new(1, 2, Player::White, START);
    win_and_finish_the_round(&mut plain, false);
    assert!(!plain.last_round_mars);
}

#[test]
fn a_mars_from_two_points_leaves_the_match_going_and_from_three_points_ends_it() {
    let mut from_two = GameSession::new(1, 2, Player::White, START);
    from_two.white_score = 2;
    assert_eq!(win_and_finish_the_round(&mut from_two, true), RoundOutcome::MatchContinues);
    assert_eq!(from_two.white_score, 4);

    let mut from_three = GameSession::new(1, 2, Player::White, START);
    from_three.white_score = 3;
    assert_eq!(win_and_finish_the_round(&mut from_three, true), RoundOutcome::MatchWon(Player::White));
    assert_eq!(from_three.white_score, 5);
}

#[test]
fn the_first_side_to_reach_the_target_wins_the_match() {
    let mut session = GameSession::new(1, 2, Player::White, START);
    for _ in 1..MATCH_TARGET_SCORE {
        assert_eq!(session.finish_round(Player::White, 0, false), RoundOutcome::MatchContinues);
        session.start_next_round(START);
    }
    assert_eq!(session.finish_round(Player::White, 0, false), RoundOutcome::MatchWon(Player::White));
}

#[test]
fn a_move_can_be_taken_back_and_the_turn_confirmed() {
    let mut session = GameSession::new(1, 2, Player::White, START);
    assert_eq!(session.make_move(Player::White, Origin::Bar, 3, None), ActionResult::Refused(ActionError::NoDiceRolled));
    session.roll_dice(Player::White, roll(3, 5, 2));
    assert_eq!(session.roll_dice(Player::Black, roll(1, 2, 1)), ActionResult::Refused(ActionError::NotYourTurn));
    let applied = session.make_move(Player::White, Origin::Bar, 3, Some(MoveOutcome { board_after: AFTER_ONE, winner: None }));
    assert_eq!(applied, ActionResult::MoveApplied { die: 3, origin_point: None, sequence_no: 0, round_no: 1 });
    assert_eq!(session.remaining_dice, vec![5]);
    assert_eq!(session.undo(Player::White), ActionResult::Accepted);
    assert_eq!(session.board, START);
    assert_eq!(session.remaining_dice, vec![3, 5]);
    assert_eq!(session.make_move(Player::White, Origin::Point(6), 5, None), ActionResult::Refused(ActionError::IllegalMove));
}

#[test]
fn roll_without_any_legal_move_reports_it_and_passes_the_turn() {
    let mut session = GameSession::new(1, 2, Player::White, START);
    let result = session.roll_dice(Player::White, roll(6, 6, 0));
    assert_eq!(result, ActionResult::Rolled { die1: 6, die2: 6, no_legal_moves: true, closed_out: None });
    assert_eq!(session.current_player, Player::Black);
    assert!(session.remaining_dice.is_empty());
}

#[test]
fn the_computer_rolls_moves_and_confirms_on_its_turn() {
    let mut session = GameSession::new(1, 2, Player::Black, START);
    let planned = Move { origin: Origin::Point(8), die: 3 };
    assert_eq!(next_ai_action(&session, Player::White, Some(planned)), AiAction::Wait);
    assert_eq!(next_ai_action(&session, Player::Black, None), AiAction::Roll);
    session.roll_dice(Player::Black, roll(3, 4, 1));
    assert_eq!(next_ai_action(&session, Player::Black, Some(planned)), AiAction::Move(planned));
    session.make_move(Player::Black, Origin::Point(8), 3, Some(MoveOutcome { board_after: AFTER_ONE, winner: None }));
    assert_eq!(next_ai_action(&session, Player::Black, None), AiAction::Confirm);
}

#[test]
fn the_wire_form_of_an_origin() {
    assert_eq!(OriginDto::from(Origin::Bar), OriginDto::Bar);
    assert_eq!(Origin::from(OriginDto::Point { point: 4 }), Origin::Point(4));
}

fn move_event(sequence_no: u32, player: Player) -> OutboxEvent {
    OutboxEvent::Move { game_id: 7, round_no: 2, sequence_no, player, origin_point: Some(6), die: 3, is_ai: false, at_ms: NOW_MS }
}

#[test]
fn moves_are_grouped_in_order_with_the_white_black_mapping() {
    let plan = plan_batch(&[move_event(0, Player::White), move_event(1, Player::Black)]);
    assert_eq!(plan.moves.len(), 2);
    assert_eq!((plan.moves[0].sequence_no, &plan.moves[0].player), (0, &GameMovePlayer::White));
    assert_eq!((plan.moves[1].sequence_no, &plan.moves[1].player), (1, &GameMovePlayer::Black));
    assert_eq!(plan.moves[0].round_no, 2);
    assert_eq!(plan.moves[0].created_at_ms, NOW_MS);
    assert!(plan.rounds.is_empty() && plan.match_ends.is_empty());
}

#[test]
fn a_finished_match_becomes_a_finished_row_with_a_winner_and_final_scores() {
    let plan = plan_batch(&[OutboxEvent::MatchFinished {
        game_id: 7,
        winner_user_id: 11,
        loser_user_id: 12,
        white_score: 5,
        black_score: 3,
        at_ms: NOW_MS,
        ranked: true,
    }]);
    let end = &plan.match_ends[0];
    assert_eq!(end.row.status, GameStatus::Finished);
    assert_eq!(end.row.winner_user_id, Some(11));
    assert_eq!((end.row.white_score, end.row.black_score), (5, 3));
    assert_eq!(end.winner_and_loser, Some((11, 12)));
}

#[test]
fn an_abandoned_match_has_no_winner_and_no_score_change() {
    let plan = plan_batch(&[OutboxEvent::MatchAbandoned { game_id: 8, white_score: 2, black_score: 1, at_ms: NOW_MS }]);
    assert_eq!(plan.match_ends[0].row.status, GameStatus::Abandoned);
    assert_eq!(plan.match_ends[0].row.winner_user_id, None);
    assert!(score_deltas(&plan.match_ends, &[true]).is_empty());
}

#[test]
fn score_deltas_add_up_per_user_and_skip_matches_that_were_already_closed() {
    let finished = |game_id, winner_user_id, loser_user_id| OutboxEvent::MatchFinished {
        game_id,
        winner_user_id,
        loser_user_id,
        white_score: 5,
        black_score: 0,
        at_ms: NOW_MS,
        ranked: true,
    };
    let plan = plan_batch(&[finished(1, 10, 20), finished(2, 10, 30), finished(3, 40, 10)]);
    let deltas = score_deltas(&plan.match_ends, &[true, true, false]);
    assert_eq!(deltas.get(&10), Some(&ScoreDelta { wins: 2, losses: 0 }));
    assert_eq!(deltas.get(&20), Some(&ScoreDelta { wins: 0, losses: 1 }));
    assert_eq!(deltas.get(&30), Some(&ScoreDelta { wins: 0, losses: 1 }));
    assert_eq!(deltas.get(&40), None);
}

#[test]
fn a_match_the_computer_played_is_closed_without_touching_wins_and_losses() {
    let plan = plan_batch(&[OutboxEvent::MatchFinished {
        game_id: 7,
        winner_user_id: 11,
        loser_user_id: 12,
        white_score: 5,
        black_score: 2,
        at_ms: NOW_MS,
        ranked: false,
    }]);
    assert_eq!(plan.match_ends[0].row.status, GameStatus::Finished);
    assert_eq!(plan.match_ends[0].row.winner_user_id, Some(11));
    assert!(score_deltas(&plan.match_ends, &[true]).is_empty());
}

#[test]
fn a_forgotten_match_is_abandoned_with_its_saved_score() {
    let cutoff = stale_cutoff_ms(NOW_MS);
    assert_eq!(cutoff, NOW_MS - 600_000);
    assert_eq!(stale_match_event(9, true, None, cutoff, NOW_MS), None);
    let recent = SavedMatch { saved_at_ms: cutoff + 1, white_score: 1, black_score: 2 };
    assert_eq!(stale_match_event(9, false, Some(recent), cutoff, NOW_MS), None);
    let old = SavedMatch { saved_at_ms: cutoff, white_score: 1, black_score: 2 };
    assert_eq!(
        stale_match_event(9, false, Some(old), cutoff, NOW_MS),
        Some(OutboxEvent::MatchAbandoned { game_id: 9, white_score: 1, black_score: 2, at_ms: NOW_MS })
    );
    assert_eq!(
        stale_match_event(9, false, None, cutoff, NOW_MS),
        Some(OutboxEvent::MatchAbandoned { game_id: 9, white_score: 0, black_score: 0, at_ms: NOW_MS })
    );
}

#[test]
fn history_reports_the_result_from_the_users_side() {
    assert_eq!(history_result(GameStatus::Finished, Some(5), 5), HistoryResult::Win);
    assert_eq!(history_result(GameStatus::Finished, Some(6), 5), HistoryResult::Loss);
    assert_eq!(history_result(GameStatus::Abandoned, None, 5), HistoryResult::Abandoned);
    assert_eq!(history_result(GameStatus::Active, None, 5), HistoryResult::Ongoing);
    assert_eq!(HistoryResult::Win.key(), "win");
    assert_eq!(opponent_of(1, 2, 1), 2);
    assert_eq!(opponent_of(1, 2, 2), 1);
}

#[test]
fn a_win_after_the_opponent_bore_off_a_checker_is_worth_one_point() {
    let mut session = GameSession::new(1, 2, Player::White, START);
    win_and_finish_the_round(&mut session, false);
    assert_eq!((session.white_score, session.black_score), (1, 0));
}

#[test]
fn a_mars_can_carry_the_score_past_the_target_and_still_ends_the_match() {
    let mut session = GameSession::new(1, 2, Player::White, START);
    session.white_score = MATCH_TARGET_SCORE - 1;
    let outcome = win_and_finish_the_round(&mut session, true);
    assert_eq!(outcome, RoundOutcome::MatchWon(Player::White));
    assert_eq!(session.white_score, MATCH_TARGET_SCORE + 1);
}

#[test]
fn the_first_round_is_opened_by_either_side_at_random() {
    let mut seen = [false; 2];
    for _ in 0..200 {
        match random_first_player() {
            Player::White => seen[0] = true,
            Player::Black => seen[1] = true,
        }
    }
    assert!(seen.iter().all(|side| *side));
}

#[test]
fn handing_a_side_to_the_ai_rewinds_its_half_played_turn() {
    let mut session = GameSession::new(1, 2, Player::Black, START);
    let ActionResult::Rolled { .. } = session.roll_dice(Player::Black, roll(2, 5, 2)) else {
        panic!("the dice must be rolled");
    };
    let after_roll = (session.board, session.remaining_dice.clone());
    let moved = session.make_move(Player::Black, Origin::Point(12), 2, Some(MoveOutcome { board_after: AFTER_ONE, winner: None }));
    assert!(matches!(moved, ActionResult::MoveApplied { .. }));

    session.hand_side_to_ai(Player::Black);

    assert_eq!(session.ai_side, Some(Player::Black));
    assert!(session.ai_used);
    assert!(session.move_history.is_empty());
    assert_eq!((session.board, session.remaining_dice.clone()), after_roll);
}

#[test]
fn handing_the_other_sides_seat_to_the_ai_leaves_the_current_turn_alone() {
    let mut session = GameSession::new(1, 2, Player::White, START);
    session.roll_dice(Player::White, roll(4, 1, 2));
    session.make_move(Player::White, Origin::Point(1), 4, Some(MoveOutcome { board_after: AFTER_ONE, winner: None }));
    let (board, dice) = (session.board, session.remaining_dice.clone());

    session.hand_side_to_ai(Player::Black);

    assert_eq!(session.board, board);
    assert_eq!(session.remaining_dice, dice);
    assert_eq!(session.move_history.len(), 1);
    assert_eq!(session.ai_side, Some(Player::Black));
}

#[test]
fn a_normal_confirm_hands_the_turn_to_the_opponent() {
    let mut session = GameSession::new(1, 2, Player::White, START);
    let result = session.confirm_turn(Player::White, false);
    assert!(matches!(result, ActionResult::TurnPassed { closed_out: None }));
    assert_eq!(session.current_player, Player::Black);
}

#[test]
fn a_closed_out_opponent_does_not_get_to_roll_and_the_turn_comes_straight_back() {
    let mut session = GameSession::new(1, 2, Player::Black, START);
    let result = session.confirm_turn(Player::Black, true);
    assert!(matches!(result, ActionResult::TurnPassed { closed_out: Some(Player::White) }));
    assert_eq!(session.current_player, Player::Black);
    assert!(session.remaining_dice.is_empty() && session.move_history.is_empty());
    assert_eq!(session.required_moves, 0);
    assert_eq!(session.roll_dice(Player::White, roll(1, 2, 1)), ActionResult::Refused(ActionError::NotYourTurn));
    assert!(matches!(session.roll_dice(Player::Black, roll(1, 2, 1)), ActionResult::Rolled { .. }));
}

#[test]
fn a_turn_cannot_be_confirmed_while_moves_remain() {
    let mut session = GameSession::new(1, 2, Player::White, START);
    session.roll_dice(Player::White, roll(3, 5, 2));
    assert_eq!(session.confirm_turn(Player::White, false), ActionResult::Refused(ActionError::MovesRemaining));
    assert_eq!(session.undo(Player::White), ActionResult::Refused(ActionError::NothingToUndo));
}

#[test]
fn the_last_roll_is_remembered_until_the_next_game_starts() {
    let mut session = GameSession::new(1, 2, Player::White, START);
    assert_eq!(session.last_roll, None);
    let ActionResult::Rolled { die1, die2, .. } = session.roll_dice(Player::White, roll(6, 3, 2)) else {
        panic!("the dice must be rolled");
    };
    assert_eq!(session.last_roll, Some([die1, die2]));
    session.finish_round(Player::White, 0, false);
    session.start_next_round(START);
    assert_eq!(session.last_roll, None);
}

#[test]
fn roll_with_legal_moves_never_reports_no_legal_moves() {
    let mut session = GameSession::new(1, 2, Player::White, START);
    let ActionResult::Rolled { no_legal_moves, .. } = session.roll_dice(Player::White, roll(2, 2, 4)) else {
        panic!("the dice must be rolled");
    };
    assert!(!no_legal_moves);
    assert_eq!(session.required_moves, 4);
    assert_eq!(session.remaining_dice, vec![2, 2, 2, 2]);
    assert_eq!(session.current_player, Player::White);
}

#[test]
fn it_waits_when_it_is_not_its_turn() {
    let session = GameSession::new(1, 2, Player::White, START);
    assert_eq!(next_ai_action(&session, Player::Black, None), AiAction::Wait);
}

#[test]
fn a_fresh_turn_starts_with_a_roll() {
    let session = GameSession::new(1, 2, Player::Black, START);
    assert_eq!(next_ai_action(&session, Player::Black, None), AiAction::Roll);
}

#[test]
fn it_does_nothing_while_the_round_is_over() {
    let mut session = GameSession::new(1, 2, Player::Black, START);
    session.finish_round(Player::Black, 1, false);
    assert_eq!(next_ai_action(&session, Player::Black, None), AiAction::Wait);
}

#[test]
fn a_half_played_turn_that_does_not_match_the_plan_is_undone() {
    let mut session = GameSession::new(1, 2, Player::Black, START);
    session.roll_dice(Player::Black, roll(3, 4, 2));
    session.make_move(Player::Black, Origin::Point(1), 3, Some(MoveOutcome { board_after: AFTER_ONE, winner: None }));
    assert_eq!(next_ai_action(&session, Player::Black, None), AiAction::Undo);
    assert_eq!(session.undo(Player::Black), ActionResult::Accepted);
    let planned = Move { origin: Origin::Point(6), die: 4 };
    assert_eq!(next_ai_action(&session, Player::Black, Some(planned)), AiAction::Move(planned));
}

#[test]
fn a_history_entry_names_the_users_side_and_opponent() {
    assert_eq!(history_side(3, 4, 3), ("white", 4));
    assert_eq!(history_side(3, 4, 4), ("black", 3));
}


#[test]
fn disconnection_time_is_tracked_per_side() {
    let mut presence = Presence::new(100);
    assert_eq!(presence.disconnected_for(Player::White, 150), Some(50));
    presence.connect(Player::White);
    assert!(presence.is_connected(Player::White));
    assert!(!presence.is_connected(Player::Black));
    assert_eq!(presence.disconnected_for(Player::White, 200), None);
    assert_eq!(presence.disconnected_for(Player::Black, 200), Some(100));
    presence.disconnect(Player::White, 300);
    assert_eq!(presence.disconnected_for(Player::White, 250), Some(0));
    assert_eq!(presence.disconnected_for(Player::White, 1_300), Some(1_000));
}

#[test]
fn a_roll_hold_counts_down_and_then_releases() {
    assert_eq!(roll_hold_remaining(None, 10), None);
    let not_before = hold_until(1_000, 500);
    assert_eq!(not_before, 1_500);
    assert_eq!(roll_hold_remaining(Some(not_before), 1_200), Some(300));
    assert_eq!(roll_hold_remaining(Some(not_before), 1_500), None);
    assert_eq!(hold_until(u64::MAX - 1, 10), u64::MAX);
}

#[test]
fn an_event_time_outside_the_dates_of_the_database_is_written_as_the_epoch() {
    let event = OutboxEvent::MatchAbandoned { game_id: 8, white_score: 2, black_score: 1, at_ms: i64::MAX };
    let plan = plan_batch(&[event, move_event(0, Player::White)]);
    assert_eq!(plan.match_ends[0].row.finished_at_ms, 0);
    assert_eq!(plan.moves[0].created_at_ms, NOW_MS);
}

#[test]
fn unreadable_events_are_left_out_of_a_batch_in_order() {
    let parsed = vec![Some(move_event(0, Player::White)), None, Some(move_event(1, Player::Black)), None];
    let events = readable_events(&parsed);
    assert_eq!(events, vec![move_event(0, Player::White), move_event(1, Player::Black)]);
    assert!(readable_events(&[None, None]).is_empty());
}

#[test]
fn heads_gives_white_the_first_turn_and_tails_black() {
    assert_eq!(first_player_for(true), Player::White);
    assert_eq!(first_player_for(false), Player::Black);
}
