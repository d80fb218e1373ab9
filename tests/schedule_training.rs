use chess_dqn::evaluator::GameOutcome;
use chess_dqn::pieces::Side;
use chess_dqn::schedule::{exploration_point, SchedulePoint};
use chess_dqn::replay_buffer::BufferElement;
use chess_dqn::training::{explores, new_game, prepare_batch, read_position, record_accepted, record_rejected, TrainingState};

fn epsilon(step: u32, start: f64, end: f64, total: u32) -> f64 {
    match exploration_point(step, total) {
        SchedulePoint::Between { step, total } => start + (end - start) * (step as f64 / total as f64),
        SchedulePoint::End => end,
    }
}

#[test]
fn epsilon_midpoint() {
    assert!((epsilon(5000, 1.0, 0.01, 10000) - 0.505).abs() < 1e-12);
    assert_eq!(exploration_point(5000, 10000), SchedulePoint::Between { step: 5000, total: 10000 });
}

#[test]
fn epsilon_ends() {
    assert_eq!(epsilon(0, 1.0, 0.01, 10000), 1.0);
    assert_eq!(epsilon(10000, 1.0, 0.01, 10000), 0.01);
    assert_eq!(epsilon(10001, 1.0, 0.01, 10000), 0.01);
    assert_eq!(epsilon(u32::MAX, 1.0, 0.01, 10000), 0.01);
    assert_eq!(exploration_point(12000, 10000), SchedulePoint::End);
    let mut last = epsilon(0, 1.0, 0.01, 100);
    for step in 1..120 {
        let e = epsilon(step, 1.0, 0.01, 100);
        assert!(e <= last);
        last = e;
    }
}

#[test]
fn accepted_move_reward_is_for_the_mover() {
    let mut state = new_game(41);
    let (t, actions) = record_accepted(&mut state, "a".to_string(), 5, Side::Black, 250, "b".to_string(), None);
    assert_eq!(t.reward, -250);
    assert_eq!(t.action, 5);
    assert_eq!(t.actual_state, "a");
    assert_eq!(t.next_state, "b");
    assert!(!t.done);
    assert_eq!(state, TrainingState { forced_random: false, game_plies: 1, total: 42 });
    assert!(!actions.learn && !actions.sync);
    let (t, _) = record_accepted(&mut state, "b".to_string(), 0, Side::White, 10000, "c".to_string(), Some(GameOutcome::WhiteCheckmates));
    assert_eq!(t.reward, 10000);
    assert!(t.done);
}

#[test]
fn rejected_move_is_penalised_and_forces_random() {
    let mut state = new_game(9999);
    let (t, actions) = record_rejected(&mut state, "p".to_string(), 127);
    assert_eq!(t.reward, -10000);
    assert_eq!(t.next_state, "p");
    assert!(t.done);
    assert!(state.forced_random);
    assert_eq!(state.total, 10000);
    assert!(actions.sync);
    assert!(explores(&state, false));
    let (t, _) = record_rejected(&mut state, "q".to_string(), 3);
    assert_eq!(t.reward, -10000);
    let _ = record_accepted(&mut state, "q".to_string(), 1, Side::Black, 0, "r".to_string(), None);
    assert!(!explores(&state, false));
    assert!(explores(&state, true));
}

#[test]
fn learning_starts_after_warmup() {
    let mut state = new_game(34999);
    let (_, a) = record_rejected(&mut state, "x".to_string(), 0);
    assert!(!a.learn);
    for _ in 0..9 {
        let (_, a) = record_rejected(&mut state, "x".to_string(), 0);
        assert!(!a.learn);
    }
    let (_, a) = record_rejected(&mut state, "x".to_string(), 0);
    assert_eq!(state.total, 35010);
    assert!(a.learn);
}

#[test]
fn batch_encodes_stored_positions() {
    let start = "rnbqkbnr/pppppppp/8/8/8/8/PPPPPPPP/RNBQKBNR w KQkq - 0 1".to_string();
    let after = "rnbqkbnr/pppppppp/8/8/8/5N2/PPPPPPPP/RNBQKB1R b KQkq - 1 1".to_string();
    let samples = vec![
        BufferElement { actual_state: start.clone(), action: 7, reward: -30, next_state: after.clone(), done: false },
        BufferElement { actual_state: after.clone(), action: 2, reward: 10000, next_state: after.clone(), done: true },
    ];
    let batch = prepare_batch(&samples).ok().unwrap();
    assert_eq!(batch.rewards, vec![-30, 10000]);
    assert_eq!(batch.dones, vec![false, true]);
    assert_eq!(batch.actions, vec![7, 2]);
    assert_eq!(batch.actual_states[0][4], 6);
    assert_eq!(batch.next_states[0][21], 2);
    assert_eq!(batch.next_states[0][6], 0);
    assert_eq!(batch.next_states[0][64], -1);

    let broken = vec![
        samples[0].clone(),
        BufferElement { actual_state: "not a position".to_string(), action: 0, reward: 0, next_state: start, done: true },
    ];
    assert_eq!(prepare_batch(&broken).err(), Some(1));
}

#[test]
fn stored_positions_read_back() {
    let start = "rnbqkbnr/pppppppp/8/8/8/8/PPPPPPPP/RNBQKBNR w KQkq - 0 1".to_string();
    assert_eq!(read_position(&start), Some(chess::Board::default()));
    assert_eq!(read_position(&"not a position".to_string()), None);
    // no king for the side to move
    assert_eq!(read_position(&"4k3/8/8/8/8/8/8/8 w - - 0 1".to_string()), None);
    // two white kings: read, but not sane
    assert_eq!(read_position(&"4k3/8/8/8/8/8/8/K6K w - - 0 1".to_string()), None);
    let kingless = vec![BufferElement {
        actual_state: start.clone(),
        action: 0,
        reward: 0,
        next_state: "4k3/8/8/8/8/8/8/8 w - - 0 1".to_string(),
        done: true,
    }];
    assert_eq!(prepare_batch(&kingless).err(), Some(0));
}
