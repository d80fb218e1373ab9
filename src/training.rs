//! The decisions of the self-play training loop, one ply at a time: which
//! transition to store, when to explore, when to learn and when to copy the
//! online parameters into the target ones.
use vstd::prelude::*;
use crate::encoder::{board_encoding, encode_board, holds_encoding, ENCODED_LEN};
use crate::engine::{
    board_from_layout, fen_layout, layout_board, layout_has_mover_king, layout_mover, layout_piece,
    layout_side, layout_square, parse_fen,
};
use crate::pieces::PieceKind;
use crate::evaluator::{GameOutcome, MAX_REWARD, SCORE_BOUND};
use crate::pieces::{signed_for, Side};
use crate::replay_buffer::BufferElement;

verus! {

/// Games played in a training run.
pub const NUM_GAMES: u32 = 10000;

/// Capacity of the replay buffer.
pub const BUFFER_CAPACITY: usize = 500000;

/// Transitions stored before the first learning step.
pub const TRAIN_WARMUP: u64 = 35000;

/// A learning step every this many transitions after the warm-up.
pub const TRAIN_EVERY: u64 = 10;

/// Target synchronisation and checkpoint every this many transitions.
pub const SYNC_EVERY: u64 = 10000;

/// Transitions sampled per learning step.
pub const BATCH_SIZE: usize = 16;

/// Loop state that survives from one ply to the next.
#[derive(Clone, Copy, Debug, PartialEq, Eq, Structural)]
pub struct TrainingState {
    /// The previous ply chose an action that was not legal.
    pub forced_random: bool,
    /// Accepted plies in the current game.
    pub game_plies: u32,
    /// Transitions stored since training began.
    pub total: u64,
}

/// What the loop does after storing a ply's transition.
#[derive(Clone, Copy, Debug, PartialEq, Eq, Structural)]
pub struct PlyActions {
    /// Sample a batch and take a learning step.
    pub learn: bool,
    /// Copy the online parameters into the target ones and save a checkpoint.
    pub sync: bool,
}

/// Whether a learning step follows the `total`-th transition.
pub open spec fn learns_at(total: int) -> bool {
    total > TRAIN_WARMUP && total % (TRAIN_EVERY as int) == 0
}

/// Whether a target synchronisation follows the `total`-th transition.
pub open spec fn syncs_at(total: int) -> bool {
    total % (SYNC_EVERY as int) == 0
}

/// The state at the start of a game, keeping the running transition count.
pub fn new_game(total: u64) -> (r: TrainingState)
    ensures
        r == (TrainingState { forced_random: false, game_plies: 0, total }),
{
    TrainingState { forced_random: false, game_plies: 0, total }
}

/// Whether this ply picks a uniformly random legal action: when the random
/// draw fell below epsilon, or the previous action was illegal.
pub fn explores(state: &TrainingState, draw_below_epsilon: bool) -> (r: bool)
    ensures
        r == (draw_below_epsilon || state.forced_random),
{
    draw_below_epsilon || state.forced_random
}

/// The reward of a move for the side that made it: the score of the position
/// reached, negated when Black moved.
pub open spec fn mover_reward(mover: Side, score: int) -> int {
    signed_for(mover, score)
}

fn actions_after(total: u64) -> (r: PlyActions)
    ensures
        r.learn == learns_at(total as int),
        r.sync == syncs_at(total as int),
{
    PlyActions {
        learn: total > TRAIN_WARMUP && total % TRAIN_EVERY == 0,
        sync: total % SYNC_EVERY == 0,
    }
}

/// Records a ply whose action was accepted, reaching a position of score
/// `score` (White-positive, ten-thousandths) and possibly ending the game.
pub fn record_accepted(
    state: &mut TrainingState,
    prior: String,
    action: usize,
    mover: Side,
    score: i64,
    next: String,
    result: Option<GameOutcome>,
) -> (r: (BufferElement, PlyActions))
    requires
        old(state).total < u64::MAX,
        old(state).game_plies < u32::MAX,
        -SCORE_BOUND <= score <= SCORE_BOUND,
    ensures
        r.0.actual_state@ == prior@,
        r.0.action == action,
        r.0.reward == mover_reward(mover, score as int),
        r.0.next_state@ == next@,
        r.0.done == result.is_some(),
        *final(state) == (TrainingState {
            forced_random: false,
            game_plies: (old(state).game_plies + 1) as u32,
            total: (old(state).total + 1) as u64,
        }),
        r.1.learn == learns_at(final(state).total as int),
        r.1.sync == syncs_at(final(state).total as int),
{
    let reward = match mover {
        Side::Black => -score,
        Side::White => score,
    };
    let element = BufferElement {
        actual_state: prior,
        action,
        reward,
        next_state: next,
        done: result.is_some(),
    };
    state.forced_random = false;
    state.game_plies = state.game_plies + 1;
    state.total = state.total + 1;
    (element, actions_after(state.total))
}

/// Records a ply whose action was not legal: a terminal transition back to
/// the same position with the full penalty for the mover, counted from the
/// mover's side as accepted moves are, and a random action at the next ply.
pub fn record_rejected(state: &mut TrainingState, prior: String, action: usize) -> (r: (
    BufferElement,
    PlyActions,
))
    requires
        old(state).total < u64::MAX,
    ensures
        r.0.actual_state@ == prior@,
        r.0.action == action,
        r.0.reward == -MAX_REWARD,
        r.0.next_state@ == prior@,
        r.0.done,
        *final(state) == (TrainingState {
            forced_random: true,
            game_plies: old(state).game_plies,
            total: (old(state).total + 1) as u64,
        }),
        r.1.learn == learns_at(final(state).total as int),
        r.1.sync == syncs_at(final(state).total as int),
{
    let next = prior.clone();
    let element = BufferElement { actual_state: prior, action, reward: -MAX_REWARD, next_state: next, done: true };
    state.forced_random = true;
    state.total = state.total + 1;
    (element, actions_after(state.total))
}

/// The position a stored FEN string describes: its layout, when it reads as
/// one, holds a king of the side to move and is sane.
pub open spec fn parsed_position(s: Seq<char>) -> Option<chess::Board> {
    match fen_layout(s) {
        Some(l) => if layout_has_mover_king(l) {
            layout_board(l)
        } else {
            None
        },
        None => None,
    }
}

/// Whether both positions of a stored transition read back.
pub open spec fn sample_parses(e: BufferElement) -> bool {
    parsed_position(e.actual_state@) is Some && parsed_position(e.next_state@) is Some
}

/// Reads back a stored position.
pub fn read_position(fen: &String) -> (r: Option<chess::Board>)
    ensures
        r == parsed_position(fen@),
{
    let layout = match parse_fen(fen) {
        Some(l) => l,
        None => {
            return None;
        },
    };
    let mover = layout_mover(&layout);
    let mut sq: u8 = 0;
    while sq < 64
        invariant
            sq <= 64,
            mover == layout_side(layout),
            fen_layout(fen@) == Some(layout),
            forall|i: int| 0 <= i < sq ==> layout_square(layout, i) != Some((PieceKind::King, mover)),
        decreases 64 - sq,
    {
        match layout_piece(&layout, sq) {
            Some((PieceKind::King, c)) => {
                if c == mover {
                    assert(layout_square(layout, sq as int) == Some((PieceKind::King, layout_side(layout))));
                    return board_from_layout(&layout);
                }
            },
            _ => {},
        }
        sq += 1;
    }
    None
}

/// The inputs of a learning step, one entry per sampled transition: both
/// positions encoded, and the reward, end flag and action as stored.
pub struct TrainingBatch {
    pub actual_states: Vec<Vec<i32>>,
    pub next_states: Vec<Vec<i32>>,
    pub rewards: Vec<i64>,
    pub dones: Vec<bool>,
    pub actions: Vec<usize>,
}

/// Assembles a learning batch from sampled transitions. It fails, naming the
/// first such sample, when a stored position does not read back.
pub fn prepare_batch(samples: &Vec<BufferElement>) -> (r: Result<TrainingBatch, usize>)
    ensures
        r is Ok <==> forall|k: int| 0 <= k < samples.len() ==> #[trigger] sample_parses(samples[k]),
        r matches Err(k) ==> k < samples.len() && !sample_parses(samples[k as int]) && forall|i: int|
            0 <= i < k ==> #[trigger] sample_parses(samples[i]),
        r matches Ok(b) ==> {
            &&& b.actual_states.len() == samples.len()
            &&& b.next_states.len() == samples.len()
            &&& b.rewards.len() == samples.len()
            &&& b.dones.len() == samples.len()
            &&& b.actions.len() == samples.len()
            &&& forall|k: int|
                0 <= k < samples.len() ==> {
                    &&& #[trigger] b.rewards[k] == samples[k].reward
                    &&& b.dones[k] == samples[k].done
                    &&& b.actions[k] == samples[k].action
                    &&& b.actual_states[k].len() == ENCODED_LEN
                    &&& b.next_states[k].len() == ENCODED_LEN
                    &&& holds_encoding(b.actual_states[k]@, board_encoding(parsed_position(samples[k].actual_state@)->Some_0))
                    &&& holds_encoding(b.next_states[k]@, board_encoding(parsed_position(samples[k].next_state@)->Some_0))
                }
        },
{
    let mut batch = TrainingBatch {
        actual_states: Vec::new(),
        next_states: Vec::new(),
        rewards: Vec::new(),
        dones: Vec::new(),
        actions: Vec::new(),
    };
    let mut k: usize = 0;
    while k < samples.len()
        invariant
            k <= samples.len(),
            batch.actual_states.len() == k,
            batch.next_states.len() == k,
            batch.rewards.len() == k,
            batch.dones.len() == k,
            batch.actions.len() == k,
            forall|i: int| 0 <= i < k ==> #[trigger] sample_parses(samples[i]),
            forall|i: int| 0 <= i < k ==> #[trigger] batch.rewards[i] == samples[i].reward,
            forall|i: int| 0 <= i < k ==> #[trigger] batch.dones[i] == samples[i].done,
            forall|i: int| 0 <= i < k ==> #[trigger] batch.actions[i] == samples[i].action,
            forall|i: int|
                0 <= i < k ==> (#[trigger] batch.actual_states[i]).len() == ENCODED_LEN && holds_encoding(
                    batch.actual_states[i]@,
                    board_encoding(parsed_position(samples[i].actual_state@)->Some_0),
                ),
            forall|i: int|
                0 <= i < k ==> (#[trigger] batch.next_states[i]).len() == ENCODED_LEN && holds_encoding(
                    batch.next_states[i]@,
                    board_encoding(parsed_position(samples[i].next_state@)->Some_0),
                ),
        decreases samples.len() - k,
    {
        let sample = &samples[k];
        let actual = match read_position(&sample.actual_state) {
            Some(b) => b,
            None => {
                assert(!sample_parses(samples[k as int]));
                return Err(k);
            },
        };
        let next = match read_position(&sample.next_state) {
            Some(b) => b,
            None => {
                assert(!sample_parses(samples[k as int]));
                return Err(k);
            },
        };
        let actual_code = encode_board(&actual);
        let next_code = encode_board(&next);
        assert(holds_encoding(actual_code@, board_encoding(parsed_position(samples[k as int].actual_state@)->Some_0)));
        assert(holds_encoding(next_code@, board_encoding(parsed_position(samples[k as int].next_state@)->Some_0)));
        assert(sample_parses(samples[k as int]));
        batch.actual_states.push(actual_code);
        batch.next_states.push(next_code);
        batch.rewards.push(sample.reward);
        batch.dones.push(sample.done);
        batch.actions.push(sample.action);
        k += 1;
    }
    Ok(batch)
}

} // verus!
