//! Self-play deep Q-learning core for chess: board encoding, the heuristic
//! position evaluator, the exploration schedule, the experience replay buffer
//! and the per-ply decisions of the training loop.
pub mod pieces;
pub mod engine;
pub mod bits;
pub mod evaluator;
pub mod encoder;
pub mod replay_buffer;
pub mod schedule;
pub mod training;
