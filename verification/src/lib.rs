//! Deterministic adjudication core for a multiplayer trick/claim card game.
//!
//! The crate models the persisted match state machine, the append-only move
//! ledger, replay protection, and the per-game validation and action
//! application that together decide every state transition.  All state lives
//! in plain values; the hosting runtime is expected to load the state, hand
//! it to the entry points here together with the caller identity and the
//! current time, and persist whatever comes back.

pub mod bytes;
pub mod card_validation;
pub mod claim_actions;
pub mod claim_validation;
pub mod create_match;
pub mod dispatcher;
pub mod errors;
pub mod floor_card;
pub mod game_config;
pub mod game_registry;
pub mod game_rules;
pub mod hand_management;
pub mod join_match;
pub mod laws;
pub mod match_state;
pub mod move_state;
pub mod replay_protection;
pub mod start_match;
pub mod submit_batch_moves;
pub mod submit_move;
pub mod suit_declarations;
pub mod validation_base;
