//! Monitors collators on the Polkadot and Kusama system chains and keeps them
//! registered as candidates.
//!
//! The library decides; connecting, submitting and sending are left to the
//! program around it. It reads addresses (`account`, `base58`) and what the chains
//! store (`bytes`, `value`, `decode`, `lookup`, `records`), says what to ask for and
//! what to submit (`chain_client`, `calls`, `blocks`), weighs bonds and decides what
//! to do (`bonds`, `monitor`), follows the blocks and the connections of each chain
//! (`block_tracker`), times the rounds (`watch`), and words what the operator is
//! told (`messages`, `slack`, `report`). Moments are nanoseconds of a monotonic
//! clock.
pub mod account;
pub mod base58;
pub mod block_tracker;
pub mod blocks;
pub mod bonds;
pub mod bytes;
pub mod calls;
pub mod chain_client;
pub mod config;
pub mod decode;
pub mod error;
pub mod lookup;
pub mod messages;
pub mod monitor;
pub mod records;
pub mod report;
pub mod seed;
pub mod slack;
pub mod text;
pub mod value;
pub mod watch;
