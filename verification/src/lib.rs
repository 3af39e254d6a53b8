//! Escrow-free settlement of cyclic multi-party barters.
//!
//! A trade loop is a ring of steps in which every participant gives one or
//! more unique assets and receives others. The modules of this crate hold the
//! instruction codec, the trade-loop record with its state machine, the
//! configuration gate and the account-level processor that ties them together.

pub mod address;
pub mod error;
pub mod state;
pub mod lifecycle;
pub mod utils;
pub mod instruction;
pub mod processor;
pub mod laws;
