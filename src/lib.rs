//! Instruction coordination between cleaning robots and a central authority.
//!
//! Robots poll with their believed instruction and battery level; the
//! authority answers with the command they should execute next, reading and
//! writing a per-robot command ledger.

pub mod error;
pub mod command;
pub mod ledger;
pub mod poll;
pub mod encoding;
