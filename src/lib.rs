//! A voting ledger program: derived record addresses, the instruction
//! codec and builders, the record schema and the state-transition engine.
pub mod address;
pub mod error;
pub mod instruction;
pub mod processor;
pub mod state;
