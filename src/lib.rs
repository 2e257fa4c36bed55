//! Delegated sub-account authorization: deterministic record addresses,
//! the coordinating program's instruction handling, and the address
//! record program's update rule.

pub mod address_program;
pub mod coordinator;
pub mod error;
pub mod layout;
pub mod pda;
