//! Pooled-fund share accounting.
//!
//! Depositors place a fungible asset into a common treasury and receive
//! shares; an operator may deploy a bounded fraction of the treasury
//! externally and return it with profit or loss; the protocol charges a
//! performance fee per user against that user's own high-water mark.
//!
//! The engine itself is pure: every operation takes the current treasury
//! balance and clock reading as plain inputs, mutates the durable records
//! (`ProtocolConfig`, `UserPosition`) only on success, and reports through
//! its result which asset transfer the surrounding system must carry out.
//! Moving the asset, persisting the records and verifying caller signatures
//! are the callers' concern.

pub mod capital;
pub mod errors;
pub mod events;
pub mod fees;
pub mod flows;
pub mod laws;
pub mod state;
pub mod valuation;
