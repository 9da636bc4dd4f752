//! Settlement state machine of a peer-to-peer delivery marketplace.
//!
//! Senders register packages whose price is held in escrow, carriers with
//! enough reputation accept them, and on completion the escrowed price is
//! split between the carrier and the platform. Every operation either
//! applies all of its effects or, with an error, none.
pub mod records;
pub mod settlement;
pub mod ledger;
pub mod laws;
