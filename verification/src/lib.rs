//! An escrow-backed binary prediction market.
//!
//! Participants buy tickets on one of two outcomes during a fixed window, a
//! trusted authority later reports the outcome and aggregate totals, and
//! ticket holders withdraw a reward computed from the final outcome, with a
//! protocol fee skimmed on winning claims. The library holds the market
//! lifecycle state machine and its custody and accounting rules; the host
//! ledger (which stores accounts, verifies signatures and moves funds) is an
//! external collaborator driven from outside the library.

pub mod addr;
pub mod claim;
pub mod errors;
pub mod laws;
pub mod market;
pub mod tickets;
