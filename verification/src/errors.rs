//! The error taxonomy. Every operation returns success or exactly one of
//! these kinds; the first violated precondition aborts the whole operation
//! with that kind, and the caller treats every error as operation-not-applied.

use vstd::prelude::*;

verus! {

/// One error kind per named failure of the four operations.
#[derive(Clone, Copy, Debug, PartialEq, Eq, Structural)]
pub enum EithrError {
    /// The caller is not the required authority.
    Unauthorized,
    /// Arithmetic overflow somewhere in the addition/multiplication chain.
    Overflow,
    /// A claim would leave the custody account under its retention floor.
    InsufficientFunds,
    /// The market's betting window has closed.
    MarketClosed,
    /// The encoded ballot exceeds its byte bound.
    EncodedHashTooLong,
    /// A purchase of zero tickets.
    InvalidTicketCount,
    /// The purchase would push the user over the per-user cap.
    UserTicketLimitExceeded,
    /// The user's purchase-record list is full.
    TooManyChoicesForUser,
    /// The market is already finalized.
    MarketFinalized,
    /// The market's window has not ended yet.
    MarketNotEnded,
    /// The winning-side tag is not 0, 1 or 2.
    InvalidWinningSide,
    /// Reported per-side totals do not reconcile with the accumulated pool.
    InconsistentTotals,
    /// The market is not finalized yet.
    MarketNotFinalized,
    /// The user has already claimed.
    AlreadyClaimed,
    /// A claim of zero.
    InvalidClaimAmount,
    /// The named user does not match the stored ticket record.
    UnauthorizedUser,
    /// The supplied custody account does not match its derivation.
    InvalidTreasuryPda,
    /// The named protocol treasury is not the fixed constant.
    InvalidProjectTreasury,
    /// The encryptor exceeds its byte bound.
    EncryptorTooLong,
    /// The title exceeds its byte bound.
    TitleTooLong,
    /// The description exceeds its byte bound.
    DescriptionTooLong,
    /// The category exceeds its byte bound.
    CategoryTooLong,
    /// A side label exceeds its byte bound.
    SideTooLong,
    /// A ticket price of zero.
    InvalidTicketPrice,
    /// A duration of zero.
    InvalidDuration,
}

} // verus!
