//! The market record and the two operations that own it alone: creation and
//! one-shot finalization. The current ledger time is host input and is passed
//! in as `now`; every other check is against values already held in the
//! entities involved.

use vstd::prelude::*;
use vstd::utf8::encode_utf8;
use crate::addr::{Addr, addr_eq, program_owner, program_owner_bytes};
use crate::errors::EithrError;

verus! {

/// Fee on winning claims, in basis points (hundredths of a percent).
pub const TREASURY_FEE_BPS: u16 = 500;

/// The flat floor of the per-user ticket cap.
pub const USER_ABSOLUTE_TICKET_CAP: u64 = 100;

/// One prediction question with two mutually exclusive outcomes and a fixed
/// betting window.
#[derive(Debug)]
#[verifier::ext_equal]
pub struct MarketData {
    pub title: String,
    pub description: String,
    pub side_a: String,
    pub side_b: String,
    pub category: String,
    pub ticket_price: u64,
    pub duration: u64,
    pub creation_time: u64,
    pub encryptor: String,
    pub treasury_address: Addr,
    pub creator: Addr,
    pub authority: Addr,
    pub total_tickets: u64,
    pub total_amount: u64,
    pub is_finalized: bool,
    pub is_revealed: bool,
    pub winning_side: u8,
    pub total_tickets_side_a: u64,
    pub total_tickets_side_b: u64,
    pub total_amount_side_a: u64,
    pub total_amount_side_b: u64,
}

impl MarketData {
    pub const MAX_TITLE_LEN: usize = 64;

    pub const MAX_DESC_LEN: usize = 512;

    pub const MAX_CATEGORY_LEN: usize = 32;

    pub const MAX_SIDE_LEN: usize = 32;

    pub const MAX_ENCRYPTOR_LEN: usize = 64;

    /// Worst-case on-ledger allocation: the host requires a fixed size
    /// declared at creation time, so the layout reserves every string bound
    /// in full (4 bytes of length prefix each) behind an 8-byte record tag.
    pub const LEN: usize = 8 + 4 + Self::MAX_TITLE_LEN + 4 + Self::MAX_DESC_LEN + 4
        + Self::MAX_SIDE_LEN + 4 + Self::MAX_SIDE_LEN + 8 + 4 + Self::MAX_CATEGORY_LEN + 8 + 8
        + 4 + Self::MAX_ENCRYPTOR_LEN + 32 + 32 + 32 + 8 + 8 + 1 + 1 + 1 + 8 + 8 + 8 + 8;
}

/// The UTF-8 byte length of a string value; every string bound of the record
/// layout is a byte bound, not a character bound.
pub open spec fn byte_len(s: Seq<char>) -> nat {
    encode_utf8(s).len()
}

/// The moment the betting window closes, as an unbounded integer: the sum may
/// exceed the machine's range, which purchase and finalization treat as an
/// overflow error.
pub open spec fn market_end_time(m: MarketData) -> int {
    m.creation_time + m.duration
}

/// The record's internal invariant: bounds on the immutable fields, and the
/// lifecycle rule that the per-side totals, the winning side, the encryptor
/// and the revealed flag stay at their defaults until finalization.
pub open spec fn market_wf(m: MarketData) -> bool {
    &&& m.ticket_price > 0
    &&& m.duration > 0
    &&& byte_len(m.title@) <= MarketData::MAX_TITLE_LEN
    &&& byte_len(m.description@) <= MarketData::MAX_DESC_LEN
    &&& byte_len(m.side_a@) <= MarketData::MAX_SIDE_LEN
    &&& byte_len(m.side_b@) <= MarketData::MAX_SIDE_LEN
    &&& byte_len(m.category@) <= MarketData::MAX_CATEGORY_LEN
    &&& byte_len(m.encryptor@) <= MarketData::MAX_ENCRYPTOR_LEN
    &&& m.winning_side <= 2
    &&& !m.is_finalized ==> {
        &&& m.winning_side == 0
        &&& m.total_tickets_side_a == 0
        &&& m.total_tickets_side_b == 0
        &&& m.total_amount_side_a == 0
        &&& m.total_amount_side_b == 0
        &&& m.encryptor@.len() == 0
        &&& !m.is_revealed
    }
}

/// The first validation that market creation fails on, if any, in the checked
/// order.
pub open spec fn init_error(
    title: Seq<char>,
    description: Seq<char>,
    side_a: Seq<char>,
    side_b: Seq<char>,
    ticket_price: u64,
    category: Seq<char>,
    duration: u64,
) -> Option<EithrError> {
    if byte_len(title) > MarketData::MAX_TITLE_LEN {
        Some(EithrError::TitleTooLong)
    } else if byte_len(description) > MarketData::MAX_DESC_LEN {
        Some(EithrError::DescriptionTooLong)
    } else if byte_len(side_a) > MarketData::MAX_SIDE_LEN || byte_len(side_b)
        > MarketData::MAX_SIDE_LEN {
        Some(EithrError::SideTooLong)
    } else if byte_len(category) > MarketData::MAX_CATEGORY_LEN {
        Some(EithrError::CategoryTooLong)
    } else if ticket_price == 0 {
        Some(EithrError::InvalidTicketPrice)
    } else if duration == 0 {
        Some(EithrError::InvalidDuration)
    } else {
        None
    }
}

/// Creates the market record. The authority is always the fixed program
/// owner, not the creator; the treasury reference is the caller-supplied
/// address; all accounting fields start at zero and both lifecycle flags
/// false. No funds move. `now` is the host ledger's current time and `payer`
/// the creating caller.
///
/// The record returned is always fresh: this function never sees an existing
/// record, so storing its result over one would silently reset a live or
/// finalized market. A host that tolerates repeated initialization must
/// therefore refuse to overwrite a record whose market has sold tickets or
/// been finalized, and may treat re-creation before any purchase as a
/// harmless overwrite.
pub fn initialize_market(
    title: String,
    description: String,
    side_a: String,
    side_b: String,
    ticket_price: u64,
    category: String,
    duration: u64,
    now: u64,
    payer: Addr,
    treasury_address: Addr,
) -> (r: Result<MarketData, EithrError>)
    ensures
        (match init_error(title@, description@, side_a@, side_b@, ticket_price, category@,
            duration) {
            Some(e) => r == Err::<MarketData, EithrError>(e),
            None => {
                &&& r matches Ok(m)
                &&& m.title == title
                &&& m.description == description
                &&& m.side_a == side_a
                &&& m.side_b == side_b
                &&& m.category == category
                &&& m.ticket_price == ticket_price
                &&& m.duration == duration
                &&& m.creation_time == now
                &&& m.encryptor@ =~= Seq::<char>::empty()
                &&& m.treasury_address@ == treasury_address@
                &&& m.creator@ == payer@
                &&& m.authority@ == program_owner_bytes()
                &&& m.total_tickets == 0
                &&& m.total_amount == 0
                &&& !m.is_finalized
                &&& !m.is_revealed
                &&& m.winning_side == 0
                &&& m.total_tickets_side_a == 0
                &&& m.total_tickets_side_b == 0
                &&& m.total_amount_side_a == 0
                &&& m.total_amount_side_b == 0
                &&& market_wf(m)
            },
        }),
{
    if title.as_str().as_bytes().len() > MarketData::MAX_TITLE_LEN {
        return Err(EithrError::TitleTooLong);
    }
    if description.as_str().as_bytes().len() > MarketData::MAX_DESC_LEN {
        return Err(EithrError::DescriptionTooLong);
    }
    if side_a.as_str().as_bytes().len() > MarketData::MAX_SIDE_LEN || side_b.as_str().as_bytes().len()
        > MarketData::MAX_SIDE_LEN {
        return Err(EithrError::SideTooLong);
    }
    if category.as_str().as_bytes().len() > MarketData::MAX_CATEGORY_LEN {
        return Err(EithrError::CategoryTooLong);
    }
    if ticket_price == 0 {
        return Err(EithrError::InvalidTicketPrice);
    }
    if duration == 0 {
        return Err(EithrError::InvalidDuration);
    }
    Ok(
        MarketData {
            title,
            description,
            side_a,
            side_b,
            category,
            ticket_price,
            duration,
            creation_time: now,
            encryptor: String::new(),
            treasury_address,
            creator: payer,
            authority: program_owner(),
            total_tickets: 0,
            total_amount: 0,
            is_finalized: false,
            is_revealed: false,
            winning_side: 0,
            total_tickets_side_a: 0,
            total_tickets_side_b: 0,
            total_amount_side_a: 0,
            total_amount_side_b: 0,
        },
    )
}

/// The first check that finalization fails on, if any, in the checked order:
/// authority, one-shot flag, window arithmetic and closing time, winning-side
/// tag, then the two reconciliation cross-checks against the accumulated
/// pool, then the encryptor bound.
pub open spec fn finalize_error(
    m: MarketData,
    caller: Seq<u8>,
    total_tickets_side_a: u64,
    total_tickets_side_b: u64,
    total_amount_side_a: u64,
    total_amount_side_b: u64,
    winning_side: u8,
    encryptor_key: Seq<char>,
    now: u64,
) -> Option<EithrError> {
    if caller != m.authority@ {
        Some(EithrError::Unauthorized)
    } else if m.is_finalized {
        Some(EithrError::MarketFinalized)
    } else if market_end_time(m) > u64::MAX {
        Some(EithrError::Overflow)
    } else if now < market_end_time(m) {
        Some(EithrError::MarketNotEnded)
    } else if !(winning_side == 0 || winning_side == 1 || winning_side == 2) {
        Some(EithrError::InvalidWinningSide)
    } else if total_tickets_side_a + total_tickets_side_b > u64::MAX {
        Some(EithrError::Overflow)
    } else if total_tickets_side_a + total_tickets_side_b != m.total_tickets {
        Some(EithrError::InconsistentTotals)
    } else if total_amount_side_a + total_amount_side_b > u64::MAX {
        Some(EithrError::Overflow)
    } else if total_amount_side_a + total_amount_side_b != m.total_amount {
        Some(EithrError::InconsistentTotals)
    } else if byte_len(encryptor_key) > MarketData::MAX_ENCRYPTOR_LEN {
        Some(EithrError::EncryptorTooLong)
    } else {
        None
    }
}

/// The record after a successful finalization: the reported breakdown and the
/// encryptor written verbatim, both lifecycle flags set, everything else
/// untouched.
pub open spec fn finalized_market(
    m: MarketData,
    total_tickets_side_a: u64,
    total_tickets_side_b: u64,
    total_amount_side_a: u64,
    total_amount_side_b: u64,
    winning_side: u8,
    encryptor_key: String,
) -> MarketData {
    MarketData {
        encryptor: encryptor_key,
        total_tickets_side_a,
        total_tickets_side_b,
        total_amount_side_a,
        total_amount_side_b,
        winning_side,
        is_finalized: true,
        is_revealed: true,
        ..m
    }
}

/// Freezes the market's outcome, one way and exactly once. Authority-only;
/// accepted only after the window has closed and only when the reported
/// per-side breakdown reconciles exactly with the accumulated pool — the sole
/// sanity guard against the authority, whose breakdown is otherwise trusted
/// input. On any error the record is unchanged.
pub fn finalize_market(
    market: &mut MarketData,
    total_tickets_side_a: u64,
    total_tickets_side_b: u64,
    total_amount_side_a: u64,
    total_amount_side_b: u64,
    winning_side: u8,
    encryptor_key: String,
    now: u64,
    caller: Addr,
) -> (r: Result<(), EithrError>)
    ensures
        (match finalize_error(*old(market), caller@, total_tickets_side_a, total_tickets_side_b,
            total_amount_side_a, total_amount_side_b, winning_side, encryptor_key@, now) {
            Some(e) => r == Err::<(), EithrError>(e) && *final(market) == *old(market),
            None => r == Ok::<(), EithrError>(()) && *final(market) == (finalized_market(
                *old(market),
                total_tickets_side_a,
                total_tickets_side_b,
                total_amount_side_a,
                total_amount_side_b,
                winning_side,
                encryptor_key,
            )),
        }),
        market_wf(*old(market)) && r is Ok ==> market_wf(*final(market)),
{
    if !addr_eq(&caller, &market.authority) {
        return Err(EithrError::Unauthorized);
    }
    if market.is_finalized {
        return Err(EithrError::MarketFinalized);
    }
    let end_time = match market.creation_time.checked_add(market.duration) {
        Some(t) => t,
        None => {
            return Err(EithrError::Overflow);
        },
    };
    if now < end_time {
        return Err(EithrError::MarketNotEnded);
    }
    if !(winning_side == 0 || winning_side == 1 || winning_side == 2) {
        return Err(EithrError::InvalidWinningSide);
    }
    let sum_tickets = match total_tickets_side_a.checked_add(total_tickets_side_b) {
        Some(s) => s,
        None => {
            return Err(EithrError::Overflow);
        },
    };
    if sum_tickets != market.total_tickets {
        return Err(EithrError::InconsistentTotals);
    }
    let sum_amounts = match total_amount_side_a.checked_add(total_amount_side_b) {
        Some(s) => s,
        None => {
            return Err(EithrError::Overflow);
        },
    };
    if sum_amounts != market.total_amount {
        return Err(EithrError::InconsistentTotals);
    }
    if encryptor_key.as_str().as_bytes().len() > MarketData::MAX_ENCRYPTOR_LEN {
        return Err(EithrError::EncryptorTooLong);
    }
    market.encryptor = encryptor_key;
    market.total_tickets_side_a = total_tickets_side_a;
    market.total_tickets_side_b = total_tickets_side_b;
    market.total_amount_side_a = total_amount_side_a;
    market.total_amount_side_b = total_amount_side_b;
    market.winning_side = winning_side;
    market.is_finalized = true;
    market.is_revealed = true;
    Ok(())
}

} // verus!
