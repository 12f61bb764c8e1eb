//! Per-user ticket records and the purchase operation. A purchase validates
//! the market window and the dynamic per-user cap, and on success reports the
//! price to move from the buyer to custody; the host performs that transfer
//! atomically with the mutations, so either everything applies or nothing
//! does.

use vstd::prelude::*;
use crate::addr::Addr;
use crate::errors::EithrError;
use crate::market::{MarketData, byte_len, market_end_time, market_wf, USER_ABSOLUTE_TICKET_CAP};

verus! {

/// One accepted purchase: the opaque encoded ballot (never decoded by this
/// system), the ticket count bought, and the purchase time.
#[derive(Debug)]
#[verifier::ext_equal]
pub struct UserChoiceEntry {
    pub encoded_side_hash: String,
    pub ticket_count: u64,
    pub creation_time: u64,
}

impl UserChoiceEntry {
    pub const MAX_ENCODED_HASH_LEN: usize = 256;

    /// Worst-case on-ledger bytes of one entry: length-prefixed ballot plus
    /// the two integers.
    pub const LEN: usize = 4 + Self::MAX_ENCODED_HASH_LEN + 8 + 8;
}

/// The cumulative ticket record of one (market, user) pair, created on the
/// user's first purchase and never deleted.
#[derive(Debug)]
#[verifier::ext_equal]
pub struct UserTickets {
    pub market: Addr,
    pub user: Addr,
    pub total_tickets: u64,
    pub total_amount: u64,
    pub choices: Vec<UserChoiceEntry>,
    pub has_claimed: bool,
}

impl UserTickets {
    pub const MAX_CHOICES: usize = 32;

    /// Worst-case on-ledger allocation, with every purchase slot reserved.
    pub const LEN: usize = 8 + 32 + 32 + 8 + 8 + 1 + 4 + Self::MAX_CHOICES
        * UserChoiceEntry::LEN;

    /// An empty record for a user's first purchase in a market: all totals
    /// zero, no purchase history, nothing claimed.
    pub fn new(market: Addr, user: Addr) -> (r: UserTickets)
        ensures
            r.market@ == market@,
            r.user@ == user@,
            r.total_tickets == 0,
            r.total_amount == 0,
            r.choices@ =~= Seq::<UserChoiceEntry>::empty(),
            !r.has_claimed,
            user_tickets_wf(r),
    {
        UserTickets {
            market,
            user,
            total_tickets: 0,
            total_amount: 0,
            choices: Vec::new(),
            has_claimed: false,
        }
    }
}

/// The sum of the ticket counts over a purchase history.
pub open spec fn sum_ticket_counts(choices: Seq<UserChoiceEntry>) -> int
    decreases choices.len(),
{
    if choices.len() == 0 {
        0
    } else {
        sum_ticket_counts(choices.drop_last()) + choices.last().ticket_count
    }
}

/// The record's internal invariant: the cumulative total is exactly the sum
/// of the accepted purchases, the history is bounded, and every entry holds a
/// positive count and a ballot within its byte bound.
pub open spec fn user_tickets_wf(u: UserTickets) -> bool {
    &&& u.choices@.len() <= UserTickets::MAX_CHOICES
    &&& u.total_tickets == sum_ticket_counts(u.choices@)
    &&& forall|i: int|
        0 <= i < u.choices@.len() ==> (#[trigger] u.choices@[i]).ticket_count > 0
    &&& forall|i: int|
        0 <= i < u.choices@.len() ==> byte_len(
            (#[trigger] u.choices@[i]).encoded_side_hash@,
        ) <= UserChoiceEntry::MAX_ENCODED_HASH_LEN
}

/// The per-user ceiling after a purchase that brings the market's pool to
/// `new_market_total`: the larger of the flat 100-ticket floor and a quarter
/// of the pool, so early buyers are capped at 100 until the pool itself grows
/// past 400 tickets.
pub open spec fn effective_user_cap(new_market_total: int) -> int {
    let dynamic_limit = new_market_total / 4;
    if dynamic_limit < USER_ABSOLUTE_TICKET_CAP {
        USER_ABSOLUTE_TICKET_CAP as int
    } else {
        dynamic_limit
    }
}

/// The first check that a purchase fails on, if any, in the checked order:
/// window arithmetic and closing time, the one-shot flag, the count and
/// ballot bounds, the overflow checks of the pricing and accounting chain,
/// the per-user cap, and last the purchase-history bound.
pub open spec fn buy_error(
    m: MarketData,
    u: UserTickets,
    encoded_side_hash: Seq<char>,
    count_of_tickets: u64,
    now: u64,
) -> Option<EithrError> {
    if market_end_time(m) > u64::MAX {
        Some(EithrError::Overflow)
    } else if now > market_end_time(m) {
        Some(EithrError::MarketClosed)
    } else if m.is_finalized {
        Some(EithrError::MarketFinalized)
    } else if count_of_tickets == 0 {
        Some(EithrError::InvalidTicketCount)
    } else if byte_len(encoded_side_hash) > UserChoiceEntry::MAX_ENCODED_HASH_LEN {
        Some(EithrError::EncodedHashTooLong)
    } else if m.ticket_price * count_of_tickets > u64::MAX {
        Some(EithrError::Overflow)
    } else if m.total_tickets + count_of_tickets > u64::MAX {
        Some(EithrError::Overflow)
    } else if u.total_tickets + count_of_tickets > u64::MAX {
        Some(EithrError::Overflow)
    } else if u.total_tickets + count_of_tickets > effective_user_cap(
        m.total_tickets + count_of_tickets,
    ) {
        Some(EithrError::UserTicketLimitExceeded)
    } else if m.total_amount + m.ticket_price * count_of_tickets > u64::MAX {
        Some(EithrError::Overflow)
    } else if u.total_amount + m.ticket_price * count_of_tickets > u64::MAX {
        Some(EithrError::Overflow)
    } else if u.choices@.len() >= UserTickets::MAX_CHOICES {
        Some(EithrError::TooManyChoicesForUser)
    } else {
        None
    }
}

/// The market record after an accepted purchase: both pool totals grown by
/// the purchase, everything else untouched.
pub open spec fn bought_market(m: MarketData, count_of_tickets: u64) -> MarketData {
    MarketData {
        total_tickets: (m.total_tickets + count_of_tickets) as u64,
        total_amount: (m.total_amount + m.ticket_price * count_of_tickets) as u64,
        ..m
    }
}

/// Buys `count_of_tickets` tickets in `market` for `payer`, recording them in
/// that user's `user_tickets`. `market_address` is the market record's own
/// ledger address, `now` the host's current time. On success returns the
/// total price, which the host moves from the buyer to the market's custody
/// account atomically with these mutations; on any error both records are
/// unchanged and no funds move.
pub fn buy_tickets(
    market: &mut MarketData,
    user_tickets: &mut UserTickets,
    encoded_side_hash: String,
    count_of_tickets: u64,
    now: u64,
    market_address: Addr,
    payer: Addr,
) -> (r: Result<u64, EithrError>)
    ensures
        (match buy_error(*old(market), *old(user_tickets), encoded_side_hash@, count_of_tickets,
            now) {
            Some(e) => {
                &&& r == Err::<u64, EithrError>(e)
                &&& *final(market) == *old(market)
                &&& *final(user_tickets) == *old(user_tickets)
            },
            None => {
                &&& r == Ok::<u64, EithrError>(
                    (old(market).ticket_price * count_of_tickets) as u64,
                )
                &&& *final(market) == (bought_market(*old(market), count_of_tickets))
                &&& final(user_tickets).market@ == market_address@
                &&& final(user_tickets).user@ == payer@
                &&& final(user_tickets).total_tickets == old(user_tickets).total_tickets
                    + count_of_tickets
                &&& final(user_tickets).total_amount == old(user_tickets).total_amount + old(
                    market,
                ).ticket_price * count_of_tickets
                &&& final(user_tickets).choices@ =~= old(user_tickets).choices@.push(
                    (UserChoiceEntry {
                        encoded_side_hash,
                        ticket_count: count_of_tickets,
                        creation_time: now,
                    }),
                )
                &&& final(user_tickets).has_claimed == old(user_tickets).has_claimed
                &&& final(user_tickets).total_tickets <= effective_user_cap(
                    final(market).total_tickets as int,
                )
            },
        }),
        market_wf(*old(market)) ==> market_wf(*final(market)),
        user_tickets_wf(*old(user_tickets)) ==> user_tickets_wf(*final(user_tickets)),
{
    let end_time = match market.creation_time.checked_add(market.duration) {
        Some(t) => t,
        None => {
            return Err(EithrError::Overflow);
        },
    };
    if now > end_time {
        return Err(EithrError::MarketClosed);
    }
    if market.is_finalized {
        return Err(EithrError::MarketFinalized);
    }
    if count_of_tickets == 0 {
        return Err(EithrError::InvalidTicketCount);
    }
    if encoded_side_hash.as_str().as_bytes().len() > UserChoiceEntry::MAX_ENCODED_HASH_LEN {
        return Err(EithrError::EncodedHashTooLong);
    }
    let total_price = match market.ticket_price.checked_mul(count_of_tickets) {
        Some(p) => p,
        None => {
            return Err(EithrError::Overflow);
        },
    };
    let new_total_market_tickets = match market.total_tickets.checked_add(count_of_tickets) {
        Some(t) => t,
        None => {
            return Err(EithrError::Overflow);
        },
    };
    let new_total_user_tickets = match user_tickets.total_tickets.checked_add(count_of_tickets) {
        Some(t) => t,
        None => {
            return Err(EithrError::Overflow);
        },
    };
    let dynamic_limit = new_total_market_tickets / 4;
    let allowed_max_for_user = if dynamic_limit < USER_ABSOLUTE_TICKET_CAP {
        USER_ABSOLUTE_TICKET_CAP
    } else {
        dynamic_limit
    };
    if new_total_user_tickets > allowed_max_for_user {
        return Err(EithrError::UserTicketLimitExceeded);
    }
    let new_market_amount = match market.total_amount.checked_add(total_price) {
        Some(a) => a,
        None => {
            return Err(EithrError::Overflow);
        },
    };
    let new_user_amount = match user_tickets.total_amount.checked_add(total_price) {
        Some(a) => a,
        None => {
            return Err(EithrError::Overflow);
        },
    };
    if user_tickets.choices.len() >= UserTickets::MAX_CHOICES {
        return Err(EithrError::TooManyChoicesForUser);
    }
    let ghost old_choices = user_tickets.choices@;
    market.total_tickets = new_total_market_tickets;
    market.total_amount = new_market_amount;
    user_tickets.market = market_address;
    user_tickets.user = payer;
    user_tickets.total_tickets = new_total_user_tickets;
    user_tickets.total_amount = new_user_amount;
    user_tickets.choices.push(
        UserChoiceEntry { encoded_side_hash, ticket_count: count_of_tickets, creation_time: now },
    );
    proof {
        assert(user_tickets.choices@.drop_last() =~= old_choices);
    }
    Ok(total_price)
}

} // verus!
