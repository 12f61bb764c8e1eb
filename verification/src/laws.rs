//! The library's laws: properties that relate the operations to each other,
//! proved once over the same specification functions that the operations'
//! own contracts are stated with.

use vstd::prelude::*;
use crate::claim::{claim_error_before_custody, claim_fee, claim_user_amount,
    lemma_fee_within_claim};
use crate::errors::EithrError;
use crate::market::{MarketData, TREASURY_FEE_BPS, byte_len, finalize_error, finalized_market,
    market_end_time};
use crate::tickets::{UserChoiceEntry, UserTickets, bought_market, buy_error, effective_user_cap,
    sum_ticket_counts};

verus! {

/// One attempted purchase against a market: the buyer's ticket record as it
/// stood, and the purchase inputs.
pub struct PurchaseStep {
    pub user: UserTickets,
    pub encoded_side_hash: String,
    pub count_of_tickets: u64,
    pub now: u64,
}

/// The market record after a run of attempted purchases, applied in order:
/// an accepted purchase grows the pool, a rejected one leaves it untouched.
pub open spec fn run_purchases(m: MarketData, steps: Seq<PurchaseStep>) -> MarketData
    decreases steps.len(),
{
    if steps.len() == 0 {
        m
    } else {
        let prev = run_purchases(m, steps.drop_last());
        let s = steps.last();
        if buy_error(prev, s.user, s.encoded_side_hash@, s.count_of_tickets, s.now) is None {
            bought_market(prev, s.count_of_tickets)
        } else {
            prev
        }
    }
}

/// The sum of the ticket counts of exactly the accepted purchases of a run.
pub open spec fn accepted_ticket_sum(m: MarketData, steps: Seq<PurchaseStep>) -> int
    decreases steps.len(),
{
    if steps.len() == 0 {
        0
    } else {
        let prev = run_purchases(m, steps.drop_last());
        let prev_sum = accepted_ticket_sum(m, steps.drop_last());
        let s = steps.last();
        if buy_error(prev, s.user, s.encoded_side_hash@, s.count_of_tickets, s.now) is None {
            prev_sum + s.count_of_tickets
        } else {
            prev_sum
        }
    }
}

/// After any run of purchases, by any mix of buyers, the market's ticket
/// total has grown by exactly the sum of the accepted ticket counts; rejected
/// purchases contribute nothing.
pub proof fn lemma_market_total_is_sum_of_accepted(m: MarketData, steps: Seq<PurchaseStep>)
    ensures
        run_purchases(m, steps).total_tickets == m.total_tickets + accepted_ticket_sum(m, steps),
    decreases steps.len(),
{
    if steps.len() > 0 {
        lemma_market_total_is_sum_of_accepted(m, steps.drop_last());
    }
}

/// A user's recorded total counts that user's accepted purchases only:
/// recording one more purchase grows the sum of the history by exactly its
/// ticket count, so the equality of total and sum that every ticket record
/// keeps extends over any run of purchases.
pub proof fn lemma_user_total_counts_own_purchases(
    choices: Seq<UserChoiceEntry>,
    entry: UserChoiceEntry,
)
    ensures
        sum_ticket_counts(choices.push(entry)) == sum_ticket_counts(choices)
            + entry.ticket_count,
{
    assert(choices.push(entry).drop_last() =~= choices);
}

/// The per-user cap: an accepted purchase never leaves the buyer holding more
/// tickets than the larger of the flat 100-ticket floor and a quarter of the
/// pool after the purchase; and a purchase that every earlier check accepts
/// but that would breach the cap is rejected as UserTicketLimitExceeded (on
/// which the purchase's contract leaves all state unchanged).
pub proof fn lemma_user_cap_enforced(
    m: MarketData,
    u: UserTickets,
    encoded_side_hash: Seq<char>,
    count_of_tickets: u64,
    now: u64,
)
    ensures
        buy_error(m, u, encoded_side_hash, count_of_tickets, now) is None ==> u.total_tickets
            + count_of_tickets <= effective_user_cap(
            bought_market(m, count_of_tickets).total_tickets as int,
        ),
        ({
            &&& market_end_time(m) <= u64::MAX
            &&& now <= market_end_time(m)
            &&& !m.is_finalized
            &&& count_of_tickets > 0
            &&& byte_len(encoded_side_hash) <= UserChoiceEntry::MAX_ENCODED_HASH_LEN
            &&& m.ticket_price * count_of_tickets <= u64::MAX
            &&& m.total_tickets + count_of_tickets <= u64::MAX
            &&& u.total_tickets + count_of_tickets <= u64::MAX
            &&& u.total_tickets + count_of_tickets > effective_user_cap(
                m.total_tickets + count_of_tickets,
            )
        }) ==> buy_error(m, u, encoded_side_hash, count_of_tickets, now) == Some(
            EithrError::UserTicketLimitExceeded,
        ),
{
}

/// Finalization accepts a breakdown only when it reconciles exactly with the
/// accumulated pool: inconsistent reported totals are always rejected, and an
/// accepted finalization had consistent ones.
pub proof fn lemma_finalize_requires_consistent_totals(
    m: MarketData,
    caller: Seq<u8>,
    total_tickets_side_a: u64,
    total_tickets_side_b: u64,
    total_amount_side_a: u64,
    total_amount_side_b: u64,
    winning_side: u8,
    encryptor_key: Seq<char>,
    now: u64,
)
    ensures
        total_tickets_side_a + total_tickets_side_b != m.total_tickets ==> finalize_error(m,
            caller, total_tickets_side_a, total_tickets_side_b, total_amount_side_a,
            total_amount_side_b, winning_side, encryptor_key, now) is Some,
        total_amount_side_a + total_amount_side_b != m.total_amount ==> finalize_error(m, caller,
            total_tickets_side_a, total_tickets_side_b, total_amount_side_a, total_amount_side_b,
            winning_side, encryptor_key, now) is Some,
        finalize_error(m, caller, total_tickets_side_a, total_tickets_side_b,
            total_amount_side_a, total_amount_side_b, winning_side, encryptor_key, now)
            is None ==> {
            &&& total_tickets_side_a + total_tickets_side_b == m.total_tickets
            &&& total_amount_side_a + total_amount_side_b == m.total_amount
        },
{
}

/// Finalization is rejected while the market's window is still open. The
/// bound on the close time is a machine limit: a market whose close time
/// overflows the range is rejected too, but as an overflow error rather than
/// as not-yet-ended.
pub proof fn lemma_finalize_rejected_before_close(
    m: MarketData,
    caller: Seq<u8>,
    total_tickets_side_a: u64,
    total_tickets_side_b: u64,
    total_amount_side_a: u64,
    total_amount_side_b: u64,
    winning_side: u8,
    encryptor_key: Seq<char>,
    now: u64,
)
    requires
        caller == m.authority@,
        !m.is_finalized,
        market_end_time(m) <= u64::MAX,
        now < market_end_time(m),
    ensures
        finalize_error(m, caller, total_tickets_side_a, total_tickets_side_b,
            total_amount_side_a, total_amount_side_b, winning_side, encryptor_key, now) == Some(
            EithrError::MarketNotEnded,
        ),
{
}

/// Finalization is one-shot: against a finalized market — in particular
/// against the record a successful finalization leaves behind — every further
/// attempt fails, and for the authority itself it fails as MarketFinalized.
pub proof fn lemma_finalize_one_shot(
    m: MarketData,
    caller: Seq<u8>,
    total_tickets_side_a: u64,
    total_tickets_side_b: u64,
    total_amount_side_a: u64,
    total_amount_side_b: u64,
    winning_side: u8,
    encryptor_key: Seq<char>,
    now: u64,
)
    requires
        m.is_finalized,
    ensures
        finalize_error(m, caller, total_tickets_side_a, total_tickets_side_b,
            total_amount_side_a, total_amount_side_b, winning_side, encryptor_key, now) is Some,
        caller == m.authority@ ==> finalize_error(m, caller, total_tickets_side_a,
            total_tickets_side_b, total_amount_side_a, total_amount_side_b, winning_side,
            encryptor_key, now) == Some(EithrError::MarketFinalized),
{
}

/// A successful finalization leaves the record finalized, so by
/// `lemma_finalize_one_shot` a second call can never succeed.
pub proof fn lemma_finalized_market_is_finalized(
    m: MarketData,
    total_tickets_side_a: u64,
    total_tickets_side_b: u64,
    total_amount_side_a: u64,
    total_amount_side_b: u64,
    winning_side: u8,
    encryptor_key: String,
)
    ensures
        finalized_market(m, total_tickets_side_a, total_tickets_side_b, total_amount_side_a,
            total_amount_side_b, winning_side, encryptor_key).is_finalized,
{
}

/// The claim fee law: a tie charges no fee and pays the claim in full;
/// otherwise the fee is the claim amount times 500 basis points rounded down;
/// and in every case what the user receives and the fee sum to exactly the
/// claim amount.
pub proof fn lemma_claim_fee_split(winning_side: u8, claim_amount: u64)
    ensures
        winning_side == 0 ==> claim_fee(winning_side, claim_amount) == 0 && claim_user_amount(
            winning_side,
            claim_amount,
        ) == claim_amount,
        winning_side != 0 ==> claim_fee(winning_side, claim_amount) == claim_amount
            * TREASURY_FEE_BPS / 10000,
        claim_user_amount(winning_side, claim_amount) + claim_fee(winning_side, claim_amount)
            == claim_amount,
        0 <= claim_fee(winning_side, claim_amount) <= claim_amount,
{
    lemma_fee_within_claim(winning_side, claim_amount);
}

/// An accepted claim can never take the custody balance below the ledger's
/// retention floor: acceptance required the balance minus the claim amount to
/// stay at or above the floor, and the two transfers move exactly the claim
/// amount in total.
pub proof fn lemma_claim_keeps_retention_floor(
    m: MarketData,
    u: UserTickets,
    claim_amount: u64,
    caller: Seq<u8>,
    user: Seq<u8>,
    project_treasury_account: Seq<u8>,
    custody_lamports: u64,
    custody_min_balance: u64,
)
    ensures
        claim_error_before_custody(m, u, claim_amount, caller, user, project_treasury_account,
            custody_lamports, custody_min_balance) is None ==> {
            &&& custody_lamports - claim_amount >= custody_min_balance
            &&& custody_lamports - claim_user_amount(m.winning_side, claim_amount) - claim_fee(
                m.winning_side,
                claim_amount,
            ) >= custody_min_balance
        },
{
    lemma_fee_within_claim(m.winning_side, claim_amount);
}

/// A claim is per-user one-shot: once a user's record is marked claimed — as
/// every successful claim leaves it — the same user's next attempt fails as
/// AlreadyClaimed.
pub proof fn lemma_second_claim_rejected(
    m: MarketData,
    u: UserTickets,
    claim_amount: u64,
    caller: Seq<u8>,
    user: Seq<u8>,
    project_treasury_account: Seq<u8>,
    custody_lamports: u64,
    custody_min_balance: u64,
)
    requires
        u.has_claimed,
        caller == m.authority@,
        user == u.user@,
        m.is_finalized,
    ensures
        claim_error_before_custody(m, u, claim_amount, caller, user, project_treasury_account,
            custody_lamports, custody_min_balance) == Some(EithrError::AlreadyClaimed),
{
}

} // verus!

