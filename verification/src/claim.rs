//! Reward claiming: the one-shot, fee-split withdrawal from a market's
//! custody account. No stored key controls custody; the claim re-derives the
//! expected custody address from the market key and a fixed domain tag and
//! refuses to move funds unless the supplied account matches — possession of
//! the derivation inputs is the sole authorization of the debit. The host
//! performs the two transfers the claim reports, atomically with the checks.

use vstd::prelude::*;
use crate::addr::{Addr, addr_eq, project_treasury_bytes};
use crate::errors::EithrError;
use crate::market::{MarketData, TREASURY_FEE_BPS};
use crate::tickets::{UserTickets, user_tickets_wf};

verus! {

/// The custody address that the host ledger derives from a market key under
/// the fixed domain tag and this program's identity.
pub uninterp spec fn custody_address_of(market_key: Seq<u8>) -> Seq<u8>;

/// Whether the custody derivation finds a bump seed for a market key. It
/// fails only in a statistically improbable case, but whether it does is a
/// deterministic function of the key, so a claim can owe success on the keys
/// where it succeeds.
pub uninterp spec fn custody_derivable(market_key: Seq<u8>) -> bool;

/// Relies on solana-program's `Pubkey::try_find_program_address`: under the
/// fixed domain tag `b"treasury_account"` and this program's fixed id, both
/// the derived address and bump and whether any bump seed works at all are a
/// deterministic function of the market key alone; in the statistically
/// improbable event that no bump seed works it returns `None`.
#[verifier::external_body]
fn derive_custody_address(market_key: &Addr) -> (r: Option<Addr>)
    ensures
        (r is Some) == custody_derivable(market_key@),
        (match r {
            Some(d) => d@ == custody_address_of(market_key@),
            None => true,
        }),
{
    let program = solana_program::pubkey::Pubkey::from_str_const(
        "4dZuWfAH3HeU79Bd1ajUgr4RM2gGJywH2wHQfG8wQeAV",
    );
    let seeds: [&[u8]; 2] = [b"treasury_account", &market_key.bytes];
    match solana_program::pubkey::Pubkey::try_find_program_address(&seeds, &program) {
        Some((pk, _bump)) => Some(Addr { bytes: pk.to_bytes() }),
        None => None,
    }
}

/// The fund movements of an accepted claim, which the host performs from the
/// custody account: `user_amount` to the user, and, when positive, `fee` to
/// the fixed protocol treasury.
#[derive(Clone, Copy, Debug, PartialEq, Eq, Structural)]
pub struct ClaimTransfers {
    pub user_amount: u64,
    pub fee: u64,
}

/// The protocol fee on a claim: zero on a tie, otherwise 500 basis points of
/// the claim amount, rounded down.
pub open spec fn claim_fee(winning_side: u8, claim_amount: u64) -> int {
    if winning_side == 0 {
        0
    } else {
        claim_amount * TREASURY_FEE_BPS / 10000
    }
}

/// What the user receives of a claim: the claim amount minus the fee.
pub open spec fn claim_user_amount(winning_side: u8, claim_amount: u64) -> int {
    claim_amount - claim_fee(winning_side, claim_amount)
}

/// The first check that a claim fails on before the custody-address match, if
/// any, in the checked order: the three identity checks, the two lifecycle
/// flags, the amount, and the custody balance against the retention floor.
pub open spec fn claim_error_before_custody(
    m: MarketData,
    u: UserTickets,
    claim_amount: u64,
    caller: Seq<u8>,
    user: Seq<u8>,
    project_treasury_account: Seq<u8>,
    custody_lamports: u64,
    custody_min_balance: u64,
) -> Option<EithrError> {
    if caller != m.authority@ {
        Some(EithrError::Unauthorized)
    } else if user != u.user@ {
        Some(EithrError::UnauthorizedUser)
    } else if !m.is_finalized {
        Some(EithrError::MarketNotFinalized)
    } else if u.has_claimed {
        Some(EithrError::AlreadyClaimed)
    } else if claim_amount == 0 {
        Some(EithrError::InvalidClaimAmount)
    } else if project_treasury_account != project_treasury_bytes() {
        Some(EithrError::InvalidProjectTreasury)
    } else if custody_lamports < claim_amount {
        Some(EithrError::Overflow)
    } else if custody_lamports - claim_amount < custody_min_balance {
        Some(EithrError::InsufficientFunds)
    } else {
        None
    }
}

/// The fee never exceeds the claim amount, so the split is exact: what the
/// user receives and the fee always sum to the claim amount.
pub proof fn lemma_fee_within_claim(winning_side: u8, claim_amount: u64)
    ensures
        0 <= claim_fee(winning_side, claim_amount) <= claim_amount,
        claim_user_amount(winning_side, claim_amount) + claim_fee(winning_side, claim_amount)
            == claim_amount,
{
    assert(claim_amount * TREASURY_FEE_BPS / 10000 <= claim_amount) by (nonlinear_arith);
    assert(claim_amount * TREASURY_FEE_BPS / 10000 >= 0) by (nonlinear_arith);
}

/// The claim's verified core, with the custody derivation already made: takes
/// whatever the derivation returned and decides the claim for every value of
/// it. Checks run in the stated order; the custody match is last. On success
/// the user's record is marked claimed and the fee-split transfers are
/// returned for the host to perform; on any error the record is unchanged and
/// no funds move.
pub fn claim_reward_with_custody(
    market: &MarketData,
    user_tickets: &mut UserTickets,
    claim_amount: u64,
    caller: Addr,
    user: Addr,
    project_treasury_account: Addr,
    custody_account: Addr,
    custody_lamports: u64,
    custody_min_balance: u64,
    derived_custody: Option<Addr>,
) -> (r: Result<ClaimTransfers, EithrError>)
    ensures
        (match claim_error_before_custody(*market, *old(user_tickets), claim_amount, caller@,
            user@, project_treasury_account@, custody_lamports, custody_min_balance) {
            Some(e) => r == Err::<ClaimTransfers, EithrError>(e) && *final(user_tickets) == *old(
                user_tickets,
            ),
            None => (match derived_custody {
                None => r == Err::<ClaimTransfers, EithrError>(EithrError::InvalidTreasuryPda)
                    && *final(user_tickets) == *old(user_tickets),
                Some(d) => if d@ != custody_account@ {
                    r == Err::<ClaimTransfers, EithrError>(EithrError::InvalidTreasuryPda)
                        && *final(user_tickets) == *old(user_tickets)
                } else {
                    &&& r == Ok::<ClaimTransfers, EithrError>(
                        (ClaimTransfers {
                            user_amount: claim_user_amount(market.winning_side, claim_amount)
                                as u64,
                            fee: claim_fee(market.winning_side, claim_amount) as u64,
                        }),
                    )
                    &&& *final(user_tickets) == (UserTickets {
                        has_claimed: true,
                        ..*old(user_tickets)
                    })
                },
            }),
        }),
        user_tickets_wf(*old(user_tickets)) ==> user_tickets_wf(*final(user_tickets)),
{
    if !addr_eq(&caller, &market.authority) {
        return Err(EithrError::Unauthorized);
    }
    if !addr_eq(&user, &user_tickets.user) {
        return Err(EithrError::UnauthorizedUser);
    }
    if !market.is_finalized {
        return Err(EithrError::MarketNotFinalized);
    }
    if user_tickets.has_claimed {
        return Err(EithrError::AlreadyClaimed);
    }
    if claim_amount == 0 {
        return Err(EithrError::InvalidClaimAmount);
    }
    let fixed_treasury = crate::addr::project_treasury();
    if !addr_eq(&project_treasury_account, &fixed_treasury) {
        return Err(EithrError::InvalidProjectTreasury);
    }
    let remaining = match custody_lamports.checked_sub(claim_amount) {
        Some(rem) => rem,
        None => {
            return Err(EithrError::Overflow);
        },
    };
    if remaining < custody_min_balance {
        return Err(EithrError::InsufficientFunds);
    }
    let (fee, user_amount) = if market.winning_side == 0 {
        (0u64, claim_amount)
    } else {
        proof {
            lemma_fee_within_claim(market.winning_side, claim_amount);
        }
        let fee_wide = (claim_amount as u128) * (TREASURY_FEE_BPS as u128) / 10000u128;
        let fee = fee_wide as u64;
        (fee, claim_amount - fee)
    };
    let expected = match derived_custody {
        Some(d) => d,
        None => {
            return Err(EithrError::InvalidTreasuryPda);
        },
    };
    if !addr_eq(&expected, &custody_account) {
        return Err(EithrError::InvalidTreasuryPda);
    }
    user_tickets.has_claimed = true;
    Ok(ClaimTransfers { user_amount, fee })
}

/// Claims the reward for `user` from the custody account of the market keyed
/// by `market_key`. Authority-only, per-user one-shot, and accepted only
/// against the fixed protocol treasury and a custody account that matches its
/// re-derivation from the market key. `custody_lamports` is the custody
/// account's current balance and `custody_min_balance` the ledger's minimum
/// retention floor for it, both read by the host; a claim that would leave
/// the balance under the floor is refused. On success the returned transfers
/// sum to exactly `claim_amount` and the record is marked claimed; success is
/// owed whenever every check passes, the derivation finds a bump seed, and
/// the supplied custody account equals the derived address.
pub fn claim_reward(
    market: &MarketData,
    user_tickets: &mut UserTickets,
    claim_amount: u64,
    caller: Addr,
    user: Addr,
    project_treasury_account: Addr,
    custody_account: Addr,
    market_key: Addr,
    custody_lamports: u64,
    custody_min_balance: u64,
) -> (r: Result<ClaimTransfers, EithrError>)
    ensures
        (match claim_error_before_custody(*market, *old(user_tickets), claim_amount, caller@,
            user@, project_treasury_account@, custody_lamports, custody_min_balance) {
            Some(e) => r == Err::<ClaimTransfers, EithrError>(e) && *final(user_tickets) == *old(
                user_tickets,
            ),
            None => {
                &&& custody_derivable(market_key@) && custody_account@ == custody_address_of(
                    market_key@,
                ) ==> {
                    &&& r == Ok::<ClaimTransfers, EithrError>(
                        (ClaimTransfers {
                            user_amount: claim_user_amount(market.winning_side, claim_amount)
                                as u64,
                            fee: claim_fee(market.winning_side, claim_amount) as u64,
                        }),
                    )
                    &&& *final(user_tickets) == (UserTickets {
                        has_claimed: true,
                        ..*old(user_tickets)
                    })
                }
                &&& custody_account@ != custody_address_of(market_key@) ==> r == Err::<
                    ClaimTransfers,
                    EithrError,
                >(EithrError::InvalidTreasuryPda)
                &&& r is Err ==> r == Err::<ClaimTransfers, EithrError>(
                    EithrError::InvalidTreasuryPda,
                ) && *final(user_tickets) == *old(user_tickets)
                &&& r is Ok ==> {
                    &&& custody_account@ == custody_address_of(market_key@)
                    &&& r == Ok::<ClaimTransfers, EithrError>(
                        (ClaimTransfers {
                            user_amount: claim_user_amount(market.winning_side, claim_amount)
                                as u64,
                            fee: claim_fee(market.winning_side, claim_amount) as u64,
                        }),
                    )
                    &&& *final(user_tickets) == (UserTickets {
                        has_claimed: true,
                        ..*old(user_tickets)
                    })
                }
            },
        }),
        user_tickets_wf(*old(user_tickets)) ==> user_tickets_wf(*final(user_tickets)),
{
    let derived = derive_custody_address(&market_key);
    claim_reward_with_custody(
        market,
        user_tickets,
        claim_amount,
        caller,
        user,
        project_treasury_account,
        custody_account,
        custody_lamports,
        custody_min_balance,
        derived,
    )
}

} // verus!
