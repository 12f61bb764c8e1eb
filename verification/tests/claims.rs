use eithr_fun::addr::{addr_eq, program_owner, project_treasury, Addr};
use eithr_fun::claim::{claim_reward, claim_reward_with_custody, ClaimTransfers};
use eithr_fun::errors::EithrError;
use eithr_fun::market::{finalize_market, initialize_market, MarketData};
use eithr_fun::tickets::{buy_tickets, UserTickets};
use solana_program::pubkey::Pubkey;

fn addr(n: u8) -> Addr {
    Addr { bytes: [n; 32] }
}

/// The custody address of a market key, derived the way the host ledger does
/// it: from the fixed domain tag and the program's identity.
fn custody_of(market_key: &Addr) -> Addr {
    let program = Pubkey::from_str_const("4dZuWfAH3HeU79Bd1ajUgr4RM2gGJywH2wHQfG8wQeAV");
    let (pk, _bump) =
        Pubkey::find_program_address(&[b"treasury_account", &market_key.bytes], &program);
    Addr { bytes: pk.to_bytes() }
}

/// A finalized market with one 5-ticket purchase by user `addr(4)`, as used
/// by most claim tests: price 10, window 100 s, finalized with winning side
/// `winning_side`.
fn finalized_market_with_purchase(winning_side: u8) -> (MarketData, UserTickets) {
    let mut m = initialize_market(
        String::from("t"),
        String::from("d"),
        String::from("a"),
        String::from("b"),
        10,
        String::from("c"),
        100,
        0,
        addr(1),
        addr(2),
    )
    .unwrap();
    let mut u = UserTickets::new(addr(3), addr(4));
    buy_tickets(&mut m, &mut u, String::from("ballot"), 5, 0, addr(3), addr(4)).unwrap();
    let r = finalize_market(
        &mut m,
        3,
        2,
        30,
        20,
        winning_side,
        String::from("key"),
        101,
        program_owner(),
    );
    assert!(r.is_ok());
    (m, u)
}

#[test]
fn claim_pays_fee_split_on_winning_side() {
    let (m, mut u) = finalized_market_with_purchase(1);
    let market_key = addr(7);
    let r = claim_reward(
        &m,
        &mut u,
        30,
        program_owner(),
        addr(4),
        project_treasury(),
        custody_of(&market_key),
        market_key,
        1000,
        10,
    );
    // fee = floor(30 * 500 / 10000) = 1, user amount 29.
    assert_eq!(r.unwrap(), ClaimTransfers { user_amount: 29, fee: 1 });
    assert!(u.has_claimed);
}

#[test]
fn claim_pays_in_full_on_tie() {
    let (m, mut u) = finalized_market_with_purchase(0);
    let market_key = addr(7);
    let r = claim_reward(
        &m,
        &mut u,
        30,
        program_owner(),
        addr(4),
        project_treasury(),
        custody_of(&market_key),
        market_key,
        1000,
        10,
    );
    assert_eq!(r.unwrap(), ClaimTransfers { user_amount: 30, fee: 0 });
    assert!(u.has_claimed);
}

#[test]
fn claim_fee_rounds_down() {
    let (m, mut u) = finalized_market_with_purchase(2);
    let market_key = addr(7);
    let r = claim_reward(
        &m,
        &mut u,
        9999,
        program_owner(),
        addr(4),
        project_treasury(),
        custody_of(&market_key),
        market_key,
        100_000,
        10,
    );
    // fee = floor(9999 * 500 / 10000) = 499, user amount 9500.
    let t = r.unwrap();
    assert_eq!(t.fee, 499);
    assert_eq!(t.user_amount, 9500);
    assert_eq!(t.user_amount + t.fee, 9999);
}

#[test]
fn claim_is_refused_without_authority_or_identity() {
    let (m, mut u) = finalized_market_with_purchase(1);
    let market_key = addr(7);
    let custody = custody_of(&market_key);
    let r = claim_reward(
        &m, &mut u, 30, addr(9), addr(4), project_treasury(), custody, market_key, 1000, 10,
    );
    assert_eq!(r.unwrap_err(), EithrError::Unauthorized);
    let r = claim_reward(
        &m, &mut u, 30, program_owner(), addr(5), project_treasury(), custody, market_key, 1000,
        10,
    );
    assert_eq!(r.unwrap_err(), EithrError::UnauthorizedUser);
    let r = claim_reward(
        &m, &mut u, 30, program_owner(), addr(4), addr(8), custody, market_key, 1000, 10,
    );
    assert_eq!(r.unwrap_err(), EithrError::InvalidProjectTreasury);
    assert!(!u.has_claimed);
}

#[test]
fn claim_needs_a_finalized_market() {
    let mut m = initialize_market(
        String::from("t"),
        String::from("d"),
        String::from("a"),
        String::from("b"),
        10,
        String::from("c"),
        100,
        0,
        addr(1),
        addr(2),
    )
    .unwrap();
    let mut u = UserTickets::new(addr(3), addr(4));
    buy_tickets(&mut m, &mut u, String::from("ballot"), 5, 0, addr(3), addr(4)).unwrap();
    let market_key = addr(7);
    let r = claim_reward(
        &m,
        &mut u,
        30,
        program_owner(),
        addr(4),
        project_treasury(),
        custody_of(&market_key),
        market_key,
        1000,
        10,
    );
    assert_eq!(r.unwrap_err(), EithrError::MarketNotFinalized);
}

#[test]
fn second_claim_is_rejected() {
    let (m, mut u) = finalized_market_with_purchase(1);
    let market_key = addr(7);
    let custody = custody_of(&market_key);
    let r = claim_reward(
        &m, &mut u, 30, program_owner(), addr(4), project_treasury(), custody, market_key, 1000,
        10,
    );
    assert!(r.is_ok());
    let r = claim_reward(
        &m, &mut u, 30, program_owner(), addr(4), project_treasury(), custody, market_key, 1000,
        10,
    );
    assert_eq!(r.unwrap_err(), EithrError::AlreadyClaimed);
}

#[test]
fn claim_guards_the_custody_balance() {
    let (m, mut u) = finalized_market_with_purchase(1);
    let market_key = addr(7);
    let custody = custody_of(&market_key);
    let r = claim_reward(
        &m, &mut u, 0, program_owner(), addr(4), project_treasury(), custody, market_key, 1000,
        10,
    );
    assert_eq!(r.unwrap_err(), EithrError::InvalidClaimAmount);
    // More than the balance holds: the subtraction itself fails.
    let r = claim_reward(
        &m, &mut u, 101, program_owner(), addr(4), project_treasury(), custody, market_key, 100,
        10,
    );
    assert_eq!(r.unwrap_err(), EithrError::Overflow);
    // Within the balance but under the retention floor after the debit.
    let r = claim_reward(
        &m, &mut u, 95, program_owner(), addr(4), project_treasury(), custody, market_key, 100,
        10,
    );
    assert_eq!(r.unwrap_err(), EithrError::InsufficientFunds);
    // Exactly at the floor is accepted.
    let r = claim_reward(
        &m, &mut u, 90, program_owner(), addr(4), project_treasury(), custody, market_key, 100,
        10,
    );
    let t = r.unwrap();
    assert_eq!(t.user_amount + t.fee, 90);
    assert!(u.has_claimed);
}

#[test]
fn claim_checks_the_custody_derivation() {
    let (m, mut u) = finalized_market_with_purchase(1);
    let market_key = addr(7);
    // The market key itself is not its own custody address.
    let r = claim_reward(
        &m, &mut u, 30, program_owner(), addr(4), project_treasury(), market_key, market_key,
        1000, 10,
    );
    assert_eq!(r.unwrap_err(), EithrError::InvalidTreasuryPda);
    // A custody account derived for another market key is refused too.
    let r = claim_reward(
        &m,
        &mut u,
        30,
        program_owner(),
        addr(4),
        project_treasury(),
        custody_of(&addr(8)),
        market_key,
        1000,
        10,
    );
    assert_eq!(r.unwrap_err(), EithrError::InvalidTreasuryPda);
    assert!(!u.has_claimed);
    // The matching derivation is accepted.
    let r = claim_reward(
        &m,
        &mut u,
        30,
        program_owner(),
        addr(4),
        project_treasury(),
        custody_of(&market_key),
        market_key,
        1000,
        10,
    );
    assert!(r.is_ok());
}

#[test]
fn claim_core_rejects_a_failed_derivation() {
    let (m, mut u) = finalized_market_with_purchase(1);
    let r = claim_reward_with_custody(
        &m,
        &mut u,
        30,
        program_owner(),
        addr(4),
        project_treasury(),
        custody_of(&addr(7)),
        1000,
        10,
        None,
    );
    assert_eq!(r.unwrap_err(), EithrError::InvalidTreasuryPda);
    assert!(!u.has_claimed);
}

#[test]
fn program_owner_matches_its_base58_form() {
    let decoded = Pubkey::from_str_const("8a6yEDSFf78hCbUz84jhfq7tkBMS91X1LrnyPiE8xUMo");
    assert_eq!(program_owner().bytes, decoded.to_bytes());
    assert_eq!(project_treasury().bytes, decoded.to_bytes());
}

#[test]
fn custody_addresses_differ_per_market() {
    let a = custody_of(&addr(7));
    let b = custody_of(&addr(8));
    assert!(!addr_eq(&a, &b));
    assert!(addr_eq(&a, &custody_of(&addr(7))));
}
