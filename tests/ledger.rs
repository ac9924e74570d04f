use currency::{ensure_signed, Config, MintError, Origin, Pallet, Store, TransferError};

fn ledger() -> Pallet {
    Pallet::new(Config::new(5))
}

#[test]
fn mint_works() {
    let mut p = ledger();
    // given
    assert_eq!(p.balance_of(1), None);

    // when
    assert!(p.mint_unsafe(Origin::Signed(1), 100).is_ok());

    // then
    assert_eq!(p.balance_of(1), Some(100));
}

#[test]
fn mint_into_existing_fails() {
    let mut p = ledger();
    assert_eq!(p.balance_of(1), None);

    assert!(p.mint_unsafe(Origin::Signed(1), 1).is_err());
}

#[test]
fn mint_sets_balance_and_issuance() {
    let mut p = ledger();
    assert_eq!(p.mint_unsafe(Origin::Signed(1), 100), Ok(()));
    assert_eq!(p.balance_of(1), Some(100));
    assert_eq!(p.total_issuance(), 100);
    assert!(p.has_account(1));
}

#[test]
fn second_mint_to_same_account_fails() {
    let mut p = ledger();
    assert_eq!(p.mint_unsafe(Origin::Signed(1), 100), Ok(()));
    // the minimum deposit is checked before the account's existence
    assert_eq!(p.mint_unsafe(Origin::Signed(1), 1), Err(MintError::BelowMinimumDeposit));
    assert_eq!(p.mint_unsafe(Origin::Signed(1), 5), Err(MintError::AccountAlreadyExists));
    assert_eq!(p.balance_of(1), Some(100));
    assert_eq!(p.total_issuance(), 100);
}

#[test]
fn mint_twice_same_amount_succeeds_once() {
    let mut p = ledger();
    assert_eq!(p.mint_unsafe(Origin::Signed(7), 20), Ok(()));
    assert_eq!(p.mint_unsafe(Origin::Signed(7), 20), Err(MintError::AccountAlreadyExists));
    assert_eq!(p.balance_of(7), Some(20));
    assert_eq!(p.total_issuance(), 20);
}

#[test]
fn mint_below_minimum_fails() {
    let mut p = ledger();
    assert_eq!(p.mint_unsafe(Origin::Signed(2), 3), Err(MintError::BelowMinimumDeposit));
    assert_eq!(p.balance_of(2), None);
    assert_eq!(p.total_issuance(), 0);
}

#[test]
fn mint_exactly_minimum_succeeds() {
    let mut p = ledger();
    assert_eq!(p.mint_unsafe(Origin::Signed(2), 5), Ok(()));
    assert_eq!(p.balance_of(2), Some(5));
}

#[test]
fn mint_unsigned_fails() {
    let mut p = ledger();
    assert_eq!(p.mint_unsafe(Origin::Unsigned, 100), Err(MintError::Unauthorized));
    assert_eq!(p.total_issuance(), 0);
    assert_eq!(p.balance_of(1), None);
}

#[test]
fn mint_overflow_fails_without_change() {
    let mut p = ledger();
    assert_eq!(p.mint_unsafe(Origin::Signed(1), u128::MAX), Ok(()));
    assert_eq!(p.mint_unsafe(Origin::Signed(2), 5), Err(MintError::ArithmeticOverflow));
    assert_eq!(p.balance_of(2), None);
    assert_eq!(p.total_issuance(), u128::MAX);
}

#[test]
fn issuance_is_sum_of_balances() {
    let mut p = ledger();
    assert_eq!(p.mint_unsafe(Origin::Signed(1), 100), Ok(()));
    assert_eq!(p.mint_unsafe(Origin::Signed(2), 30), Ok(()));
    assert_eq!(p.mint_unsafe(Origin::Signed(3), 4), Err(MintError::BelowMinimumDeposit));
    assert_eq!(p.transfer(Origin::Signed(1), 3, 45), Ok(()));
    let sum = p.balance_of(1).unwrap() + p.balance_of(2).unwrap() + p.balance_of(3).unwrap();
    assert_eq!(p.total_issuance(), sum);
    assert_eq!(sum, 130);
}

#[test]
fn transfer_moves_funds() {
    let mut p = ledger();
    assert_eq!(p.mint_unsafe(Origin::Signed(1), 100), Ok(()));
    assert_eq!(p.transfer(Origin::Signed(1), 3, 50), Ok(()));
    assert_eq!(p.balance_of(1), Some(50));
    assert_eq!(p.balance_of(3), Some(50));
    assert_eq!(p.total_issuance(), 100);
}

#[test]
fn transfer_to_existing_account_adds() {
    let mut p = ledger();
    assert_eq!(p.mint_unsafe(Origin::Signed(1), 100), Ok(()));
    assert_eq!(p.mint_unsafe(Origin::Signed(2), 10), Ok(()));
    assert_eq!(p.transfer(Origin::Signed(1), 2, 3), Ok(()));
    assert_eq!(p.balance_of(1), Some(97));
    assert_eq!(p.balance_of(2), Some(13));
    assert_eq!(p.total_issuance(), 110);
}

#[test]
fn transfer_whole_balance_removes_sender() {
    let mut p = ledger();
    assert_eq!(p.mint_unsafe(Origin::Signed(1), 100), Ok(()));
    assert_eq!(p.transfer(Origin::Signed(1), 2, 100), Ok(()));
    assert_eq!(p.balance_of(1), None);
    assert_eq!(p.balance_of(2), Some(100));
    assert_eq!(p.total_issuance(), 100);
}

#[test]
fn transfer_leaving_dust_fails() {
    let mut p = ledger();
    assert_eq!(p.mint_unsafe(Origin::Signed(1), 100), Ok(()));
    assert_eq!(p.transfer(Origin::Signed(1), 2, 96), Err(TransferError::WouldLeaveDust));
    assert_eq!(p.balance_of(1), Some(100));
    assert_eq!(p.balance_of(2), None);
}

#[test]
fn transfer_below_minimum_to_new_account_fails() {
    let mut p = ledger();
    assert_eq!(p.mint_unsafe(Origin::Signed(1), 100), Ok(()));
    assert_eq!(
        p.transfer(Origin::Signed(1), 2, 4),
        Err(TransferError::RecipientBelowMinimumDeposit)
    );
    assert_eq!(p.balance_of(1), Some(100));
    assert_eq!(p.balance_of(2), None);
}

#[test]
fn transfer_insufficient_funds_fails() {
    let mut p = ledger();
    assert_eq!(p.mint_unsafe(Origin::Signed(1), 100), Ok(()));
    assert_eq!(p.transfer(Origin::Signed(1), 2, 101), Err(TransferError::InsufficientFunds));
    assert_eq!(p.transfer(Origin::Signed(9), 2, 5), Err(TransferError::InsufficientFunds));
    assert_eq!(p.balance_of(1), Some(100));
    assert_eq!(p.total_issuance(), 100);
}

#[test]
fn transfer_unsigned_fails() {
    let mut p = ledger();
    assert_eq!(p.mint_unsafe(Origin::Signed(1), 100), Ok(()));
    assert_eq!(p.transfer(Origin::Unsigned, 2, 10), Err(TransferError::Unauthorized));
    assert_eq!(p.balance_of(1), Some(100));
}

#[test]
fn transfer_to_self_changes_nothing() {
    let mut p = ledger();
    assert_eq!(p.mint_unsafe(Origin::Signed(1), 100), Ok(()));
    assert_eq!(p.transfer(Origin::Signed(1), 1, 98), Ok(()));
    assert_eq!(p.balance_of(1), Some(100));
    assert_eq!(p.total_issuance(), 100);
}

#[test]
fn transfers_keep_total_issuance() {
    let mut p = ledger();
    assert_eq!(p.mint_unsafe(Origin::Signed(1), 60), Ok(()));
    assert_eq!(p.mint_unsafe(Origin::Signed(2), 40), Ok(()));
    let _ = p.transfer(Origin::Signed(1), 2, 20);
    let _ = p.transfer(Origin::Signed(2), 3, 60);
    let _ = p.transfer(Origin::Signed(3), 1, 1000);
    let _ = p.transfer(Origin::Unsigned, 1, 1);
    assert_eq!(p.total_issuance(), 100);
    assert_eq!(p.balance_of(1), Some(40));
    assert_eq!(p.balance_of(2), None);
    assert_eq!(p.balance_of(3), Some(60));
}

#[test]
fn refused_transfers_change_nothing() {
    let mut p = ledger();
    assert_eq!(p.mint_unsafe(Origin::Signed(1), 100), Ok(()));
    assert!(p.transfer(Origin::Signed(1), 2, 200).is_err());
    assert!(p.transfer(Origin::Signed(1), 2, 2).is_err());
    assert!(p.transfer(Origin::Signed(1), 2, 97).is_err());
    assert!(p.transfer(Origin::Unsigned, 2, 10).is_err());
    assert_eq!(p.balance_of(1), Some(100));
    assert_eq!(p.balance_of(2), None);
    assert_eq!(p.total_issuance(), 100);
}

#[test]
fn zero_minimum_allows_zero_mint() {
    let mut p = Pallet::new(Config::new(0));
    assert_eq!(p.ed(), 0);
    assert_eq!(p.mint_unsafe(Origin::Signed(4), 0), Ok(()));
    assert_eq!(p.balance_of(4), Some(0));
    assert_eq!(p.total_issuance(), 0);
}

#[test]
fn signer_of_origin() {
    assert_eq!(ensure_signed(Origin::Signed(8)), Some(8));
    assert_eq!(ensure_signed(Origin::Unsigned), None);
    assert_eq!(Config::new(5).ed(), 5);
}

#[test]
fn store_accessors() {
    let mut s = Store::new();
    assert_eq!(s.total_issuance(), 0);
    assert!(!s.has_account(1));
    s.set_balance(1, 9);
    s.set_total_issuance(9);
    assert_eq!(s.balance_of(1), Some(9));
    assert_eq!(s.total_issuance(), 9);
    s.set_balance(1, 4);
    assert_eq!(s.balance_of(1), Some(4));
    s.remove_account(1);
    assert_eq!(s.balance_of(1), None);
    assert_eq!(s.total_issuance(), 9);
}
