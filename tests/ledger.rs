use sputnik_storage::amount::storage_cost;
use sputnik_storage::ledger::{
    check_one_unit, storage_available, Account, CostOracle, LedgerError, StorageBalance,
    StorageLedger, Transfer,
};

fn oracle() -> CostOracle {
    CostOracle { price_per_byte: 1, min_storage_bytes: 100 }
}

fn alice() -> String {
    "alice.near".to_string()
}

fn transfer(to: &str, amount: u128) -> Option<Transfer> {
    Some(Transfer { receiver: to.to_string(), amount })
}

#[test]
fn balance_bounds_minimum_is_price_times_bytes() {
    let ledger = StorageLedger::new();
    let bounds = ledger.storage_balance_bounds(&oracle());
    assert_eq!(bounds.min, 100);
    assert_eq!(bounds.max, None);
    let pricier = CostOracle { price_per_byte: 10_000_000_000_000_000_000, min_storage_bytes: 125 };
    assert_eq!(ledger.storage_balance_bounds(&pricier).min, 1_250_000_000_000_000_000_000);
}

#[test]
fn storage_cost_saturates() {
    assert_eq!(storage_cost(3, 7), 21);
    assert_eq!(storage_cost(u128::MAX, 2), u128::MAX);
    assert_eq!(storage_cost(u128::MAX, 0), 0);
}

#[test]
fn registration_only_keeps_minimum_and_refunds_excess() {
    let mut ledger = StorageLedger::new();
    let r = ledger.storage_deposit(&oracle(), &alice(), 150, None, Some(true)).unwrap();
    assert_eq!(r.value, StorageBalance { total: 100, available: 0 });
    assert_eq!(r.transfer, transfer("alice.near", 50));
    let b = ledger.storage_balance_of(&oracle(), "alice.near").unwrap();
    assert_eq!(b.total, 100);
    assert_eq!(b.available, 100 - 100);
}

#[test]
fn registration_only_with_exact_minimum_refunds_nothing() {
    let mut ledger = StorageLedger::new();
    let r = ledger.storage_deposit(&oracle(), &alice(), 100, None, Some(true)).unwrap();
    assert_eq!(r.value.total, 100);
    assert_eq!(r.transfer, None);
}

#[test]
fn full_registration_keeps_whole_deposit() {
    let mut ledger = StorageLedger::new();
    let r = ledger.storage_deposit(&oracle(), &alice(), 150, None, Some(false)).unwrap();
    assert_eq!(r.value, StorageBalance { total: 150, available: 50 });
    assert_eq!(r.transfer, None);
    let mut other = StorageLedger::new();
    let r = other.storage_deposit(&oracle(), &alice(), 150, None, None).unwrap();
    assert_eq!(r.value.total, 150);
    assert_eq!(r.transfer, None);
}

#[test]
fn deposit_below_minimum_is_refused() {
    let mut ledger = StorageLedger::new();
    let r = ledger.storage_deposit(&oracle(), &alice(), 50, None, None);
    assert_eq!(r.unwrap_err(), LedgerError::DepositLessThanMinStorage);
    assert_eq!(ledger.storage_balance_of(&oracle(), "alice.near"), None);
    assert_eq!(ledger.account("alice.near"), None);
}

#[test]
fn deposit_for_another_identity_refunds_the_caller() {
    let mut ledger = StorageLedger::new();
    let bob = "bob.near".to_string();
    let r = ledger
        .storage_deposit(&oracle(), &alice(), 130, Some(bob.clone()), Some(true))
        .unwrap();
    assert_eq!(r.value.total, 100);
    assert_eq!(r.transfer, transfer("alice.near", 30));
    assert!(ledger.account("bob.near").is_some());
    assert!(ledger.account("alice.near").is_none());
}

#[test]
fn deposit_to_registered_identity_is_refunded_in_full() {
    let mut ledger = StorageLedger::new();
    ledger.storage_deposit(&oracle(), &alice(), 120, None, None).unwrap();
    let r = ledger.storage_deposit(&oracle(), &alice(), 75, None, None).unwrap();
    assert_eq!(r.value, StorageBalance { total: 120, available: 20 });
    assert_eq!(r.transfer, transfer("alice.near", 75));
    let r = ledger.storage_deposit(&oracle(), &alice(), 0, None, Some(true)).unwrap();
    assert_eq!(r.value.total, 120);
    assert_eq!(r.transfer, None);
}

#[test]
fn withdraw_too_much_changes_nothing() {
    let mut ledger = StorageLedger::new();
    ledger.storage_deposit(&oracle(), &alice(), 150, None, None).unwrap();
    let r = ledger.storage_withdraw(&oracle(), &alice(), 1, Some(51));
    assert_eq!(r.unwrap_err(), LedgerError::WithdrawTooMuch);
    assert_eq!(ledger.account("alice.near").unwrap().total, 150);
}

#[test]
fn withdraw_part_then_all() {
    let mut ledger = StorageLedger::new();
    ledger.storage_deposit(&oracle(), &alice(), 150, None, None).unwrap();
    let r = ledger.storage_withdraw(&oracle(), &alice(), 1, Some(20)).unwrap();
    assert_eq!(r.value, StorageBalance { total: 130, available: 30 });
    assert_eq!(r.transfer, transfer("alice.near", 20));
    let r = ledger.storage_withdraw(&oracle(), &alice(), 1, None).unwrap();
    assert_eq!(r.value, StorageBalance { total: 100, available: 0 });
    assert_eq!(r.transfer, transfer("alice.near", 30));
}

#[test]
fn withdraw_needs_one_unit_and_a_record() {
    let mut ledger = StorageLedger::new();
    let r = ledger.storage_withdraw(&oracle(), &alice(), 1, None);
    assert_eq!(r.unwrap_err(), LedgerError::NotRegistered);
    ledger.storage_deposit(&oracle(), &alice(), 150, None, None).unwrap();
    let r = ledger.storage_withdraw(&oracle(), &alice(), 0, None);
    assert_eq!(r.unwrap_err(), LedgerError::RequiresOneUnit);
    let r = ledger.storage_withdraw(&oracle(), &alice(), 2, Some(1));
    assert_eq!(r.unwrap_err(), LedgerError::RequiresOneUnit);
    assert_eq!(ledger.account("alice.near").unwrap().total, 150);
}

#[test]
fn unregister_unknown_returns_false() {
    let mut ledger = StorageLedger::new();
    let r = ledger.storage_unregister(&alice(), 1, None).unwrap();
    assert!(!r.value);
    assert_eq!(r.transfer, None);
    assert_eq!(ledger.account("alice.near"), None);
}

#[test]
fn unregister_with_reserved_value_is_refused() {
    let mut ledger = StorageLedger::new();
    ledger.storage_deposit(&oracle(), &alice(), 150, None, None).unwrap();
    let a = ledger.account("alice.near").unwrap();
    ledger.put_account(alice(), Account { reserved: 7, ..a });
    let r = ledger.storage_unregister(&alice(), 1, Some(true));
    assert_eq!(r.unwrap_err(), LedgerError::UnregisterNotEmpty);
    assert_eq!(ledger.account("alice.near").unwrap().reserved, 7);
}

#[test]
fn unregister_empty_account_returns_commitment() {
    let mut ledger = StorageLedger::new();
    ledger.storage_deposit(&oracle(), &alice(), 150, None, None).unwrap();
    let r = ledger.storage_unregister(&alice(), 1, None);
    let r = r.unwrap();
    assert!(r.value);
    assert_eq!(r.transfer, transfer("alice.near", 150));
    assert_eq!(ledger.storage_balance_of(&oracle(), "alice.near"), None);
}

#[test]
fn unregister_needs_one_unit() {
    let mut ledger = StorageLedger::new();
    ledger.storage_deposit(&oracle(), &alice(), 150, None, None).unwrap();
    let r = ledger.storage_unregister(&alice(), 0, None);
    assert_eq!(r.unwrap_err(), LedgerError::RequiresOneUnit);
    assert!(ledger.account("alice.near").is_some());
}

#[test]
fn one_unit_check() {
    assert_eq!(check_one_unit(1), Ok(()));
    assert_eq!(check_one_unit(0), Err(LedgerError::RequiresOneUnit));
    assert_eq!(check_one_unit(1_000), Err(LedgerError::RequiresOneUnit));
}

#[test]
fn available_is_commitment_less_footprint() {
    let a = Account { total: 500, reserved: 0, used_bytes: 120 };
    assert_eq!(storage_available(&a, 3), 140);
    let short = Account { total: 10, reserved: 0, used_bytes: 120 };
    assert_eq!(storage_available(&short, 3), 0);
    let mut ledger = StorageLedger::new();
    ledger.put_account(alice(), a);
    let b = ledger.storage_balance_of(&oracle(), "alice.near").unwrap();
    assert_eq!(b, StorageBalance { total: 500, available: 380 });
}
