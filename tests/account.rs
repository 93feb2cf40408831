use payment_engine::amount::Amount;
use payment_engine::error::EngineError;
use payment_engine::models::Account;

#[test]
fn account_moves_funds_between_balances() {
    let mut a = Account::new();
    a.deposit(Amount::from_whole(10));
    a.hold_for_dispute(Amount::from_whole(4));
    assert_eq!(a.available(), Amount::from_whole(6));
    assert_eq!(a.held(), Amount::from_whole(4));
    assert_eq!(a.total(), Amount::from_whole(10));
    a.release_from_dispute(Amount::from_whole(1));
    assert_eq!(a.available(), Amount::from_whole(7));
    assert_eq!(a.held(), Amount::from_whole(3));
    a.chargeback(Amount::from_whole(3));
    assert_eq!(a.held(), Amount::zero());
    assert_eq!(a.total(), Amount::from_whole(7));
    assert!(a.locked());
}

#[test]
fn account_withdraw_checks_available_funds() {
    let mut a = Account::new();
    a.deposit(Amount::from_units(25000));
    assert_eq!(a.withdraw(Amount::from_whole(3)), Err(EngineError::InsufficientFunds(0, Amount::from_whole(3))));
    assert_eq!(a.available(), Amount::from_units(25000));
    assert_eq!(a.withdraw(Amount::from_units(25000)), Ok(()));
    assert_eq!(a.available(), Amount::zero());
}
