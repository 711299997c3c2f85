use kitties::{BalanceError, Balances};

#[test]
fn reserve_and_unreserve() {
    let mut b = Balances::new(1);
    b.set_free_balance(5, 100);
    assert_eq!(b.reserve(5, 101), Err(BalanceError::InsufficientBalance));
    assert_eq!(b.reserve(5, 40), Ok(()));
    assert_eq!(b.free_balance(5), 60);
    assert_eq!(b.reserved_balance(5), 40);
    assert_eq!(b.unreserve(5, 50), 10);
    assert_eq!(b.free_balance(5), 100);
    assert_eq!(b.reserved_balance(5), 0);
}

#[test]
fn transfer_rules() {
    let mut b = Balances::new(10);
    b.set_free_balance(1, 100);
    b.set_free_balance(2, u128::MAX - 5);
    assert_eq!(b.transfer(1, 3, 200), Err(BalanceError::InsufficientBalance));
    assert_eq!(b.transfer(1, 3, 95), Err(BalanceError::KeepAlive));
    assert_eq!(b.transfer(1, 2, 6), Err(BalanceError::Overflow));
    assert_eq!(b.transfer(1, 3, 5), Err(BalanceError::ExistentialDeposit));
    assert_eq!(b.transfer(1, 3, 50), Ok(()));
    assert_eq!(b.free_balance(1), 50);
    assert_eq!(b.free_balance(3), 50);
    assert_eq!(b.min_balance(), 10);
}
