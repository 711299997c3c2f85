use kitties::{Balances, Error, Event, Pallet};

const RESERVE: u128 = 1_000;
const SEED: [u8; 32] = [7u8; 32];

/// Accounts 1 to 3 are well funded; account 9 cannot pay a deposit.
fn new_test_ext() -> Pallet {
    let mut balances = Balances::new(1);
    balances.set_free_balance(1, 1_000_000);
    balances.set_free_balance(2, 1_000_000);
    balances.set_free_balance(3, 1_000_000);
    balances.set_free_balance(9, 10);
    Pallet::new(balances, RESERVE)
}

fn create(p: &mut Pallet, who: u64) -> Result<(), Error> {
    let index = Some(p.events().len() as u32);
    p.create(who, &SEED, index)
}

fn breed(p: &mut Pallet, who: u64, a: u32, b: u32) -> Result<(), Error> {
    let index = Some(p.events().len() as u32);
    p.breed(who, a, b, &SEED, index)
}

fn last_event(p: &Pallet) -> Option<Event> {
    p.events().last().copied()
}

#[test]
fn create_kitty_work() {
    let mut p = new_test_ext();
    assert_eq!(create(&mut p, 1), Ok(()));
    assert_eq!(last_event(&p), Some(Event::Created(1, 1)));
}

#[test]
fn create_kitty_failed_when_not_enough_money() {
    let mut p = new_test_ext();
    assert_eq!(create(&mut p, 9), Err(Error::InsufficientFunds));
    assert_eq!(p.kitties_count(), None);
    assert!(p.events().is_empty());
    assert_eq!(p.balances().free_balance(9), 10);
    assert_eq!(p.balances().reserved_balance(9), 0);
}

#[test]
fn transfer_kitty_works() {
    let mut p = new_test_ext();
    assert_eq!(create(&mut p, 1), Ok(()));
    assert_eq!(p.kitties_count(), Some(2));
    assert_eq!(last_event(&p), Some(Event::Created(1, 1)));
}

#[test]
fn transfer_kitty_failed_when_not_exists() {
    let mut p = new_test_ext();
    assert_eq!(p.transfer(1, 2, 0), Err(Error::UnknownAsset));
}

#[test]
fn transfer_kitty_failed_when_not_owner() {
    let mut p = new_test_ext();
    let _ = create(&mut p, 1);
    assert_eq!(p.transfer(2, 3, 0), Err(Error::UnknownAsset));
}

#[test]
fn transfer_kitty_failed_when_not_self() {
    let mut p = new_test_ext();
    let _ = create(&mut p, 1);
    assert_eq!(p.transfer(1, 1, 0), Err(Error::UnknownAsset));
}

#[test]
fn breed_kitty_work() {
    let mut p = new_test_ext();
    assert_eq!(create(&mut p, 1), Ok(()));
    assert_eq!(create(&mut p, 1), Ok(()));
    assert_eq!(p.kitties_count(), Some(3));
    assert_eq!(p.owner(1), Some(1));
    assert_eq!(p.owner(2), Some(1));
    assert_eq!(last_event(&p), Some(Event::Created(1, 2)));
}

#[test]
fn breed_kitty_failed_invalid_kittyindex() {
    let mut p = new_test_ext();
    assert_eq!(breed(&mut p, 1, 0, 1), Err(Error::UnknownAsset));
}

#[test]
fn breed_kitty_failed_invalid_same_parent_index() {
    let mut p = new_test_ext();
    assert_eq!(breed(&mut p, 1, 1, 1), Err(Error::IdenticalParents));
}

#[test]
fn sale_kitty_work() {
    let mut p = new_test_ext();
    assert_eq!(create(&mut p, 1), Ok(()));
    assert_eq!(last_event(&p), Some(Event::Created(1, 1)));
}

#[test]
fn sale_kitty_failed_not_owner() {
    let mut p = new_test_ext();
    assert_eq!(p.sale(1, 0, Some(5_000)), Err(Error::NotOwner));
}

#[test]
fn buy_kitty_work() {
    let mut p = new_test_ext();
    assert_eq!(create(&mut p, 1), Ok(()));
    assert_eq!(p.owner(1), Some(1));
    assert_eq!(p.kitty_prices(0), None);
    assert_eq!(last_event(&p), Some(Event::Created(1, 1)));
}

#[test]
fn buy_kitty_failed_invalid_kittyindex() {
    let mut p = new_test_ext();
    assert_eq!(p.buy(1, 99), Err(Error::UnknownAsset));
}

#[test]
fn buy_kitty_failed_not_for_sale() {
    let mut p = new_test_ext();
    assert_eq!(create(&mut p, 1), Ok(()));
    assert_eq!(p.buy(2, 1), Err(Error::NotListedForSale));
    assert_eq!(p.owner(1), Some(1));
    assert_eq!(p.balances().free_balance(2), 1_000_000);
}

#[test]
fn buy_kitty_failed_already_owned() {
    let mut p = new_test_ext();
    assert_eq!(create(&mut p, 1), Ok(()));
    assert_eq!(p.buy(1, 1), Err(Error::AlreadyOwned));
    assert_eq!(p.owner(1), Some(1));
}

#[test]
fn buy_unknown_asset_by_anyone_is_unknown() {
    let mut p = new_test_ext();
    assert_eq!(create(&mut p, 1), Ok(()));
    assert_eq!(p.buy(1, 0), Err(Error::UnknownAsset));
    assert_eq!(p.buy(2, 0), Err(Error::UnknownAsset));
}

#[test]
fn create_reserves_deposit_and_stores_drawn_genome() {
    let mut p = new_test_ext();
    assert_eq!(p.create(1, &SEED, Some(0)), Ok(()));
    let expected: [u8; 16] = [92, 217, 45, 227, 171, 197, 252, 235, 94, 0, 212, 42, 24, 250, 17, 191];
    assert_eq!(p.kitties(1).map(|k| k.0), Some(expected));
    assert_eq!(p.kitty_prices(1), None);
    assert_eq!(p.balances().free_balance(1), 1_000_000 - RESERVE);
    assert_eq!(p.balances().reserved_balance(1), RESERVE);
}

#[test]
fn created_ids_strictly_increase() {
    let mut p = new_test_ext();
    assert_eq!(create(&mut p, 1), Ok(()));
    assert_eq!(create(&mut p, 2), Ok(()));
    assert_eq!(create(&mut p, 9), Err(Error::InsufficientFunds));
    assert_eq!(create(&mut p, 1), Ok(()));
    assert_eq!(
        p.events().clone(),
        vec![Event::Created(1, 1), Event::Created(2, 2), Event::Created(1, 3)]
    );
    assert_eq!(p.kitties_count(), Some(4));
}

#[test]
fn every_asset_has_an_owner() {
    let mut p = new_test_ext();
    assert_eq!(create(&mut p, 1), Ok(()));
    assert_eq!(create(&mut p, 2), Ok(()));
    assert_eq!(breed(&mut p, 3, 1, 2), Ok(()));
    assert_eq!(p.transfer(1, 2, 1), Ok(()));
    for id in 0..6u32 {
        assert_eq!(p.kitties(id).is_some(), p.owner(id).is_some());
    }
    assert_eq!(p.owner(3), Some(3));
    assert_eq!(p.owner(4), None);
}

#[test]
fn breed_same_parent_changes_nothing() {
    let mut p = new_test_ext();
    assert_eq!(create(&mut p, 1), Ok(()));
    assert_eq!(breed(&mut p, 1, 1, 1), Err(Error::IdenticalParents));
    assert_eq!(p.kitties_count(), Some(2));
    assert_eq!(p.events().len(), 1);
    assert_eq!(p.balances().reserved_balance(1), RESERVE);
}

#[test]
fn breed_child_takes_bits_from_parents() {
    let mut p = new_test_ext();
    assert_eq!(create(&mut p, 1), Ok(()));
    assert_eq!(create(&mut p, 1), Ok(()));
    assert_eq!(p.breed(1, 1, 2, &SEED, Some(5)), Ok(()));
    assert_eq!(p.kitties_count(), Some(4));
    assert_eq!(last_event(&p), Some(Event::Created(1, 3)));
    let a = p.kitties(1).unwrap().0;
    let b = p.kitties(2).unwrap().0;
    let child = p.kitties(3).unwrap().0;
    let selector = kitties::random_value(&SEED, 1, Some(5));
    assert_eq!(child, kitties::mix_genomes(&selector, &a, &b));
    for i in 0..16 {
        assert_eq!(child[i] & !(a[i] | b[i]), 0);
        assert_eq!((a[i] & b[i]) & !child[i], 0);
    }
    assert_eq!(p.balances().reserved_balance(1), 3 * RESERVE);
}

#[test]
fn breed_needs_deposit() {
    let mut p = new_test_ext();
    assert_eq!(create(&mut p, 1), Ok(()));
    assert_eq!(create(&mut p, 1), Ok(()));
    assert_eq!(breed(&mut p, 9, 1, 2), Err(Error::InsufficientFunds));
    assert_eq!(p.kitties_count(), Some(3));
}

#[test]
fn transfer_moves_owner_and_deposit_and_keeps_listing() {
    let mut p = new_test_ext();
    assert_eq!(create(&mut p, 1), Ok(()));
    assert_eq!(p.sale(1, 1, Some(300)), Ok(()));
    assert_eq!(p.transfer(1, 2, 1), Ok(()));
    assert_eq!(p.owner(1), Some(2));
    assert_eq!(p.kitty_prices(1), Some(300));
    assert_eq!(last_event(&p), Some(Event::Transferred(1, 2, 1)));
    assert_eq!(p.balances().reserved_balance(1), 0);
    assert_eq!(p.balances().free_balance(1), 1_000_000);
    assert_eq!(p.balances().reserved_balance(2), RESERVE);
    assert_eq!(p.balances().free_balance(2), 1_000_000 - RESERVE);
}

#[test]
fn transfer_errors() {
    let mut p = new_test_ext();
    assert_eq!(create(&mut p, 1), Ok(()));
    assert_eq!(p.transfer(2, 3, 1), Err(Error::NotOwner));
    assert_eq!(p.transfer(1, 1, 1), Err(Error::SelfTransferNotAllowed));
    assert_eq!(p.transfer(1, 9, 1), Err(Error::InsufficientFunds));
    assert_eq!(p.owner(1), Some(1));
    assert_eq!(p.events().len(), 1);
}

#[test]
fn sale_sets_and_clears_price() {
    let mut p = new_test_ext();
    assert_eq!(create(&mut p, 1), Ok(()));
    assert_eq!(p.sale(2, 1, Some(10)), Err(Error::NotOwner));
    assert_eq!(p.sale(1, 1, Some(10)), Ok(()));
    assert_eq!(p.kitty_prices(1), Some(10));
    assert_eq!(p.sale(1, 1, None), Ok(()));
    assert_eq!(p.kitty_prices(1), None);
    assert_eq!(last_event(&p), Some(Event::Listed(1, 1, None)));
}

#[test]
fn listing_then_purchase_settles() {
    let mut p = new_test_ext();
    assert_eq!(create(&mut p, 1), Ok(()));
    assert_eq!(p.sale(1, 1, Some(500)), Ok(()));
    assert_eq!(p.buy(2, 1), Ok(()));
    assert_eq!(p.owner(1), Some(2));
    assert_eq!(p.kitty_prices(1), None);
    assert_eq!(last_event(&p), Some(Event::SaleCompleted(2, 1, 500)));
    assert_eq!(p.balances().free_balance(1), 1_000_000 + 500);
    assert_eq!(p.balances().reserved_balance(1), 0);
    assert_eq!(p.balances().free_balance(2), 1_000_000 - 500 - RESERVE);
    assert_eq!(p.balances().reserved_balance(2), RESERVE);
}

#[test]
fn buy_without_funds_changes_nothing() {
    let mut p = new_test_ext();
    assert_eq!(create(&mut p, 1), Ok(()));
    assert_eq!(p.sale(1, 1, Some(500)), Ok(()));
    assert_eq!(p.buy(9, 1), Err(Error::InsufficientFunds));
    assert_eq!(p.owner(1), Some(1));
    assert_eq!(p.kitty_prices(1), Some(500));
    assert_eq!(p.balances().free_balance(9), 10);
}

#[test]
fn buy_refused_when_buyer_would_fall_below_minimum() {
    let mut balances = Balances::new(1);
    balances.set_free_balance(1, 1_000_000);
    balances.set_free_balance(2, RESERVE + 500);
    let mut p = Pallet::new(balances, RESERVE);
    assert_eq!(create(&mut p, 1), Ok(()));
    assert_eq!(p.sale(1, 1, Some(500)), Ok(()));
    assert_eq!(p.buy(2, 1), Err(Error::TransferFailed));
    assert_eq!(p.owner(1), Some(1));
    assert_eq!(p.balances().free_balance(2), RESERVE + 500);
    assert_eq!(p.balances().reserved_balance(2), 0);
    assert_eq!(p.balances().reserved_balance(1), RESERVE);
}
