use margin_manager::manager::{Error, Manager, PositionType};
use margin_manager::primitives::AccountId;
use margin_manager::vault::Vault;

fn user() -> AccountId {
    AccountId::from([0x5; 32])
}

fn new_manager() -> Manager {
    Manager::new(Vault::new(AccountId::from([0x0; 32])))
}

#[test]
fn open_then_close_restores_totals() {
    let mut manager = new_manager();
    assert_eq!(manager.open_position(9, 4, PositionType::LONG, 2, AccountId::from([0x7; 32]), 3, 0), Ok(0));
    let before = manager.get_number_longs();

    let id = manager.open_position(1, 100, PositionType::LONG, 10, user(), 100, 0).unwrap();
    assert_eq!(manager.get_number_longs(), before + 10000);
    assert_eq!(manager.close_position(id, user()), Ok(()));

    assert_eq!(manager.get_number_longs(), before);
    assert_eq!(manager.get_position(user(), id), Err(Error::NotFound));
}

#[test]
fn second_close_fails_not_found() {
    let mut manager = new_manager();
    let id = manager.open_position(1, 100, PositionType::SHORT, 10, user(), 100, 0).unwrap();

    assert_eq!(manager.close_position(id, user()), Ok(()));
    assert_eq!(manager.close_position(id, user()), Err(Error::NotFound));
    assert_eq!(manager.get_number_shorts(), 0);
}

#[test]
fn balanced_market_has_zero_funding_rate() {
    let mut manager = new_manager();
    assert_eq!(manager.open_position(1, 10, PositionType::LONG, 3, user(), 50, 0), Ok(0));
    assert_eq!(manager.open_position(2, 25, PositionType::SHORT, 3, user(), 20, 0), Ok(1));
    assert_eq!(manager.get_number_longs(), manager.get_number_shorts());

    assert_eq!(manager.calculate_funding_rate(100, 100), Ok(0));
    assert_eq!(manager.calculate_funding_rate(100, 1000), Ok(0));
    assert_eq!(manager.calculate_funding_rate(1, 1_000_000), Ok(0));
}

#[test]
fn scenario_open_one_long() {
    let mut manager = new_manager();

    assert_eq!(manager.open_position(123, 1, PositionType::LONG, 10, user(), 100, 0), Ok(0));
    assert_eq!(manager.get_number_longs(), 100);
    assert_eq!(manager.get_position(user(), 0).unwrap().amount, 1);
}

#[test]
fn scenario_close_the_long() {
    let mut manager = new_manager();
    assert_eq!(manager.open_position(123, 1, PositionType::LONG, 10, user(), 100, 0), Ok(0));

    assert_eq!(manager.close_position(0, user()), Ok(()));
    assert_eq!(manager.get_number_longs(), 0);
    assert_eq!(manager.get_position(user(), 0), Err(Error::NotFound));
}

#[test]
fn scenario_fee_deduction() {
    let mut manager = new_manager();
    assert_eq!(manager.open_position(1, 100, PositionType::LONG, 10, user(), 100, 0), Ok(0));

    assert_eq!(manager.charge_fee(50, 0, user()), Ok(()));
    assert_eq!(manager.get_position(user(), 0).unwrap().amount, 50);

    let mut other = new_manager();
    assert_eq!(other.open_position(1, 100, PositionType::LONG, 10, user(), 100, 0), Ok(0));
    assert_eq!(other.charge_fee(150, 0, user()), Err(Error::Underflow));
    assert_eq!(other.get_position(user(), 0).unwrap().amount, 100);
}
