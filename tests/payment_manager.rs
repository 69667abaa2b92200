use margin_manager::manager;
use margin_manager::manager::{Manager, PositionType};
use margin_manager::payment_manager::{
    Error, MaintenanceFeeCollected, Outcome, PaymentEvent, PaymentManager, PositionLiquidated,
    PositionUpdated,
};
use margin_manager::primitives::AccountId;
use margin_manager::vault::Vault;

fn alice() -> AccountId {
    AccountId::from([0x1; 32])
}

fn manager_with(amount: u128, position_type: PositionType, leverage: u32, entry_price: u128) -> Manager {
    let mut manager = Manager::new(Vault::new(AccountId::from([0x0; 32])));
    assert_eq!(manager.open_position(1, amount, position_type, leverage, alice(), entry_price, 0), Ok(0));
    manager
}

#[test]
fn lib_contract_creation_works() {
    let payment_manager = PaymentManager::new(10);

    assert_eq!(payment_manager.maintenance_fee(), 10);
    assert_eq!(payment_manager.recorded_events().len(), 0);
}

#[test]
fn collect_fee_works() {
    let position_id = 0;
    let mut manager = manager_with(100, PositionType::LONG, 10, 100);
    let mut payment_manager = PaymentManager::new(10);

    assert_eq!(payment_manager.collect_fee(&mut manager, position_id, alice()), Ok(()));
    assert_eq!(payment_manager.recorded_events().len(), 1);
    assert_eq!(
        payment_manager.recorded_events()[0],
        PaymentEvent::FeeCollected(MaintenanceFeeCollected { from: Some(alice()), position_id, fee: 10 })
    );
    assert_eq!(manager.get_position(alice(), position_id).unwrap().amount, 90);
    assert_eq!(manager.get_number_longs(), 9000);
}

#[test]
fn lib_update_position_works() {
    let position_id = 0;
    let mut manager = manager_with(100, PositionType::LONG, 10, 100);
    let mut payment_manager = PaymentManager::new(10);

    assert_eq!(
        payment_manager.update_position(&mut manager, position_id, alice(), 100),
        Ok(Outcome::FeeCollected)
    );
    assert_eq!(payment_manager.recorded_events().len(), 2);
    assert_eq!(
        payment_manager.recorded_events()[1],
        PaymentEvent::Reviewed(PositionUpdated { from: Some(alice()), position_id })
    );
    assert_eq!(manager.get_position(alice(), position_id).unwrap().amount, 90);
}

#[test]
fn long_position_is_liquidated() {
    let mut manager = manager_with(1, PositionType::LONG, 10, 100);
    let mut payment_manager = PaymentManager::new(10);

    // deposit 100, entry value 1000, real value 900: the loss equals the deposit
    assert_eq!(payment_manager.update_position(&mut manager, 0, alice(), 90), Ok(Outcome::Liquidated));
    assert_eq!(
        payment_manager.recorded_events()[0],
        PaymentEvent::Liquidated(PositionLiquidated { from: Some(alice()), position_id: 0 })
    );
    assert_eq!(manager.get_position(alice(), 0), Err(manager::Error::NotFound));
    assert_eq!(manager.get_number_longs(), 0);
    assert_eq!(manager.vault().get_contributor_balance(alice(), 1), 0);
}

#[test]
fn short_position_is_liquidated() {
    let mut manager = manager_with(1, PositionType::SHORT, 10, 100);
    let mut payment_manager = PaymentManager::new(10);

    assert_eq!(payment_manager.update_position(&mut manager, 0, alice(), 110), Ok(Outcome::Liquidated));
    assert_eq!(manager.get_number_shorts(), 0);
}

#[test]
fn review_of_long_in_profit_fails_underflow() {
    let mut manager = manager_with(100, PositionType::LONG, 10, 100);
    let mut payment_manager = PaymentManager::new(10);

    assert_eq!(payment_manager.update_position(&mut manager, 0, alice(), 120), Err(Error::Underflow));
    assert_eq!(payment_manager.recorded_events().len(), 0);
    assert_eq!(manager.get_position(alice(), 0).unwrap().amount, 100);
}

#[test]
fn review_of_missing_position_fails() {
    let mut manager = manager_with(100, PositionType::LONG, 10, 100);
    let mut payment_manager = PaymentManager::new(10);

    assert_eq!(payment_manager.update_position(&mut manager, 3, alice(), 100), Err(Error::NotFound));
}

#[test]
fn fee_larger_than_margin_fails() {
    let mut manager = manager_with(5, PositionType::LONG, 10, 100);
    let mut payment_manager = PaymentManager::new(10);

    assert_eq!(
        payment_manager.update_position(&mut manager, 0, alice(), 100),
        Err(Error::Ledger(manager::Error::Underflow))
    );
    assert_eq!(payment_manager.recorded_events().len(), 0);
    assert_eq!(manager.get_position(alice(), 0).unwrap().amount, 5);
}

#[test]
fn liquidation_check_values() {
    let payment_manager = PaymentManager::new(10);

    assert_eq!(payment_manager.check_liquidation(1, 100, 10, PositionType::LONG, 90), Ok(true));
    assert_eq!(payment_manager.check_liquidation(1, 100, 10, PositionType::LONG, 95), Ok(false));
    assert_eq!(payment_manager.check_liquidation(1, 100, 10, PositionType::LONG, 101), Err(Error::Underflow));
    assert_eq!(payment_manager.check_liquidation(1, 100, 10, PositionType::SHORT, 110), Ok(true));
    assert_eq!(payment_manager.check_liquidation(1, 100, 10, PositionType::SHORT, 99), Err(Error::Underflow));
    assert_eq!(
        payment_manager.check_liquidation(u128::MAX, 2, 1, PositionType::LONG, 1),
        Err(Error::Overflow)
    );
}

#[test]
fn liquidation_of_missing_position_fails() {
    let mut manager = manager_with(5, PositionType::LONG, 10, 100);
    let mut payment_manager = PaymentManager::new(10);

    assert_eq!(
        payment_manager.liquidation(&mut manager, 9, alice()),
        Err(Error::Ledger(manager::Error::NotFound))
    );
    assert_eq!(payment_manager.liquidation(&mut manager, 0, alice()), Ok(()));
    assert_eq!(manager.get_number_longs(), 0);
}
