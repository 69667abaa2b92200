use margin_manager::primitives::AccountId;
use margin_manager::vault::{AddLiquidity, Error, UpdateLiquidity, Vault, VaultEvent, WithdrawLiquidity};

fn alice() -> AccountId {
    AccountId::from([0x1; 32])
}

fn bob() -> AccountId {
    AccountId::from([0x2; 32])
}

#[test]
fn add_liquidity_works() {
    let erc20 = AccountId::from([0x0; 32]);
    let mut vault = Vault::new(erc20);

    assert_eq!(vault.add_liquidity(123, 1, alice()), Ok(()));
    assert_eq!(vault.recorded_events().len(), 1);
    assert_eq!(vault.get_contributor_balance(alice(), 123), 1);
    assert_eq!(
        vault.recorded_events()[0],
        VaultEvent::Added(AddLiquidity { from: Some(alice()), token: 123, amount: 1 })
    );
}

#[test]
fn add_liquidity_fails() {
    let erc20 = AccountId::from([0x0; 32]);
    let mut vault = Vault::new(erc20);

    assert_eq!(vault.add_liquidity(123, 1, alice()), Ok(()));
    assert_eq!(vault.add_liquidity(123, 1, alice()), Err(Error::NonZeroAmount));
    assert_eq!(vault.recorded_events().len(), 1);
}

#[test]
fn update_liquidity_works() {
    let erc20 = AccountId::from([0x0; 32]);
    let mut vault = Vault::new(erc20);

    assert_eq!(vault.add_liquidity(123, 1, alice()), Ok(()));
    assert_eq!(vault.update_liquidity(123, 2, alice()), Ok(()));
    assert_eq!(vault.recorded_events().len(), 2);
    assert_eq!(vault.get_contributor_balance(alice(), 123), 3);
    assert_eq!(
        vault.recorded_events()[1],
        VaultEvent::Updated(UpdateLiquidity { from: Some(alice()), token: 123, amount: 2 })
    );
}

#[test]
fn update_liquidity_zero_amount_fails() {
    let erc20 = AccountId::from([0x0; 32]);
    let mut vault = Vault::new(erc20);

    assert_eq!(vault.update_liquidity(123, 1, alice()), Err(Error::ZeroAmount));
    assert_eq!(vault.recorded_events().len(), 0);
}

#[test]
fn remove_liquidity_works() {
    let erc20 = AccountId::from([0x0; 32]);
    let mut vault = Vault::new(erc20);

    assert_eq!(vault.remove_liquidity(123, alice()), Err(Error::ZeroAmount));
    assert_eq!(vault.recorded_events().len(), 0);
}

#[test]
fn remove_liquidity_fails() {
    let erc20 = AccountId::from([0x0; 32]);
    let mut vault = Vault::new(erc20);

    assert_eq!(vault.add_liquidity(123, 1, alice()), Ok(()));
    assert_eq!(vault.remove_liquidity(123, alice()), Ok(()));
    assert_eq!(vault.recorded_events().len(), 2);
    assert_eq!(vault.get_contributor_balance(alice(), 123), 0);
    assert_eq!(
        vault.recorded_events()[1],
        VaultEvent::Withdrawn(WithdrawLiquidity { from: Some(alice()), token: 123, amount: 1 })
    );
}

#[test]
fn vault_contract_creation_works() {
    let erc20 = AccountId::from([0x0; 32]);
    let vault = Vault::new(erc20);

    assert_eq!(vault.erc20_contract(), erc20);
}

#[test]
fn update_liquidity_overflow_fails() {
    let mut vault = Vault::new(AccountId::from([0x0; 32]));

    assert_eq!(vault.add_liquidity(7, u128::MAX, alice()), Ok(()));
    assert_eq!(vault.update_liquidity(7, 1, alice()), Err(Error::Overflow));
    assert_eq!(vault.get_contributor_balance(alice(), 7), u128::MAX);
}

#[test]
fn balances_are_per_account_and_token() {
    let mut vault = Vault::new(AccountId::from([0x0; 32]));

    assert_eq!(vault.add_liquidity(7, 5, alice()), Ok(()));
    assert_eq!(vault.add_liquidity(8, 6, alice()), Ok(()));
    assert_eq!(vault.add_liquidity(7, 9, bob()), Ok(()));
    assert_eq!(vault.get_contributor_balance(alice(), 7), 5);
    assert_eq!(vault.get_contributor_balance(alice(), 8), 6);
    assert_eq!(vault.get_contributor_balance(bob(), 7), 9);
    assert_eq!(vault.get_contributor_balance(bob(), 8), 0);
    assert_eq!(vault.remove_liquidity(7, alice()), Ok(()));
    assert_eq!(vault.get_contributor_balance(bob(), 7), 9);
    assert_eq!(vault.get_contributor_balance(alice(), 8), 6);
}
