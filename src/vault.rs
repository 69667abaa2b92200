use vstd::prelude::*;

use crate::keyed::{
    Keyed,
    find,
    keys_unique,
    lemma_table_map_push,
    lemma_table_map_remove,
    lemma_table_map_update,
    table_map,
};
use crate::primitives::{AccountId, Balance, TokenId};

verus! {

/// Errors of the vault.
#[derive(Debug, Clone, Copy, PartialEq, Eq, Structural)]
pub enum Error {
    /// A balance would exceed the representable range.
    Overflow,
    /// A balance would go below zero.
    Underflow,
    /// The account holds nothing of the token.
    ZeroAmount,
    /// The account already holds some of the token.
    NonZeroAmount,
}

/// Notification: an account deposited an amount of a token.
#[derive(Debug, Clone, Copy, PartialEq, Eq)]
pub struct AddLiquidity {
    pub from: Option<AccountId>,
    pub token: TokenId,
    pub amount: Balance,
}

/// Notification: an account topped up its deposit of a token by an amount.
#[derive(Debug, Clone, Copy, PartialEq, Eq)]
pub struct UpdateLiquidity {
    pub from: Option<AccountId>,
    pub token: TokenId,
    pub amount: Balance,
}

/// Notification: an account withdrew its whole deposit of a token.
#[derive(Debug, Clone, Copy, PartialEq, Eq)]
pub struct WithdrawLiquidity {
    pub from: Option<AccountId>,
    pub token: TokenId,
    pub amount: Balance,
}

/// The notifications of the vault, in the order of the operations that
/// committed them. The host turns each into the matching token transfer.
#[derive(Debug, Clone, Copy, PartialEq, Eq)]
pub enum VaultEvent {
    Added(AddLiquidity),
    Updated(UpdateLiquidity),
    Withdrawn(WithdrawLiquidity),
}

/// Custody of deposits: one balance per account and token.
pub struct Vault {
    contributors: Vec<Keyed<Balance>>,
    erc20contract: AccountId,
    events: Vec<VaultEvent>,
}

/// What a vault holds, as mathematical values.
pub struct VaultView {
    pub balances: Map<(AccountId, TokenId), Balance>,
    pub erc20contract: AccountId,
    pub events: Seq<VaultEvent>,
}

impl VaultView {
    /// The deposit of `user` in `token`; zero when there is none.
    pub open spec fn balance(self, user: AccountId, token: TokenId) -> Balance {
        if self.balances.contains_key((user, token)) {
            self.balances[(user, token)]
        } else {
            0
        }
    }

    /// The vault after a first deposit, or why it is refused.
    pub open spec fn add_spec(self, token: TokenId, amount: Balance, user: AccountId) -> Result<
        VaultView,
        Error,
    > {
        if self.balance(user, token) > 0 {
            Err(Error::NonZeroAmount)
        } else {
            Ok(
                VaultView {
                    balances: self.balances.insert((user, token), amount),
                    erc20contract: self.erc20contract,
                    events: self.events.push(
                        VaultEvent::Added(AddLiquidity { from: Some(user), token, amount }),
                    ),
                },
            )
        }
    }

    /// The vault after a top-up of an existing deposit, or why it is refused.
    pub open spec fn update_spec(self, token: TokenId, amount: Balance, user: AccountId) -> Result<
        VaultView,
        Error,
    > {
        let current = self.balance(user, token);
        if current == 0 {
            Err(Error::ZeroAmount)
        } else if current + amount > u128::MAX {
            Err(Error::Overflow)
        } else {
            Ok(
                VaultView {
                    balances: self.balances.insert((user, token), (current + amount) as u128),
                    erc20contract: self.erc20contract,
                    events: self.events.push(
                        VaultEvent::Updated(UpdateLiquidity { from: Some(user), token, amount }),
                    ),
                },
            )
        }
    }

    /// The vault after the whole deposit is withdrawn, or why it is refused.
    pub open spec fn remove_spec(self, token: TokenId, user: AccountId) -> Result<VaultView, Error> {
        let current = self.balance(user, token);
        if current == 0 {
            Err(Error::ZeroAmount)
        } else {
            Ok(
                VaultView {
                    balances: self.balances.remove((user, token)),
                    erc20contract: self.erc20contract,
                    events: self.events.push(
                        VaultEvent::Withdrawn(
                            WithdrawLiquidity { from: Some(user), token, amount: current },
                        ),
                    ),
                },
            )
        }
    }
}

impl View for Vault {
    type V = VaultView;

    closed spec fn view(&self) -> VaultView {
        VaultView {
            balances: table_map(self.contributors@),
            erc20contract: self.erc20contract,
            events: self.events@,
        }
    }
}

impl Vault {
    /// The internal table has one row per account and token.
    pub closed spec fn wf(&self) -> bool {
        keys_unique(self.contributors@)
    }

    /// An empty vault whose deposits are held in the given token contract.
    pub fn new(erc20_contract_address: AccountId) -> (r: Vault)
        ensures
            r.wf(),
            r@.balances == Map::<(AccountId, TokenId), Balance>::empty(),
            r@.erc20contract == erc20_contract_address,
            r@.events == Seq::<VaultEvent>::empty(),
    {
        let r = Vault { contributors: Vec::new(), erc20contract: erc20_contract_address, events: Vec::new() };
        assert(table_map(r.contributors@) =~= Map::<(AccountId, TokenId), Balance>::empty());
        r
    }

    /// Records a first deposit of `amount` of `token` by `user`. Refused
    /// with `NonZeroAmount` while the account already holds some of it.
    pub fn add_liquidity(&mut self, token: TokenId, amount: Balance, user: AccountId) -> (r: Result<
        (),
        Error,
    >)
        requires
            old(self).wf(),
        ensures
            final(self).wf(),
            match old(self)@.add_spec(token, amount, user) {
                Ok(v) => r == Ok::<(), Error>(()) && final(self)@ == v,
                Err(e) => r == Err::<(), Error>(e) && final(self)@ == old(self)@,
            },
    {
        let row = Keyed { owner: user, key: token, value: amount };
        match find(&self.contributors, &user, token) {
            Some(i) => {
                if self.contributors[i].value > 0 {
                    return Err(Error::NonZeroAmount);
                }
                proof {
                    lemma_table_map_update(self.contributors@, i as int, row);
                }
                self.contributors.set(i, row);
            },
            None => {
                proof {
                    lemma_table_map_push(self.contributors@, row);
                }
                self.contributors.push(row);
            },
        }
        self.events.push(VaultEvent::Added(AddLiquidity { from: Some(user), token, amount }));
        Ok(())
    }

    /// Adds `new_amount` to the deposit of `token` held for `user`. Refused
    /// with `ZeroAmount` when there is no deposit, and with `Overflow` when
    /// the sum does not fit.
    pub fn update_liquidity(&mut self, token: TokenId, new_amount: Balance, user: AccountId) -> (r:
        Result<(), Error>)
        requires
            old(self).wf(),
        ensures
            final(self).wf(),
            match old(self)@.update_spec(token, new_amount, user) {
                Ok(v) => r == Ok::<(), Error>(()) && final(self)@ == v,
                Err(e) => r == Err::<(), Error>(e) && final(self)@ == old(self)@,
            },
    {
        let i = match find(&self.contributors, &user, token) {
            Some(i) => i,
            None => return Err(Error::ZeroAmount),
        };
        let current = self.contributors[i].value;
        if current == 0 {
            return Err(Error::ZeroAmount);
        }
        let total = match new_amount.checked_add(current) {
            Some(t) => t,
            None => return Err(Error::Overflow),
        };
        let row = Keyed { owner: user, key: token, value: total };
        proof {
            lemma_table_map_update(self.contributors@, i as int, row);
        }
        self.contributors.set(i, row);
        self.events.push(
            VaultEvent::Updated(UpdateLiquidity { from: Some(user), token, amount: new_amount }),
        );
        Ok(())
    }

    /// Withdraws the whole deposit of `token` held for `user`. Refused with
    /// `ZeroAmount` when there is none.
    pub fn remove_liquidity(&mut self, token: TokenId, user: AccountId) -> (r: Result<(), Error>)
        requires
            old(self).wf(),
        ensures
            final(self).wf(),
            match old(self)@.remove_spec(token, user) {
                Ok(v) => r == Ok::<(), Error>(()) && final(self)@ == v,
                Err(e) => r == Err::<(), Error>(e) && final(self)@ == old(self)@,
            },
    {
        let i = match find(&self.contributors, &user, token) {
            Some(i) => i,
            None => return Err(Error::ZeroAmount),
        };
        let current = self.contributors[i].value;
        if current == 0 {
            return Err(Error::ZeroAmount);
        }
        proof {
            lemma_table_map_remove(self.contributors@, i as int);
        }
        self.contributors.remove(i);
        self.events.push(
            VaultEvent::Withdrawn(WithdrawLiquidity { from: Some(user), token, amount: current }),
        );
        Ok(())
    }

    /// The deposit of `token` held for `account`; zero when there is none.
    pub fn get_contributor_balance(&self, account: AccountId, token: TokenId) -> (r: Balance)
        requires
            self.wf(),
        ensures
            r == self@.balance(account, token),
    {
        match find(&self.contributors, &account, token) {
            Some(i) => self.contributors[i].value,
            None => 0,
        }
    }

    /// The token contract that the deposits are held in.
    pub fn erc20_contract(&self) -> (r: AccountId)
        ensures
            r == self@.erc20contract,
    {
        self.erc20contract
    }

    /// The notifications committed so far, oldest first.
    pub fn recorded_events(&self) -> (r: &Vec<VaultEvent>)
        ensures
            r@ == self@.events,
    {
        &self.events
    }
}

} // verus!
