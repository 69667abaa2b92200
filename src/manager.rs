use vstd::prelude::*;
use vstd::arithmetic::mul::{
    lemma_mul_inequality,
    lemma_mul_is_distributive_add_other_way,
    lemma_mul_is_distributive_sub_other_way,
    lemma_mul_nonnegative,
};

use crate::funding::{funding_rate, funding_rate_spec};
use crate::keyed::{
    Keyed,
    find,
    key_of,
    keys_unique,
    lemma_table_map_index,
    lemma_table_map_push,
    lemma_table_map_remove,
    lemma_table_map_update,
    table_map,
};
use crate::primitives::{AccountId, Balance, PositionId, TokenId};
use crate::vault;
use crate::vault::{Vault, VaultView};

verus! {

/// Errors of the position ledger.
#[derive(Debug, Clone, Copy, PartialEq, Eq, Structural)]
pub enum Error {
    /// A counter or a sum exceeds the representable range.
    Overflow,
    /// A subtraction would go below zero.
    Underflow,
    /// No active position under the given owner and id.
    NotFound,
    /// The slot for the next id already holds an active position.
    DuplicateOpen,
    /// A position cannot be opened with a zero amount.
    ZeroAmount,
    /// A division whose divisor is zero (no open interest, or a zero spot price).
    DivByZero,
    /// The vault refused the collateral operation.
    Vault(vault::Error),
}

/// Direction of a position.
#[allow(non_camel_case_types)]
#[derive(Debug, Clone, Copy, PartialEq, Eq, Structural)]
pub enum PositionType {
    LONG,
    SHORT,
}

/// One margin trade.
#[derive(Debug, Clone, Copy, PartialEq, Eq, Structural)]
pub struct Position {
    /// Always `true`: a position in the ledger is active.
    pub state: bool,
    pub token: TokenId,
    /// Margin committed; positive while the position is active.
    pub amount: Balance,
    pub position_type: PositionType,
    /// Multiplier of the exposure; at least 1.
    pub leverage: u32,
    /// Price snapshot taken when the position was opened.
    pub entry_price: Balance,
    /// Timestamp snapshot taken when the position was opened.
    pub creation_time: u128,
}

/// Notification: a position was opened.
#[derive(Debug, Clone, Copy, PartialEq, Eq)]
pub struct PositionOpened {
    pub from: Option<AccountId>,
    pub position_id: PositionId,
    pub amount: Balance,
}

/// Notification: a position was closed.
#[derive(Debug, Clone, Copy, PartialEq, Eq)]
pub struct PositionClosed {
    pub from: Option<AccountId>,
    pub position_id: PositionId,
}

/// Notification: the amount of a position changed; `amount` is the new one.
#[derive(Debug, Clone, Copy, PartialEq, Eq)]
pub struct PositionUpdated {
    pub from: Option<AccountId>,
    pub position_id: PositionId,
    pub amount: Balance,
}

/// The notifications of the ledger, in the order of the operations that
/// committed them.
#[derive(Debug, Clone, Copy, PartialEq, Eq)]
pub enum Event {
    Opened(PositionOpened),
    Closed(PositionClosed),
    Updated(PositionUpdated),
}

/// Notional value of a position: amount times entry price.
pub open spec fn notional(p: Position) -> int {
    p.amount * p.entry_price
}

/// Notional value of a position counted on one side of the market.
pub open spec fn side_notional(p: Position, side: PositionType) -> int {
    if p.position_type == side {
        notional(p)
    } else {
        0
    }
}

/// Sum of the notional values of the rows on one side of the market.
pub open spec fn side_total(s: Seq<Keyed<Position>>, side: PositionType) -> int
    decreases s.len(),
{
    if s.len() == 0 {
        0
    } else {
        side_total(s.drop_last(), side) + side_notional(s.last().value, side)
    }
}

proof fn lemma_side_total_nonneg(s: Seq<Keyed<Position>>, side: PositionType)
    ensures
        side_total(s, side) >= 0,
    decreases s.len(),
{
    if s.len() > 0 {
        lemma_side_total_nonneg(s.drop_last(), side);
        let p = s.last().value;
        lemma_mul_nonnegative(p.amount as int, p.entry_price as int);
    }
}

proof fn lemma_side_total_push(s: Seq<Keyed<Position>>, e: Keyed<Position>, side: PositionType)
    ensures
        side_total(s.push(e), side) == side_total(s, side) + side_notional(e.value, side),
{
    assert(s.push(e).drop_last() =~= s);
}

proof fn lemma_side_total_remove(s: Seq<Keyed<Position>>, i: int, side: PositionType)
    requires
        0 <= i < s.len(),
    ensures
        side_total(s.remove(i), side) == side_total(s, side) - side_notional(s[i].value, side),
    decreases s.len(),
{
    let d = s.drop_last();
    if i == s.len() - 1 {
        assert(s.remove(i) =~= d);
    } else {
        lemma_side_total_remove(d, i, side);
        assert(s.remove(i).drop_last() =~= d.remove(i));
        assert(s.remove(i).last() == s.last());
        assert(d[i] == s[i]);
    }
}

proof fn lemma_side_total_update(
    s: Seq<Keyed<Position>>,
    i: int,
    e: Keyed<Position>,
    side: PositionType,
)
    requires
        0 <= i < s.len(),
    ensures
        side_total(s.update(i, e), side) == side_total(s, side) - side_notional(s[i].value, side)
            + side_notional(e.value, side),
    decreases s.len(),
{
    let d = s.drop_last();
    if i == s.len() - 1 {
        assert(s.update(i, e).drop_last() =~= d);
    } else {
        lemma_side_total_update(d, i, e, side);
        assert(s.update(i, e).drop_last() =~= d.update(i, e));
        assert(d[i] == s[i]);
    }
}

/// One row counts for no more than the whole of its side.
proof fn lemma_side_total_bounds(s: Seq<Keyed<Position>>, i: int, side: PositionType)
    requires
        0 <= i < s.len(),
    ensures
        0 <= side_notional(s[i].value, side) <= side_total(s, side),
{
    lemma_side_total_remove(s, i, side);
    lemma_side_total_nonneg(s.remove(i), side);
    lemma_mul_nonnegative(s[i].value.amount as int, s[i].value.entry_price as int);
}

/// What a ledger holds, as mathematical values.
pub struct LedgerView {
    /// Active positions by owner and id.
    pub positions: Map<(AccountId, PositionId), Position>,
    /// The id that the next opened position receives.
    pub next_id: PositionId,
    pub long_total: Balance,
    pub short_total: Balance,
    pub events: Seq<Event>,
    pub vault: VaultView,
}

impl LedgerView {
    /// The open-interest total of one side.
    pub open spec fn total_of(self, side: PositionType) -> Balance {
        match side {
            PositionType::LONG => self.long_total,
            PositionType::SHORT => self.short_total,
        }
    }

    /// Every active position has an id below the counter, a positive amount
    /// and a leverage of at least 1.
    pub open spec fn positions_valid(self) -> bool {
        forall|k: (AccountId, PositionId)| #[trigger]
            self.positions.contains_key(k) ==> {
                &&& k.1 < self.next_id
                &&& self.positions[k].state
                &&& self.positions[k].amount > 0
                &&& self.positions[k].leverage >= 1
            }
    }

    /// The ledger after opening a position, or why the open is refused.
    /// The new position gets the id `next_id`, and the vault receives the
    /// amount as a first deposit of the token.
    pub open spec fn open_spec(
        self,
        token: TokenId,
        amount: Balance,
        position_type: PositionType,
        leverage: u32,
        user: AccountId,
        entry_price: Balance,
        timestamp: u64,
    ) -> Result<LedgerView, Error> {
        let position = Position {
            state: true,
            token,
            amount,
            position_type,
            leverage,
            entry_price,
            creation_time: timestamp as u128,
        };
        let total = self.total_of(position_type) + notional(position);
        if self.positions.contains_key((user, self.next_id)) {
            Err(Error::DuplicateOpen)
        } else if amount == 0 {
            Err(Error::ZeroAmount)
        } else if self.next_id == u128::MAX {
            Err(Error::Overflow)
        } else if notional(position) > u128::MAX || total > u128::MAX {
            Err(Error::Overflow)
        } else {
            match self.vault.add_spec(token, amount, user) {
                Err(e) => Err(Error::Vault(e)),
                Ok(vault) => Ok(
                    LedgerView {
                        positions: self.positions.insert((user, self.next_id), position),
                        next_id: (self.next_id + 1) as u128,
                        long_total: if position_type == PositionType::LONG {
                            total as u128
                        } else {
                            self.long_total
                        },
                        short_total: if position_type == PositionType::SHORT {
                            total as u128
                        } else {
                            self.short_total
                        },
                        events: self.events.push(
                            Event::Opened(
                                PositionOpened {
                                    from: Some(user),
                                    position_id: self.next_id,
                                    amount,
                                },
                            ),
                        ),
                        vault,
                    },
                ),
            }
        }
    }

    /// The ledger after closing a position, or why the close is refused.
    /// The side's total drops by the position's notional value and the
    /// vault releases the deposit of the token.
    pub open spec fn close_spec(self, user: AccountId, position_id: PositionId) -> Result<
        LedgerView,
        Error,
    > {
        let key = (user, position_id);
        let p = self.positions[key];
        if !self.positions.contains_key(key) {
            Err(Error::NotFound)
        } else {
            match self.vault.remove_spec(p.token, user) {
                Err(e) => Err(Error::Vault(e)),
                Ok(vault) => Ok(
                    LedgerView {
                        positions: self.positions.remove(key),
                        next_id: self.next_id,
                        long_total: if p.position_type == PositionType::LONG {
                            (self.long_total - notional(p)) as u128
                        } else {
                            self.long_total
                        },
                        short_total: if p.position_type == PositionType::SHORT {
                            (self.short_total - notional(p)) as u128
                        } else {
                            self.short_total
                        },
                        events: self.events.push(
                            Event::Closed(PositionClosed { from: Some(user), position_id }),
                        ),
                        vault,
                    },
                ),
            }
        }
    }

    /// The ledger after a top-up of `delta` on a position, or why it is
    /// refused. The side's total grows by `delta` times the entry price and
    /// the vault receives `delta` on the deposit of the token.
    pub open spec fn top_up_spec(self, delta: Balance, user: AccountId, position_id: PositionId) -> Result<
        LedgerView,
        Error,
    > {
        let key = (user, position_id);
        let p = self.positions[key];
        let amount = p.amount + delta;
        let total = self.total_of(p.position_type) + delta * p.entry_price;
        if !self.positions.contains_key(key) {
            Err(Error::NotFound)
        } else if amount > u128::MAX || delta * p.entry_price > u128::MAX || total > u128::MAX {
            Err(Error::Overflow)
        } else {
            match self.vault.update_spec(p.token, delta, user) {
                Err(e) => Err(Error::Vault(e)),
                Ok(vault) => Ok(
                    LedgerView {
                        positions: self.positions.insert(key, Position { amount: amount as u128, ..p }),
                        next_id: self.next_id,
                        long_total: if p.position_type == PositionType::LONG {
                            total as u128
                        } else {
                            self.long_total
                        },
                        short_total: if p.position_type == PositionType::SHORT {
                            total as u128
                        } else {
                            self.short_total
                        },
                        events: self.events.push(
                            Event::Updated(
                                PositionUpdated {
                                    from: Some(user),
                                    position_id,
                                    amount: amount as u128,
                                },
                            ),
                        ),
                        vault,
                    },
                ),
            }
        }
    }

    /// The ledger after deducting `fee` from a position, or why it is
    /// refused. The fee must leave a positive amount; the side's total drops
    /// by `fee` times the entry price. The vault is not involved.
    pub open spec fn fee_spec(self, fee: Balance, user: AccountId, position_id: PositionId) -> Result<
        LedgerView,
        Error,
    > {
        let key = (user, position_id);
        let p = self.positions[key];
        let amount = p.amount - fee;
        let total = self.total_of(p.position_type) - fee * p.entry_price;
        if !self.positions.contains_key(key) {
            Err(Error::NotFound)
        } else if fee >= p.amount {
            Err(Error::Underflow)
        } else {
            Ok(
                LedgerView {
                    positions: self.positions.insert(key, Position { amount: amount as u128, ..p }),
                    next_id: self.next_id,
                    long_total: if p.position_type == PositionType::LONG {
                        total as u128
                    } else {
                        self.long_total
                    },
                    short_total: if p.position_type == PositionType::SHORT {
                        total as u128
                    } else {
                        self.short_total
                    },
                    events: self.events.push(
                        Event::Updated(
                            PositionUpdated { from: Some(user), position_id, amount: amount as u128 },
                        ),
                    ),
                    vault: self.vault,
                },
            )
        }
    }
}

/// Opening a position and closing it right after leaves both open-interest
/// totals and the active positions as they were before the open; the
/// position can no longer be found.
pub proof fn lemma_open_then_close_restores(
    v: LedgerView,
    token: TokenId,
    amount: Balance,
    position_type: PositionType,
    leverage: u32,
    user: AccountId,
    entry_price: Balance,
    timestamp: u64,
)
    requires
        v.open_spec(token, amount, position_type, leverage, user, entry_price, timestamp) is Ok,
    ensures
        ({
            let opened = v.open_spec(
                token,
                amount,
                position_type,
                leverage,
                user,
                entry_price,
                timestamp,
            )->Ok_0;
            &&& opened.close_spec(user, v.next_id) is Ok
            &&& opened.close_spec(user, v.next_id)->Ok_0.long_total == v.long_total
            &&& opened.close_spec(user, v.next_id)->Ok_0.short_total == v.short_total
            &&& opened.close_spec(user, v.next_id)->Ok_0.positions == v.positions
            &&& !opened.close_spec(user, v.next_id)->Ok_0.positions.contains_key((user, v.next_id))
        }),
{
    let opened = v.open_spec(token, amount, position_type, leverage, user, entry_price, timestamp)->Ok_0;
    let closed = opened.close_spec(user, v.next_id)->Ok_0;
    assert(opened.vault.balance(user, token) == amount);
    assert(closed.positions =~= v.positions);
}

/// Closing the same position twice: when the first close succeeds, the
/// second one fails with `NotFound`.
pub proof fn lemma_close_twice(v: LedgerView, user: AccountId, position_id: PositionId)
    requires
        v.close_spec(user, position_id) is Ok,
    ensures
        v.close_spec(user, position_id)->Ok_0.close_spec(user, position_id) == Err::<
            LedgerView,
            Error,
        >(Error::NotFound),
{
}

/// Opening into a slot that already holds an active position of the same
/// owner under the next id is refused with `DuplicateOpen`; on a refusal
/// `open_position` leaves the ledger as it was.
pub proof fn lemma_duplicate_open_refused(
    v: LedgerView,
    token: TokenId,
    amount: Balance,
    position_type: PositionType,
    leverage: u32,
    user: AccountId,
    entry_price: Balance,
    timestamp: u64,
)
    requires
        v.positions.contains_key((user, v.next_id)),
    ensures
        v.open_spec(token, amount, position_type, leverage, user, entry_price, timestamp) == Err::<
            LedgerView,
            Error,
        >(Error::DuplicateOpen),
{
}

/// The position ledger with its open-interest totals. It owns the vault
/// that holds the collateral of its positions.
pub struct Manager {
    positions: Vec<Keyed<Position>>,
    position_id: PositionId,
    vault: Vault,
    long_total: Balance,
    short_total: Balance,
    events: Vec<Event>,
}

impl View for Manager {
    type V = LedgerView;

    closed spec fn view(&self) -> LedgerView {
        LedgerView {
            positions: table_map(self.positions@),
            next_id: self.position_id,
            long_total: self.long_total,
            short_total: self.short_total,
            events: self.events@,
            vault: self.vault@,
        }
    }
}

impl Manager {
    /// The rows of the ledger, in the order in which they were opened.
    pub closed spec fn records(&self) -> Seq<Keyed<Position>> {
        self.positions@
    }

    /// The vault that the ledger drives.
    pub closed spec fn vault_spec(&self) -> Vault {
        self.vault
    }

    /// Well-formedness. The rows have unique keys and describe the
    /// positions; every active position is valid; and each open-interest
    /// total is the sum of the notional values of the active positions on
    /// its side.
    pub open spec fn wf(&self) -> bool {
        &&& keys_unique(self.records())
        &&& self@.positions == table_map(self.records())
        &&& self@.positions_valid()
        &&& self.vault_spec().wf()
        &&& self@.vault == self.vault_spec()@
        &&& self@.long_total == side_total(self.records(), PositionType::LONG)
        &&& self@.short_total == side_total(self.records(), PositionType::SHORT)
    }

    /// An empty ledger driving the given vault.
    pub fn new(vault: Vault) -> (r: Manager)
        requires
            vault.wf(),
        ensures
            r.wf(),
            r@.positions == Map::<(AccountId, PositionId), Position>::empty(),
            r@.next_id == 0,
            r@.long_total == 0,
            r@.short_total == 0,
            r@.events == Seq::<Event>::empty(),
            r@.vault == vault@,
    {
        let r = Manager {
            positions: Vec::new(),
            position_id: 0,
            vault,
            long_total: 0,
            short_total: 0,
            events: Vec::new(),
        };
        assert(table_map(r.positions@) =~= Map::<(AccountId, PositionId), Position>::empty());
        r
    }

    /// Opens a position of `amount` on `token` for `user` at `entry_price`,
    /// stamped with `timestamp`, and returns its id. All or nothing: when the
    /// vault refuses the deposit, the ledger is left as it was.
    pub fn open_position(
        &mut self,
        token: TokenId,
        amount: Balance,
        position_type: PositionType,
        leverage: u32,
        user: AccountId,
        entry_price: Balance,
        timestamp: u64,
    ) -> (r: Result<PositionId, Error>)
        requires
            old(self).wf(),
            leverage >= 1,
        ensures
            final(self).wf(),
            match old(self)@.open_spec(
                token,
                amount,
                position_type,
                leverage,
                user,
                entry_price,
                timestamp,
            ) {
                Ok(v) => r == Ok::<PositionId, Error>(old(self)@.next_id) && final(self)@ == v,
                Err(e) => r == Err::<PositionId, Error>(e) && final(self)@ == old(self)@,
            },
    {
        let id = self.position_id;
        if find(&self.positions, &user, id).is_some() {
            return Err(Error::DuplicateOpen);
        }
        if amount == 0 {
            return Err(Error::ZeroAmount);
        }
        let next = match id.checked_add(1) {
            Some(n) => n,
            None => return Err(Error::Overflow),
        };
        let value = match amount.checked_mul(entry_price) {
            Some(v) => v,
            None => return Err(Error::Overflow),
        };
        let (long_total, short_total) = match position_type {
            PositionType::LONG => match self.long_total.checked_add(value) {
                Some(t) => (t, self.short_total),
                None => return Err(Error::Overflow),
            },
            PositionType::SHORT => match self.short_total.checked_add(value) {
                Some(t) => (self.long_total, t),
                None => return Err(Error::Overflow),
            },
        };
        match self.vault.add_liquidity(token, amount, user) {
            Ok(()) => {},
            Err(e) => return Err(Error::Vault(e)),
        }
        let position = Position {
            state: true,
            token,
            amount,
            position_type,
            leverage,
            entry_price,
            creation_time: timestamp as u128,
        };
        let row = Keyed { owner: user, key: id, value: position };
        proof {
            lemma_table_map_push(self.positions@, row);
            lemma_side_total_push(self.positions@, row, PositionType::LONG);
            lemma_side_total_push(self.positions@, row, PositionType::SHORT);
        }
        self.positions.push(row);
        self.position_id = next;
        self.long_total = long_total;
        self.short_total = short_total;
        self.events.push(Event::Opened(PositionOpened { from: Some(user), position_id: id, amount }));
        Ok(id)
    }

    /// Closes the position `position_id` of `user`: removes it, takes its
    /// notional value off its side's total and has the vault release the
    /// deposit. All or nothing.
    pub fn close_position(&mut self, position_id: PositionId, user: AccountId) -> (r: Result<
        (),
        Error,
    >)
        requires
            old(self).wf(),
        ensures
            final(self).wf(),
            match old(self)@.close_spec(user, position_id) {
                Ok(v) => r == Ok::<(), Error>(()) && final(self)@ == v,
                Err(e) => r == Err::<(), Error>(e) && final(self)@ == old(self)@,
            },
    {
        let i = match find(&self.positions, &user, position_id) {
            Some(i) => i,
            None => return Err(Error::NotFound),
        };
        let position = self.positions[i].value;
        match self.vault.remove_liquidity(position.token, user) {
            Ok(()) => {},
            Err(e) => return Err(Error::Vault(e)),
        }
        proof {
            lemma_table_map_remove(self.positions@, i as int);
            lemma_side_total_remove(self.positions@, i as int, PositionType::LONG);
            lemma_side_total_remove(self.positions@, i as int, PositionType::SHORT);
            lemma_side_total_bounds(self.positions@, i as int, position.position_type);
        }
        let value = position.amount * position.entry_price;
        match position.position_type {
            PositionType::LONG => {
                self.long_total = self.long_total - value;
            },
            PositionType::SHORT => {
                self.short_total = self.short_total - value;
            },
        }
        self.positions.remove(i);
        self.events.push(Event::Closed(PositionClosed { from: Some(user), position_id }));
        Ok(())
    }

    /// Tops up the position `position_id` of `user` by `updated_amount`,
    /// which the vault receives on the deposit of the token. All or
    /// nothing.
    pub fn update_position(
        &mut self,
        updated_amount: Balance,
        position_id: PositionId,
        user: AccountId,
    ) -> (r: Result<(), Error>)
        requires
            old(self).wf(),
        ensures
            final(self).wf(),
            match old(self)@.top_up_spec(updated_amount, user, position_id) {
                Ok(v) => r == Ok::<(), Error>(()) && final(self)@ == v,
                Err(e) => r == Err::<(), Error>(e) && final(self)@ == old(self)@,
            },
    {
        let i = match find(&self.positions, &user, position_id) {
            Some(i) => i,
            None => return Err(Error::NotFound),
        };
        let position = self.positions[i].value;
        let amount = match position.amount.checked_add(updated_amount) {
            Some(a) => a,
            None => return Err(Error::Overflow),
        };
        let added = match updated_amount.checked_mul(position.entry_price) {
            Some(v) => v,
            None => return Err(Error::Overflow),
        };
        let (long_total, short_total) = match position.position_type {
            PositionType::LONG => match self.long_total.checked_add(added) {
                Some(t) => (t, self.short_total),
                None => return Err(Error::Overflow),
            },
            PositionType::SHORT => match self.short_total.checked_add(added) {
                Some(t) => (self.long_total, t),
                None => return Err(Error::Overflow),
            },
        };
        match self.vault.update_liquidity(position.token, updated_amount, user) {
            Ok(()) => {},
            Err(e) => return Err(Error::Vault(e)),
        }
        let row = Keyed { owner: user, key: position_id, value: Position { amount, ..position } };
        proof {
            lemma_table_map_update(self.positions@, i as int, row);
            lemma_side_total_update(self.positions@, i as int, row, PositionType::LONG);
            lemma_side_total_update(self.positions@, i as int, row, PositionType::SHORT);
            lemma_mul_is_distributive_add_other_way(
                position.entry_price as int,
                position.amount as int,
                updated_amount as int,
            );
        }
        self.positions.set(i, row);
        self.long_total = long_total;
        self.short_total = short_total;
        self.events.push(Event::Updated(PositionUpdated { from: Some(user), position_id, amount }));
        Ok(())
    }

    /// Deducts the maintenance `fee` from the position `position_id` of
    /// `user`. A fee that would leave nothing of the margin is refused with
    /// `Underflow`. The vault is not involved.
    pub fn charge_fee(&mut self, fee: Balance, position_id: PositionId, user: AccountId) -> (r:
        Result<(), Error>)
        requires
            old(self).wf(),
        ensures
            final(self).wf(),
            match old(self)@.fee_spec(fee, user, position_id) {
                Ok(v) => r == Ok::<(), Error>(()) && final(self)@ == v,
                Err(e) => r == Err::<(), Error>(e) && final(self)@ == old(self)@,
            },
    {
        let i = match find(&self.positions, &user, position_id) {
            Some(i) => i,
            None => return Err(Error::NotFound),
        };
        let position = self.positions[i].value;
        if fee >= position.amount {
            return Err(Error::Underflow);
        }
        let amount = position.amount - fee;
        let row = Keyed { owner: user, key: position_id, value: Position { amount, ..position } };
        proof {
            lemma_table_map_update(self.positions@, i as int, row);
            lemma_side_total_update(self.positions@, i as int, row, PositionType::LONG);
            lemma_side_total_update(self.positions@, i as int, row, PositionType::SHORT);
            lemma_side_total_bounds(self.positions@, i as int, position.position_type);
            lemma_mul_is_distributive_sub_other_way(
                position.entry_price as int,
                position.amount as int,
                fee as int,
            );
            lemma_mul_inequality(fee as int, position.amount as int, position.entry_price as int);
            lemma_mul_nonnegative(amount as int, position.entry_price as int);
        }
        let removed = fee * position.entry_price;
        match position.position_type {
            PositionType::LONG => {
                self.long_total = self.long_total - removed;
            },
            PositionType::SHORT => {
                self.short_total = self.short_total - removed;
            },
        }
        self.positions.set(i, row);
        self.events.push(Event::Updated(PositionUpdated { from: Some(user), position_id, amount }));
        Ok(())
    }

    /// The position `position_id` of `user`, or `NotFound`.
    pub fn get_position(&self, user: AccountId, position_id: PositionId) -> (r: Result<
        Position,
        Error,
    >)
        requires
            self.wf(),
        ensures
            r == if self@.positions.contains_key((user, position_id)) {
                Ok::<Position, Error>(self@.positions[(user, position_id)])
            } else {
                Err::<Position, Error>(Error::NotFound)
            },
    {
        match find(&self.positions, &user, position_id) {
            Some(i) => Ok(self.positions[i].value),
            None => Err(Error::NotFound),
        }
    }

    /// Sum of the notional values of the active long positions.
    pub fn get_number_longs(&self) -> (r: Balance)
        ensures
            r == self@.long_total,
    {
        self.long_total
    }

    /// Sum of the notional values of the active short positions.
    pub fn get_number_shorts(&self) -> (r: Balance)
        ensures
            r == self@.short_total,
    {
        self.short_total
    }

    /// The funding rate at the given spot and contract prices, from the
    /// current open-interest totals. Reads nothing else and changes nothing.
    pub fn calculate_funding_rate(&self, spot_price: Balance, contract_price: Balance) -> (r: Result<
        Balance,
        Error,
    >)
        ensures
            r == funding_rate_spec(spot_price, contract_price, self@.long_total, self@.short_total),
    {
        funding_rate(spot_price, contract_price, self.long_total, self.short_total)
    }

    /// The id that the next opened position receives.
    pub fn next_position_id(&self) -> (r: PositionId)
        ensures
            r == self@.next_id,
    {
        self.position_id
    }

    /// The vault that the ledger drives.
    pub fn vault(&self) -> (r: &Vault)
        requires
            self.wf(),
        ensures
            r.wf(),
            r@ == self@.vault,
    {
        &self.vault
    }

    /// The notifications committed so far, oldest first.
    pub fn recorded_events(&self) -> (r: &Vec<Event>)
        ensures
            r@ == self@.events,
    {
        &self.events
    }
}

} // verus!
