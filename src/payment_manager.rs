use vstd::prelude::*;

use crate::manager;
use crate::manager::{LedgerView, Manager, PositionType};
use crate::primitives::{AccountId, Balance, PositionId};

verus! {

/// Errors of the maintenance and liquidation engine.
#[derive(Debug, Clone, Copy, PartialEq, Eq, Structural)]
pub enum Error {
    /// A value of the liquidation test exceeds the representable range.
    Overflow,
    /// The loss of the liquidation test would be negative.
    Underflow,
    /// No active position under the given owner and id.
    NotFound,
    /// The ledger refused the fee deduction or the close.
    Ledger(manager::Error),
}

/// What a review did to a position.
#[derive(Debug, Clone, Copy, PartialEq, Eq, Structural)]
pub enum Outcome {
    FeeCollected,
    Liquidated,
}

/// Notification: a maintenance fee was deducted from a position.
#[derive(Debug, Clone, Copy, PartialEq, Eq)]
pub struct MaintenanceFeeCollected {
    pub from: Option<AccountId>,
    pub position_id: PositionId,
    pub fee: Balance,
}

/// Notification: a position was liquidated.
#[derive(Debug, Clone, Copy, PartialEq, Eq)]
pub struct PositionLiquidated {
    pub from: Option<AccountId>,
    pub position_id: PositionId,
}

/// Notification: a review of a position is complete.
#[derive(Debug, Clone, Copy, PartialEq, Eq)]
pub struct PositionUpdated {
    pub from: Option<AccountId>,
    pub position_id: PositionId,
}

/// The notifications of the engine, in the order of the operations that
/// committed them.
#[derive(Debug, Clone, Copy, PartialEq, Eq)]
pub enum PaymentEvent {
    FeeCollected(MaintenanceFeeCollected),
    Liquidated(PositionLiquidated),
    Reviewed(PositionUpdated),
}

/// The liquidation test on a position, at `current_price`.
///
/// With `deposit = amount * entry_price`,
/// `entry_value = deposit * leverage` and
/// `real_value = amount * leverage * current_price`, a long position is
/// liquidated when its loss `entry_value - real_value` equals the deposit,
/// and a short one when its loss `real_value - entry_value` does. A product
/// that does not fit is `Overflow`; a negative loss is `Underflow`.
pub open spec fn liquidation_check(
    amount: Balance,
    entry_price: Balance,
    leverage: u32,
    position_type: PositionType,
    current_price: Balance,
) -> Result<bool, Error> {
    let deposit = amount * entry_price;
    let entry_value = deposit * leverage;
    let leveraged = amount * leverage;
    let real_value = leveraged * current_price;
    if deposit > u128::MAX || entry_value > u128::MAX || leveraged > u128::MAX || real_value
        > u128::MAX {
        Err(Error::Overflow)
    } else {
        match position_type {
            PositionType::LONG => if entry_value < real_value {
                Err(Error::Underflow)
            } else {
                Ok(deposit == entry_value - real_value)
            },
            PositionType::SHORT => if real_value < entry_value {
                Err(Error::Underflow)
            } else {
                Ok(deposit == real_value - entry_value)
            },
        }
    }
}

/// What an engine holds, as mathematical values.
pub struct PaymentView {
    pub maintenance_fee: Balance,
    pub events: Seq<PaymentEvent>,
}

impl PaymentView {
    /// Engine and ledger after liquidating a position, or why it failed.
    pub open spec fn liquidate_spec(self, ledger: LedgerView, user: AccountId, position_id: PositionId) -> Result<
        (PaymentView, LedgerView),
        Error,
    > {
        match ledger.close_spec(user, position_id) {
            Err(e) => Err(Error::Ledger(e)),
            Ok(l) => Ok(
                (
                    PaymentView {
                        maintenance_fee: self.maintenance_fee,
                        events: self.events.push(
                            PaymentEvent::Liquidated(
                                PositionLiquidated { from: Some(user), position_id },
                            ),
                        ),
                    },
                    l,
                ),
            ),
        }
    }

    /// Engine and ledger after deducting the maintenance fee from a
    /// position, or why it failed.
    pub open spec fn collect_spec(self, ledger: LedgerView, user: AccountId, position_id: PositionId) -> Result<
        (PaymentView, LedgerView),
        Error,
    > {
        match ledger.fee_spec(self.maintenance_fee, user, position_id) {
            Err(e) => Err(Error::Ledger(e)),
            Ok(l) => Ok(
                (
                    PaymentView {
                        maintenance_fee: self.maintenance_fee,
                        events: self.events.push(
                            PaymentEvent::FeeCollected(
                                MaintenanceFeeCollected {
                                    from: Some(user),
                                    position_id,
                                    fee: self.maintenance_fee,
                                },
                            ),
                        ),
                    },
                    l,
                ),
            ),
        }
    }

    /// Engine and ledger after reviewing a position at `current_price`, with
    /// what was done, or why the review failed: a position that the
    /// liquidation test selects is liquidated, any other pays the
    /// maintenance fee.
    pub open spec fn review_spec(
        self,
        ledger: LedgerView,
        user: AccountId,
        position_id: PositionId,
        current_price: Balance,
    ) -> Result<(PaymentView, LedgerView, Outcome), Error> {
        let p = ledger.positions[(user, position_id)];
        let reviewed = PaymentEvent::Reviewed(PositionUpdated { from: Some(user), position_id });
        if !ledger.positions.contains_key((user, position_id)) {
            Err(Error::NotFound)
        } else {
            match liquidation_check(
                p.amount,
                p.entry_price,
                p.leverage,
                p.position_type,
                current_price,
            ) {
                Err(e) => Err(e),
                Ok(true) => match self.liquidate_spec(ledger, user, position_id) {
                    Err(e) => Err(e),
                    Ok((s, l)) => Ok(
                        (
                            PaymentView {
                                maintenance_fee: s.maintenance_fee,
                                events: s.events.push(reviewed),
                            },
                            l,
                            Outcome::Liquidated,
                        ),
                    ),
                },
                Ok(false) => match self.collect_spec(ledger, user, position_id) {
                    Err(e) => Err(e),
                    Ok((s, l)) => Ok(
                        (
                            PaymentView {
                                maintenance_fee: s.maintenance_fee,
                                events: s.events.push(reviewed),
                            },
                            l,
                            Outcome::FeeCollected,
                        ),
                    ),
                },
            }
        }
    }
}

/// The maintenance and liquidation engine: reviews positions of a ledger,
/// liquidating those that the liquidation test selects and charging the
/// others a fixed maintenance fee.
pub struct PaymentManager {
    maintenance_fee: Balance,
    events: Vec<PaymentEvent>,
}

impl View for PaymentManager {
    type V = PaymentView;

    closed spec fn view(&self) -> PaymentView {
        PaymentView { maintenance_fee: self.maintenance_fee, events: self.events@ }
    }
}

impl PaymentManager {
    /// An engine that charges `maintenance_fee` per review.
    pub fn new(maintenance_fee: Balance) -> (r: PaymentManager)
        ensures
            r@.maintenance_fee == maintenance_fee,
            r@.events == Seq::<PaymentEvent>::empty(),
    {
        PaymentManager { maintenance_fee, events: Vec::new() }
    }

    /// The fee charged per review.
    pub fn maintenance_fee(&self) -> (r: Balance)
        ensures
            r == self@.maintenance_fee,
    {
        self.maintenance_fee
    }

    /// The notifications committed so far, oldest first.
    pub fn recorded_events(&self) -> (r: &Vec<PaymentEvent>)
        ensures
            r@ == self@.events,
    {
        &self.events
    }

    /// Reviews the position `position_id` of `user` at `current_price`:
    /// liquidates it when the liquidation test selects it, else deducts the
    /// maintenance fee. All or nothing.
    pub fn update_position(
        &mut self,
        manager: &mut Manager,
        position_id: PositionId,
        user: AccountId,
        current_price: Balance,
    ) -> (r: Result<Outcome, Error>)
        requires
            old(manager).wf(),
        ensures
            final(manager).wf(),
            match old(self)@.review_spec(old(manager)@, user, position_id, current_price) {
                Ok((s, l, o)) => {
                    &&& r == Ok::<Outcome, Error>(o)
                    &&& final(self)@ == s
                    &&& final(manager)@ == l
                },
                Err(e) => {
                    &&& r == Err::<Outcome, Error>(e)
                    &&& final(self)@ == old(self)@
                    &&& final(manager)@ == old(manager)@
                },
            },
    {
        let position = match manager.get_position(user, position_id) {
            Ok(p) => p,
            Err(_) => return Err(Error::NotFound),
        };
        let liquidate = match self.check_liquidation(
            position.amount,
            position.entry_price,
            position.leverage,
            position.position_type,
            current_price,
        ) {
            Ok(b) => b,
            Err(e) => return Err(e),
        };
        let outcome = if liquidate {
            match self.liquidation(manager, position_id, user) {
                Ok(()) => Outcome::Liquidated,
                Err(e) => return Err(e),
            }
        } else {
            match self.collect_fee(manager, position_id, user) {
                Ok(()) => Outcome::FeeCollected,
                Err(e) => return Err(e),
            }
        };
        self.events.push(PaymentEvent::Reviewed(PositionUpdated { from: Some(user), position_id }));
        Ok(outcome)
    }

    /// Liquidates the position `position_id` of `user`: the ledger closes it
    /// and the vault releases its deposit.
    pub fn liquidation(&mut self, manager: &mut Manager, position_id: PositionId, user: AccountId) -> (r:
        Result<(), Error>)
        requires
            old(manager).wf(),
        ensures
            final(manager).wf(),
            match old(self)@.liquidate_spec(old(manager)@, user, position_id) {
                Ok((s, l)) => r == Ok::<(), Error>(()) && final(self)@ == s && final(manager)@ == l,
                Err(e) => r == Err::<(), Error>(e) && final(self)@ == old(self)@ && final(manager)@
                    == old(manager)@,
            },
    {
        match manager.close_position(position_id, user) {
            Ok(()) => {},
            Err(e) => return Err(Error::Ledger(e)),
        }
        self.events.push(PaymentEvent::Liquidated(PositionLiquidated { from: Some(user), position_id }));
        Ok(())
    }

    /// Deducts the maintenance fee from the position `position_id` of `user`.
    pub fn collect_fee(&mut self, manager: &mut Manager, position_id: PositionId, user: AccountId) -> (r:
        Result<(), Error>)
        requires
            old(manager).wf(),
        ensures
            final(manager).wf(),
            match old(self)@.collect_spec(old(manager)@, user, position_id) {
                Ok((s, l)) => r == Ok::<(), Error>(()) && final(self)@ == s && final(manager)@ == l,
                Err(e) => r == Err::<(), Error>(e) && final(self)@ == old(self)@ && final(manager)@
                    == old(manager)@,
            },
    {
        match manager.charge_fee(self.maintenance_fee, position_id, user) {
            Ok(()) => {},
            Err(e) => return Err(Error::Ledger(e)),
        }
        self.events.push(
            PaymentEvent::FeeCollected(
                MaintenanceFeeCollected {
                    from: Some(user),
                    position_id,
                    fee: self.maintenance_fee,
                },
            ),
        );
        Ok(())
    }

    /// The liquidation test on a position at `current_price`; see
    /// `liquidation_check`.
    pub fn check_liquidation(
        &self,
        amount: Balance,
        entry_price: Balance,
        leverage: u32,
        position_type: PositionType,
        current_price: Balance,
    ) -> (r: Result<bool, Error>)
        ensures
            r == liquidation_check(amount, entry_price, leverage, position_type, current_price),
    {
        let deposit = match amount.checked_mul(entry_price) {
            Some(v) => v,
            None => return Err(Error::Overflow),
        };
        let entry_value = match deposit.checked_mul(leverage as u128) {
            Some(v) => v,
            None => return Err(Error::Overflow),
        };
        let leveraged = match amount.checked_mul(leverage as u128) {
            Some(v) => v,
            None => return Err(Error::Overflow),
        };
        let real_value = match leveraged.checked_mul(current_price) {
            Some(v) => v,
            None => return Err(Error::Overflow),
        };
        match position_type {
            PositionType::LONG => match entry_value.checked_sub(real_value) {
                Some(loss) => Ok(deposit == loss),
                None => Err(Error::Underflow),
            },
            PositionType::SHORT => match real_value.checked_sub(entry_value) {
                Some(loss) => Ok(deposit == loss),
                None => Err(Error::Underflow),
            },
        }
    }
}

} // verus!
