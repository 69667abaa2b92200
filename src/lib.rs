//! Accounting core for leveraged margin positions: a position ledger with
//! long/short open-interest totals, a funding-rate calculator, a collateral
//! vault, a price oracle and a maintenance and liquidation engine.
pub mod primitives;
pub mod keyed;
pub mod vault;
pub mod oracle;
pub mod funding;
pub mod manager;
pub mod payment_manager;
