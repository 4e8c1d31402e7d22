//! PayStell contracts as verified state machines.
//!
//! The crate holds two contracts for the Soroban network as plain-value
//! state machines: `payment` (merchants, signed orders with fees, nonces,
//! multi-signature payments, refunds, payment history and pause control) and
//! `proxy` (an upgradeable proxy with multisig-governed upgrade proposals,
//! rollback, safety analysis, migrations, monitoring and automation records).
//! Each contract entry point is a function from the stored state, the ledger
//! time and the call's arguments to the next state, a result and the actions
//! (token transfers, contract events) that the host must carry out.
pub mod table;
pub mod address;
pub mod payment;
pub mod proxy;
