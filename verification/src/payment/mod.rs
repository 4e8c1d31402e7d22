//! The payment-processing contract: merchant registry, signed payment
//! orders with fees and replay protection, multi-signature payments,
//! refunds, payment history queries and pause control.
pub mod error;
pub mod helper;
pub mod types;
pub mod events;
pub mod storage;
pub mod history;
pub mod contract;
pub mod laws;
