//! The upgradeable proxy: multisig-governed upgrade proposals with an
//! execution delay, implementation history and rollback, and the safety,
//! migration, monitoring and automation records around upgrades.
pub mod error;
pub mod types;
pub mod safety;
pub mod monitoring;
pub mod storage;
pub mod automation;
pub mod migration;
pub mod contract;
pub mod laws;
