//! # AuraVault
//!
//! A share-based yield vault: it pools deposits of one underlying token, issues
//! proportional shares, and raises their worth by harvested yield.
//!
//! The methods of [`AuraVault`] work on an [`Env`], which holds the contract's
//! storage, the ledger clock, the authorisations of the current call and the
//! events published so far. What an `Env` means is its [`env::Model`]; every
//! contract speaks of that.
//!
//! | Module | Contents |
//! |---|---|
//! | [`deposit`], [`withdraw`], [`queue`] | shares in and out, and the withdrawal queue |
//! | [`harvest`], [`distribution`], [`fee`] | yield, its fees, and its distribution |
//! | [`admin`], [`governance`], [`multisig`] | administration, proposals, and operations |
//! | [`oracle`], [`views`] | oracle prices, and everything that can be read |
//! | [`vault`], [`env`], [`storage`], [`table`] | the vault and its state |
//! | [`guard`], [`transfer`], [`undo`], [`math`] | locks, transfers, undoing, and arithmetic |
//!
//! The modules whose names end in `_laws` state what holds of the vault as a
//! whole.

pub mod access_laws;
pub mod address;
pub mod admin;
pub mod claim_laws;
pub mod decision_laws;
pub mod deposit;
pub mod deposit_laws;
pub mod distribution;
pub mod distribution_laws;
pub mod env;
pub mod errors;
pub mod events;
pub mod fee;
pub mod foundation_laws;
pub mod governance;
pub mod governance_laws;
pub mod guard;
pub mod harvest;
pub mod harvest_laws;
pub mod history_laws;
pub mod math;
pub mod multisig;
pub mod oracle;
pub mod queue;
pub mod queue_laws;
pub mod share_laws;
pub mod storage;
pub mod sums;
pub mod table;
pub mod text_laws;
pub mod transfer;
pub mod undo;
pub mod vault;
pub mod view_laws;
pub mod views;
pub mod withdraw;
pub mod withdraw_laws;
pub mod yield_laws;

pub use address::Address;
pub use env::Env;
pub use errors::VaultError;
pub use events::Event;
pub use vault::AuraVault;
