//! A multi-asset wallet contract for Soroban, verified.
//!
//! - Each user keeps a registry of assets.
//! - Per-asset daily spend limits cap what a stolen key can cost.
//! - An admin runs the wallet, and can hand the role on.
//! - Guardians can recover the admin role when the admin's key is lost.
//! - Everything that changes the wallet is published as an event.
//!
//! [`GlobeWallet`] holds the wallet's ledger entries and decides on requests. It
//! records in order what has to be done on the ledger: authorizations, writes,
//! lifetimes, events. The contract around it reads the entries, calls the
//! wallet and carries the effects out.
//!
//! What each request does is stated in [`model`], and in [`service_laws`] once
//! more from the side of the ledger entries. What follows for all requests and
//! histories is proved in [`laws`] and [`soundness`], and for each
//! part of the wallet in [`admin_laws`], [`recovery_laws`], [`asset_laws`] and
//! [`spending_laws`]. What is taken for granted of the SDK is stated in [`host`].
pub mod admin_laws;
pub mod asset_laws;
pub mod effect;
pub mod error;
pub mod host;
pub mod laws;
pub mod model;
pub mod recovery_laws;
pub mod request;
pub mod service_laws;
pub mod soundness;
pub mod spending_laws;
pub mod table;
pub mod types;
pub mod wallet;

pub use effect::{Effect, Event};
pub use error::WalletError;
pub use types::{
    AssetInfo, DataKey, Entry, Ledger, RecoveryConfig, RecoveryProposal, SpendRecord,
    UpgradeProposal,
};
pub use wallet::GlobeWallet;
