//! Install, update and removal engine for versioned localization packages.
//!
//! The crate decides; its caller performs. Every function here maps plain
//! values (what was read from disk or from the network) to plain values (what
//! to write, remove, download or announce next), and each carries a contract
//! that the verifier proves.
//!
//! - [`catalog`], [`settings`], [`metadata`], [`state`]: what a source
//!   publishes, what the user configured, what is installed.
//! - [`archive`], [`install`], [`layout`], [`paths`]: unpacking a bundle and
//!   replacing an installed package by it.
//! - [`fonts`], [`hashing`]: the shared font cache and its digests.
//! - [`locks`]: one lock per installed resource.
//! - [`reconcile`], [`workflow`], [`runs`]: bringing everything up to date
//!   before the game starts.

pub mod archive;
pub mod catalog;
pub mod error;
pub mod fonts;
pub mod hashing;
pub mod install;
pub mod layout;
pub mod locks;
pub mod metadata;
pub mod paths;
pub mod reconcile;
pub mod runs;
pub mod settings;
pub mod state;
pub mod text;
pub mod workflow;
