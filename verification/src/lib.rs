//! Block-execution dispatch layer of a deterministic state-machine runtime.
//!
//! The crate composes independently developed state-transition modules into
//! one ordered pipeline, applies signed transactions against a ledger,
//! collects events, charges and distributes transaction fees, and answers the
//! queries of the host and of the consensus engines.
//!
//! The modules themselves, the cryptography and the storage engine live with
//! the host. The pipeline decides what is to be done and in which order, and
//! the host does it:
//!
//! 1. `initialize_block` opens a block and returns the modules whose
//!    `on_initialize` hook is to run, in ascending order of registration.
//! 2. For each extrinsic, `apply_extrinsic` checks nonce and fee, charges
//!    the fee, and returns the call to dispatch; the host hands the call to
//!    its module and reports the result with `note_applied_extrinsic`.
//! 3. `finalize_block` closes the block and returns the modules whose
//!    `on_finalize` hook is to run, in descending order of registration;
//!    `seal_header` then writes the roots that the host computed into the
//!    header.
//!
//! Every step is stated over a mathematical model of the pipeline, so that
//! what a block does to the pipeline is a function of the state it starts
//! from and of what the host hands in.

pub mod block;
pub mod config;
pub mod consensus;
pub mod error;
pub mod events;
pub mod executive;
pub mod extrinsic;
pub mod fees;
pub mod inherents;
pub mod ledger;
pub mod metadata;
pub mod primitives;
pub mod registry;
pub mod runtime;
pub mod state;
pub mod version;
pub mod vote;

pub use config::{COIN, DAYS, HOURS, MICRO, MILLI, MINUTES, NANO, SECS_PER_BLOCK};
pub use fees::{Author, DealWithFees, MockTreasury};
pub use primitives::{AccountId, AccountIndex, Balance, BlockNumber, Moment, Nonce};
pub use version::{native_version, version};
pub use vote::CurrencyToVoteHandler;
