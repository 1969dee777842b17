//! The fixed parameters of the runtime.
//!
//! The values are set once, here, and handed to the components by
//! reference; nothing recomputes them while blocks run.

use crate::fees::FeeSchedule;
use crate::primitives::{Balance, BlockNumber, Moment, Weight};
use vstd::prelude::*;

verus! {

/// Smallest unit of currency.
pub const NANO: Balance = 1;

pub const MICRO: Balance = 1_000 * NANO;

pub const MILLI: Balance = 1_000 * MICRO;

/// One coin: nine decimal places above the smallest unit.
pub const COIN: Balance = 1_000 * MILLI;

/// Target time between two blocks, in seconds.
pub const SECS_PER_BLOCK: Moment = 6;

/// Blocks per minute.
pub const MINUTES: Moment = 60 / SECS_PER_BLOCK;

/// Blocks per hour.
pub const HOURS: Moment = MINUTES * 60;

/// Blocks per day.
pub const DAYS: Moment = HOURS * 24;

/// Number of recent blocks over which finality reports are sampled.
pub const DEFAULT_WINDOW_SIZE: u32 = 101;

/// Number of blocks after which a missing finality report counts as a
/// stall.
pub const DEFAULT_REPORT_LATENCY: u32 = 1000;

/// Every named parameter of the runtime.
#[derive(Clone, Copy, Debug, PartialEq, Eq, Structural)]
pub struct Config {
    /// Balance below which an account ceases to exist.
    pub existential_deposit: Balance,
    /// Fee for a transfer between accounts.
    pub transfer_fee: Balance,
    /// Fee for a transfer that creates its recipient.
    pub creation_fee: Balance,
    /// Fee for every transaction.
    pub transaction_base_fee: Balance,
    /// Fee for every byte of a transaction.
    pub transaction_byte_fee: Balance,
    /// Number of generations in which an uncle block may be included.
    pub uncle_generations: u64,
    /// Length of a session, in blocks.
    pub session_period: BlockNumber,
    /// Block at which the first session starts.
    pub session_offset: BlockNumber,
    /// Sessions per era.
    pub sessions_per_era: u32,
    /// Eras for which a withdrawn stake stays locked.
    pub bonding_duration: u32,
    /// Eras per epoch.
    pub eras_per_epoch: u32,
    /// Upper bound of the currency that will ever be issued.
    pub cap: Balance,
    /// Blocks by which a signed claim of a contract's rent is held back.
    pub signed_claim_handicap: BlockNumber,
    /// Deposit for the tombstone of an evicted contract.
    pub tombstone_deposit: Balance,
    /// Bytes added to the size of every contract's storage.
    pub storage_size_offset: u32,
    /// Rent for every byte of a contract's storage.
    pub rent_byte_fee: Balance,
    /// Balance that offsets the rent of a contract.
    pub rent_deposit_offset: Balance,
    /// Reward for whoever has an overdue contract evicted.
    pub surcharge_reward: Balance,
    pub contract_transfer_fee: Balance,
    pub contract_creation_fee: Balance,
    pub contract_transaction_base_fee: Balance,
    pub contract_transaction_byte_fee: Balance,
    /// Fee for creating a contract.
    pub contract_fee: Balance,
    /// Gas for every call of a contract.
    pub call_base_fee: Weight,
    /// Gas for every creation of a contract.
    pub create_base_fee: Weight,
    /// Deepest nesting of contract calls.
    pub max_depth: u32,
    /// Most gas that the contracts of one block may use.
    pub block_gas_limit: Weight,
    /// Number of recent blocks over which finality reports are sampled.
    pub window_size: BlockNumber,
    /// Number of blocks after which a missing finality report counts as a
    /// stall.
    pub report_latency: BlockNumber,
}

impl Config {
    /// The parameters of the node.
    pub open spec fn spec_node() -> Config {
        Config {
            existential_deposit: MICRO,
            transfer_fee: MILLI,
            creation_fee: MILLI,
            transaction_base_fee: MILLI,
            transaction_byte_fee: MICRO,
            uncle_generations: 0,
            session_period: MINUTES,
            session_offset: 0,
            sessions_per_era: 5,
            bonding_duration: 4032,
            eras_per_epoch: 105120,
            cap: (10_000_000_000 * COIN) as Balance,
            signed_claim_handicap: 2,
            tombstone_deposit: 16,
            storage_size_offset: 8,
            rent_byte_fee: 4,
            rent_deposit_offset: 1000,
            surcharge_reward: 150,
            contract_transfer_fee: MILLI,
            contract_creation_fee: MILLI,
            contract_transaction_base_fee: MILLI,
            contract_transaction_byte_fee: (10 * NANO) as Balance,
            contract_fee: MILLI,
            call_base_fee: 1000,
            create_base_fee: 1000,
            max_depth: 1024,
            block_gas_limit: 10_000_000,
            window_size: DEFAULT_WINDOW_SIZE as BlockNumber,
            report_latency: DEFAULT_REPORT_LATENCY as BlockNumber,
        }
    }

    /// The parameters of the node.
    pub fn node() -> (config: Config)
        ensures
            config == Config::spec_node(),
            config.existential_deposit == 1_000,
            config.transaction_base_fee == 1_000_000,
            config.transaction_byte_fee == 1_000,
            config.session_period == 10,
            config.cap == 10_000_000_000_000_000_000,
            config.contract_transaction_byte_fee == 10,
            config.window_size == 101,
            config.report_latency == 1000,
    {
        Config {
            existential_deposit: MICRO,
            transfer_fee: MILLI,
            creation_fee: MILLI,
            transaction_base_fee: MILLI,
            transaction_byte_fee: MICRO,
            uncle_generations: 0,
            session_period: MINUTES,
            session_offset: 0,
            sessions_per_era: 5,
            bonding_duration: 4032,
            eras_per_epoch: 105120,
            cap: 10_000_000_000 * COIN,
            signed_claim_handicap: 2,
            tombstone_deposit: 16,
            storage_size_offset: 8,
            rent_byte_fee: 4,
            rent_deposit_offset: 1000,
            surcharge_reward: 150,
            contract_transfer_fee: MILLI,
            contract_creation_fee: MILLI,
            contract_transaction_base_fee: MILLI,
            contract_transaction_byte_fee: 10 * NANO,
            contract_fee: MILLI,
            call_base_fee: 1000,
            create_base_fee: 1000,
            max_depth: 1024,
            block_gas_limit: 10_000_000,
            window_size: DEFAULT_WINDOW_SIZE as BlockNumber,
            report_latency: DEFAULT_REPORT_LATENCY as BlockNumber,
        }
    }

    /// What transactions cost under these parameters: the base fee and the
    /// byte fee, and nothing by weight.
    pub fn fee_schedule(&self) -> (schedule: FeeSchedule)
        ensures
            schedule == (FeeSchedule {
                base_fee: self.transaction_base_fee,
                byte_fee: self.transaction_byte_fee,
                weight_fee: 0,
            }),
    {
        FeeSchedule {
            base_fee: self.transaction_base_fee,
            byte_fee: self.transaction_byte_fee,
            weight_fee: 0,
        }
    }
}

} // verus!
