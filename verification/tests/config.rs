use node_runtime::config::{
    Config, COIN, DAYS, DEFAULT_REPORT_LATENCY, DEFAULT_WINDOW_SIZE, HOURS, MICRO, MILLI, MINUTES,
    NANO, SECS_PER_BLOCK,
};
use node_runtime::fees::FeeSchedule;

#[test]
fn units_step_by_thousands() {
    assert_eq!(NANO, 1);
    assert_eq!(MICRO, 1_000);
    assert_eq!(MILLI, 1_000_000);
    assert_eq!(COIN, 1_000_000_000);
}

#[test]
fn time_is_counted_in_blocks() {
    assert_eq!(SECS_PER_BLOCK, 6);
    assert_eq!(MINUTES, 10);
    assert_eq!(HOURS, 600);
    assert_eq!(DAYS, 14_400);
}

#[test]
fn node_parameters_have_their_values() {
    let config = Config::node();
    assert_eq!(config.existential_deposit, 1_000);
    assert_eq!(config.transfer_fee, 1_000_000);
    assert_eq!(config.creation_fee, 1_000_000);
    assert_eq!(config.transaction_base_fee, 1_000_000);
    assert_eq!(config.transaction_byte_fee, 1_000);
    assert_eq!(config.uncle_generations, 0);
    assert_eq!(config.session_period, 10);
    assert_eq!(config.session_offset, 0);
    assert_eq!(config.sessions_per_era, 5);
    assert_eq!(config.bonding_duration, 4032);
    assert_eq!(config.eras_per_epoch, 105_120);
    assert_eq!(config.cap, 10_000_000_000_000_000_000);
    assert_eq!(config.signed_claim_handicap, 2);
    assert_eq!(config.tombstone_deposit, 16);
    assert_eq!(config.storage_size_offset, 8);
    assert_eq!(config.rent_byte_fee, 4);
    assert_eq!(config.rent_deposit_offset, 1000);
    assert_eq!(config.surcharge_reward, 150);
    assert_eq!(config.contract_transfer_fee, 1_000_000);
    assert_eq!(config.contract_creation_fee, 1_000_000);
    assert_eq!(config.contract_transaction_base_fee, 1_000_000);
    assert_eq!(config.contract_transaction_byte_fee, 10);
    assert_eq!(config.contract_fee, 1_000_000);
    assert_eq!(config.call_base_fee, 1000);
    assert_eq!(config.create_base_fee, 1000);
    assert_eq!(config.max_depth, 1024);
    assert_eq!(config.block_gas_limit, 10_000_000);
    assert_eq!(config.window_size, DEFAULT_WINDOW_SIZE as u64);
    assert_eq!(config.report_latency, DEFAULT_REPORT_LATENCY as u64);
    assert_eq!((config.window_size, config.report_latency), (101, 1000));
}

#[test]
fn fee_schedule_comes_from_the_parameters() {
    let schedule = Config::node().fee_schedule();
    assert_eq!(schedule, FeeSchedule { base_fee: 1_000_000, byte_fee: 1_000, weight_fee: 0 });
    assert_eq!(schedule.compute(88, 12_345), Some(1_088_000));
}
