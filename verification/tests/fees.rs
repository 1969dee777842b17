use node_runtime::fees::{
    Author, DealWithFees, FeeSchedule, MockTreasury, SplitTwoWays, AUTHOR_PARTS, TREASURY_PARTS,
};
use node_runtime::ledger::Ledger;

fn funded(who: u64, amount: u128) -> Ledger {
    let mut ledger = Ledger::new();
    ledger.deposit_creating(who, amount).unwrap();
    ledger
}

#[test]
fn split_gives_remainder_to_second_side() {
    let split = SplitTwoWays::new(4, 1).unwrap();
    assert_eq!(split.portions(100), (80, 20));
    assert_eq!(split.portions(101), (80, 21));
    assert_eq!(split.portions(104), (83, 21));
    assert_eq!(split.portions(4), (3, 1));
    assert_eq!(split.portions(1), (0, 1));
    assert_eq!(split.portions(0), (0, 0));
}

#[test]
fn split_is_exact_for_the_largest_amount() {
    let split = SplitTwoWays::new(4, 1).unwrap();
    let (first, second) = split.portions(u128::MAX);
    assert_eq!(first, 272225893536750770770699685945414569164);
    assert_eq!(second, 68056473384187692692674921486353642291);
    assert_eq!(first + second, u128::MAX);
    let wide = SplitTwoWays::new(u32::MAX, u32::MAX).unwrap();
    let (first, second) = wide.portions(u128::MAX);
    assert_eq!(first, u128::MAX / 2);
    assert_eq!(second, u128::MAX / 2 + 1);
}

#[test]
fn split_conserves_every_amount() {
    let ratios: [(u32, u32); 5] = [(4, 1), (1, 4), (3, 7), (1, 0), (0, 1)];
    for (p, q) in ratios {
        let split = SplitTwoWays::new(p, q).unwrap();
        for amount in 0u128..500 {
            let (first, second) = split.portions(amount);
            assert_eq!(first + second, amount);
            assert_eq!(first, amount * p as u128 / (p as u128 + q as u128));
        }
    }
}

#[test]
fn split_needs_a_part() {
    assert!(SplitTwoWays::new(0, 0).is_none());
    assert!(SplitTwoWays::new(0, 1).is_some());
    assert!(SplitTwoWays::new(1, 0).is_some());
}

#[test]
fn split_of_an_imbalance_keeps_its_amount() {
    let mut ledger = funded(1, 1_000);
    let token = ledger.withdraw(1, 101).unwrap();
    let split = SplitTwoWays::new(3, 7).unwrap();
    let (first, second) = split.split(token);
    assert_eq!(first.peek(), 30);
    assert_eq!(second.peek(), 71);
}

#[test]
fn author_sink_credits_the_author() {
    let mut ledger = funded(1, 1_000);
    let token = ledger.withdraw(1, 250).unwrap();
    let sink = Author::new(42);
    assert_eq!(sink.account(), 42);
    sink.on_unbalanced(&mut ledger, token);
    assert_eq!(ledger.free_balance(42), 250);
    assert_eq!(ledger.free_balance(1), 750);
    assert_eq!(ledger.unresolved(), 0);
    assert_eq!(ledger.total_issuance(), 1_000);
}

#[test]
fn treasury_sink_credits_the_key_holder() {
    let mut ledger = funded(1, 1_000);
    let token = ledger.withdraw(1, 250).unwrap();
    let sink = MockTreasury::new(7);
    assert_eq!(sink.account(), 7);
    sink.on_unbalanced(&mut ledger, token);
    assert_eq!(ledger.free_balance(7), 250);
    assert_eq!(ledger.unresolved(), 0);
}

#[test]
fn fees_go_four_parts_to_treasury_one_to_author() {
    assert_eq!((TREASURY_PARTS, AUTHOR_PARTS), (4, 1));
    let mut ledger = funded(1, 10_000);
    let token = ledger.withdraw(1, 1_981).unwrap();
    let deal = DealWithFees::new(MockTreasury::new(7), Author::new(42));
    deal.on_unbalanced(&mut ledger, token);
    assert_eq!(ledger.free_balance(7), 1_584);
    assert_eq!(ledger.free_balance(42), 397);
    assert_eq!(ledger.free_balance(7) + ledger.free_balance(42), 1_981);
    assert_eq!(ledger.free_balance(1), 8_019);
    assert_eq!(ledger.unresolved(), 0);
    assert_eq!(ledger.total_issuance(), 10_000);
}

#[test]
fn fees_to_one_account_for_both_sinks_arrive_whole() {
    let mut ledger = funded(1, 10_000);
    let token = ledger.withdraw(1, 1_981).unwrap();
    let deal = DealWithFees::new(MockTreasury::new(7), Author::new(7));
    deal.on_unbalanced(&mut ledger, token);
    assert_eq!(ledger.free_balance(7), 1_981);
    assert_eq!(ledger.unresolved(), 0);
}

#[test]
fn fee_adds_base_bytes_and_weight() {
    let schedule = FeeSchedule { base_fee: 1_000, byte_fee: 10, weight_fee: 3 };
    assert_eq!(schedule.compute(0, 0), Some(1_000));
    assert_eq!(schedule.compute(88, 0), Some(1_880));
    assert_eq!(schedule.compute(88, 100), Some(2_180));
    let free = FeeSchedule { base_fee: 0, byte_fee: 0, weight_fee: 0 };
    assert_eq!(free.compute(1_000_000, u64::MAX), Some(0));
}

#[test]
fn fee_beyond_every_balance_is_none() {
    let steep = FeeSchedule { base_fee: u128::MAX, byte_fee: 1, weight_fee: 0 };
    assert_eq!(steep.compute(0, 5), Some(u128::MAX));
    assert_eq!(steep.compute(1, 5), None);
    let by_byte = FeeSchedule { base_fee: 0, byte_fee: u128::MAX, weight_fee: 0 };
    assert_eq!(by_byte.compute(1, 0), Some(u128::MAX));
    assert_eq!(by_byte.compute(2, 0), None);
    let by_weight = FeeSchedule { base_fee: 1, byte_fee: 0, weight_fee: u128::MAX };
    assert_eq!(by_weight.compute(7, 0), Some(1));
    assert_eq!(by_weight.compute(7, 1), None);
    assert_eq!(by_weight.compute(7, 2), None);
}
