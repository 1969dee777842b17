use node_runtime::block::{Block, Header};
use node_runtime::extrinsic::{Address, Call, Extrinsic, Mortality, Signature};
use node_runtime::inherents::{check_inherents, inherent_extrinsics, InherentEntry, InherentError};
use node_runtime::primitives::H256;
use node_runtime::registry::{Inherent, ModuleDescriptor, Registry};

const TIMESTAMP: u64 = 0x7469_6d73_7461_7030;
const FINAL_HINT: u64 = 0x6669_6e61_6c6e_756d;

fn module(name: &str, calls: usize, inherent: Option<Inherent>) -> ModuleDescriptor {
    ModuleDescriptor {
        name: name.to_string(),
        calls: vec![1; calls],
        events: 0,
        storage: true,
        inherent,
        on_initialize: false,
        on_finalize: false,
        offchain_worker: false,
    }
}

fn registry() -> Registry {
    Registry::new(vec![
        module("System", 1, None),
        module("Timestamp", 1, Some(Inherent { identifier: TIMESTAMP, call: 0 })),
        module("Balances", 2, None),
        module("FinalityTracker", 2, Some(Inherent { identifier: FINAL_HINT, call: 1 })),
    ])
    .unwrap()
}

fn block(extrinsics: Vec<Extrinsic>) -> Block {
    Block {
        header: Header {
            parent_hash: H256::zero(),
            number: 1,
            state_root: H256::zero(),
            extrinsics_root: H256::zero(),
            digest: vec![],
        },
        extrinsics,
    }
}

fn check(extrinsics: Vec<Extrinsic>, data: &Vec<InherentEntry>) -> Result<(), InherentError> {
    check_inherents(&registry(), &block(extrinsics), data)
}

fn entry(identifier: u64, data: &[u8]) -> InherentEntry {
    InherentEntry { identifier, data: data.to_vec() }
}

fn inherent(module: u8, tag: u8, args: &[u8]) -> Extrinsic {
    Extrinsic::Inherent { call: Call { module, tag, args: args.to_vec() } }
}

fn transaction() -> Extrinsic {
    Extrinsic::Transaction {
        signer: Address::Id(1),
        signature: Signature { first: H256::zero(), second: H256::zero() },
        nonce: 0,
        mortality: Mortality::Immortal,
        call: Call { module: 2, tag: 0, args: vec![] },
    }
}

#[test]
fn inherents_are_created_in_registry_order() {
    let data = vec![entry(FINAL_HINT, &[9]), entry(TIMESTAMP, &[1, 2]), entry(5, &[0])];
    assert_eq!(
        inherent_extrinsics(&registry(), &data),
        vec![inherent(1, 0, &[1, 2]), inherent(3, 1, &[9])]
    );
}

#[test]
fn inherent_without_data_is_left_out() {
    assert_eq!(
        inherent_extrinsics(&registry(), &vec![entry(FINAL_HINT, &[9])]),
        vec![inherent(3, 1, &[9])]
    );
    assert!(inherent_extrinsics(&registry(), &vec![]).is_empty());
}

#[test]
fn first_entry_under_an_identifier_counts() {
    let data = vec![entry(TIMESTAMP, &[1]), entry(TIMESTAMP, &[2])];
    assert_eq!(inherent_extrinsics(&registry(), &data), vec![inherent(1, 0, &[1])]);
}

#[test]
fn created_inherents_pass_the_check() {
    let data = vec![entry(TIMESTAMP, &[1, 2]), entry(FINAL_HINT, &[9])];
    let mut extrinsics = inherent_extrinsics(&registry(), &data);
    extrinsics.push(transaction());
    extrinsics.push(transaction());
    assert_eq!(check(extrinsics, &data), Ok(()));
    assert_eq!(check(vec![], &vec![]), Ok(()));
    assert_eq!(check(vec![transaction()], &vec![]), Ok(()));
}

#[test]
fn undeclared_inherent_is_unexpected() {
    let data = vec![];
    let cases =
        vec![inherent(0, 0, &[]), inherent(1, 1, &[]), inherent(3, 0, &[]), inherent(9, 0, &[])];
    for case in cases {
        let extrinsics = vec![inherent(1, 0, &[]), case];
        assert_eq!(check(extrinsics, &data), Err(InherentError::Unexpected(1)));
    }
}

#[test]
fn inherent_after_transaction_is_out_of_order() {
    let extrinsics = vec![inherent(1, 0, &[]), transaction(), inherent(3, 1, &[])];
    assert_eq!(check(extrinsics, &vec![]), Err(InherentError::OutOfOrder(2)));
}

#[test]
fn repeated_inherent_is_a_duplicate() {
    let extrinsics = vec![inherent(1, 0, &[1]), inherent(3, 1, &[]), inherent(1, 0, &[2])];
    assert_eq!(check(extrinsics, &vec![]), Err(InherentError::Duplicate(2)));
    let after = vec![inherent(1, 0, &[1]), transaction(), inherent(1, 0, &[2])];
    assert_eq!(check(after, &vec![]), Err(InherentError::OutOfOrder(2)));
}

#[test]
fn inherent_with_data_must_be_in_the_block() {
    let data = vec![entry(TIMESTAMP, &[1]), entry(FINAL_HINT, &[2])];
    assert_eq!(check(vec![transaction()], &data), Err(InherentError::Missing(1)));
    assert_eq!(check(vec![inherent(1, 0, &[1])], &data), Err(InherentError::Missing(3)));
    assert_eq!(check(vec![inherent(1, 0, &[1])], &vec![entry(TIMESTAMP, &[1])]), Ok(()));
}

#[test]
fn position_defects_come_before_missing_inherents() {
    let data = vec![entry(TIMESTAMP, &[1])];
    let extrinsics = vec![inherent(3, 1, &[]), inherent(0, 0, &[])];
    assert_eq!(check(extrinsics, &data), Err(InherentError::Unexpected(1)));
}
