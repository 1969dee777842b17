use node_runtime::block::{Block, DigestItem, DigestKind, Header};
use node_runtime::consensus::{
    Authority, FinalityVoting, ScheduledChange, SlotAuthoring, GRANDPA_ENGINE_ID,
};
use node_runtime::error::{ApplyError, BlockImportFatal, Malformed};
use node_runtime::events::{Event, EventPhase, EventRecord};
use node_runtime::executive::Executive;
use node_runtime::extrinsic::{Address, Call, Extrinsic, Mortality, Origin, Signature};
use node_runtime::fees::FeeSchedule;
use node_runtime::inherents::{InherentEntry, InherentError};
use node_runtime::ledger::Ledger;
use node_runtime::primitives::H256;
use node_runtime::registry::{Inherent, ModuleDescriptor, PostDispatchInfo, Registry};
use node_runtime::runtime::Runtime;
use node_runtime::state::{Phase, TransactionValidity};
use node_runtime::version::version;

fn module(
    name: &str,
    calls: Vec<u64>,
    inherent: Option<Inherent>,
    worker: bool,
) -> ModuleDescriptor {
    ModuleDescriptor {
        name: name.to_string(),
        calls,
        events: 1,
        storage: true,
        inherent,
        on_initialize: true,
        on_finalize: true,
        offchain_worker: worker,
    }
}

fn runtime() -> Runtime {
    let registry = Registry::new(vec![
        module("System", vec![], None, false),
        module("Timestamp", vec![3], Some(Inherent { identifier: 77, call: 0 }), false),
        module("Balances", vec![5], None, true),
    ])
    .unwrap();
    let mut ledger = Ledger::new();
    ledger.deposit_creating(1, 10_000).unwrap();
    let schedule = FeeSchedule { base_fee: 100, byte_fee: 1, weight_fee: 2 };
    let executive = Executive::new(registry, schedule, ledger, 8, vec![]);
    Runtime::new(
        executive,
        SlotAuthoring::new(6, vec![H256 { high: 0, low: 1 }]),
        FinalityVoting::new(vec![Authority { id: H256 { high: 0, low: 2 }, weight: 1 }]),
    )
}

fn header(number: u64) -> Header {
    Header {
        parent_hash: H256 { high: 0, low: number as u128 },
        number,
        state_root: H256::zero(),
        extrinsics_root: H256::zero(),
        digest: vec![],
    }
}

fn transaction(nonce: u64) -> Vec<u8> {
    Extrinsic::Transaction {
        signer: Address::Id(1),
        signature: Signature { first: H256::zero(), second: H256::zero() },
        nonce,
        mortality: Mortality::Immortal,
        call: Call { module: 2, tag: 0, args: vec![] },
    }
    .encode()
}

#[test]
fn runtime_declares_its_version_and_schema() {
    let runtime = runtime();
    assert_eq!(runtime.version(), version());
    let schema = runtime.metadata();
    assert_eq!(&schema[..7], &[b'm', b'e', b't', b'a', 1, 3, 0]);
    assert_eq!(schema, runtime.executive().registry().metadata());
}

#[test]
fn runtime_builds_a_block() {
    let mut runtime = runtime();
    assert_eq!(runtime.initialize_block(&header(5), 9), Err(BlockImportFatal::BadNumber));
    assert_eq!(runtime.initialize_block(&header(1), 9), Ok(vec![0, 1, 2]));
    let inherents =
        runtime.inherent_extrinsics(&vec![InherentEntry { identifier: 77, data: vec![4] }]);
    assert_eq!(inherents.len(), 1);
    let dispatch = runtime.apply_extrinsic(&inherents[0].encode(), false).unwrap();
    assert_eq!(dispatch.origin, Origin::Unsigned);
    assert_eq!(dispatch.call, Call { module: 1, tag: 0, args: vec![4] });
    runtime.note_applied_extrinsic(Ok(PostDispatchInfo { actual_weight: 3 }));
    let dispatch = runtime.apply_extrinsic(&transaction(0), true).unwrap();
    assert_eq!(dispatch.origin, Origin::Signed(1));
    runtime.note_applied_extrinsic(Ok(PostDispatchInfo { actual_weight: 5 }));
    assert_eq!(
        runtime.apply_extrinsic(&[0x01], true),
        Err(ApplyError::Malformed(Malformed::Truncated))
    );
    let fee = 100 + 85 + 2 * 5;
    assert_eq!(runtime.executive().ledger().free_balance(1), 10_000 - fee);
    assert_eq!(runtime.executive().ledger().free_balance(8), fee * 4 / 5);
    assert_eq!(runtime.executive().ledger().free_balance(9), fee - fee * 4 / 5);
    assert_eq!(runtime.finalize_block(), vec![2, 1, 0]);
    let sealed = runtime.seal_header(H256 { high: 1, low: 0 }, H256 { high: 2, low: 0 });
    assert_eq!(sealed.number, 1);
    assert_eq!(sealed.state_root, H256 { high: 1, low: 0 });
    assert_eq!(sealed.extrinsics_root, H256 { high: 2, low: 0 });
    assert_eq!(runtime.executive().phase(), Phase::Finalized);
    assert_eq!(runtime.random_seed(), H256 { high: 0, low: 1 });
    assert_eq!(
        runtime.executive().events(),
        &vec![
            EventRecord {
                phase: EventPhase::ApplyExtrinsic(0),
                event: Event::ExtrinsicSuccess { weight: 3, fee: 0 },
            },
            EventRecord {
                phase: EventPhase::ApplyExtrinsic(1),
                event: Event::ExtrinsicSuccess { weight: 5, fee },
            },
        ]
    );
}

#[test]
fn runtime_checks_inherents() {
    let runtime = runtime();
    let data = vec![InherentEntry { identifier: 77, data: vec![4] }];
    let full = Block { header: header(1), extrinsics: runtime.inherent_extrinsics(&data) };
    assert_eq!(runtime.check_inherents(&full, &data), Ok(()));
    let empty = Block { header: header(1), extrinsics: vec![] };
    assert_eq!(runtime.check_inherents(&empty, &data), Err(InherentError::Missing(1)));
}

#[test]
fn runtime_validates_for_the_pool() {
    let runtime = runtime();
    assert_eq!(
        runtime.validate_transaction(&transaction(0), true),
        TransactionValidity::Valid { priority: 85, longevity: u64::MAX, required: vec![] }
    );
    assert_eq!(runtime.executive().ledger().free_balance(1), 10_000);
}

#[test]
fn runtime_schedules_offchain_workers() {
    assert_eq!(runtime().offchain_worker(1), vec![2]);
}

#[test]
fn runtime_answers_the_consensus_engines() {
    let runtime = runtime();
    assert_eq!(runtime.slot_duration(), 6);
    assert_eq!(runtime.authorities(), vec![H256 { high: 0, low: 1 }]);
    assert_eq!(
        runtime.grandpa_authorities(),
        vec![Authority { id: H256 { high: 0, low: 2 }, weight: 1 }]
    );
    let mut scheduled = vec![0x01];
    scheduled.extend_from_slice(&12u64.to_le_bytes());
    let mut forced = vec![0x02];
    forced.extend_from_slice(&3u64.to_le_bytes());
    forced.extend_from_slice(&4u64.to_le_bytes());
    let digest = vec![
        DigestItem { kind: DigestKind::Consensus, engine: GRANDPA_ENGINE_ID, data: scheduled },
        DigestItem { kind: DigestKind::Consensus, engine: GRANDPA_ENGINE_ID, data: forced },
    ];
    assert_eq!(
        runtime.grandpa_pending_change(&digest),
        Some(ScheduledChange { next_authorities: vec![], delay: 12 })
    );
    assert_eq!(
        runtime.grandpa_forced_change(&digest),
        Some((3, ScheduledChange { next_authorities: vec![], delay: 4 }))
    );
    assert_eq!(runtime.grandpa_pending_change(&vec![]), None);
}

#[test]
fn runtime_snapshot_undoes_a_block() {
    let mut runtime = runtime();
    let before = runtime.snapshot();
    runtime.initialize_block(&header(1), 9).unwrap();
    runtime.apply_extrinsic(&transaction(0), true).unwrap();
    runtime.note_applied_extrinsic(Ok(PostDispatchInfo { actual_weight: 5 }));
    runtime.executive_mut().deposit_event(2, 0, vec![1]).unwrap();
    assert_eq!(runtime.executive().events().len(), 2);
    assert_eq!(runtime.executive().ledger().account_nonce(1), 1);
    runtime = before;
    assert_eq!(runtime.executive().phase(), Phase::Uninitialized);
    assert_eq!(runtime.executive().ledger().account_nonce(1), 0);
    assert_eq!(runtime.executive().ledger().free_balance(1), 10_000);
    assert_eq!(runtime.slot_duration(), 6);
    assert_eq!(runtime.authorities(), vec![H256 { high: 0, low: 1 }]);
    assert_eq!(runtime.grandpa_authorities().len(), 1);
    assert_eq!(runtime.initialize_block(&header(1), 9), Ok(vec![0, 1, 2]));
}
