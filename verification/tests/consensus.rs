use node_runtime::block::{DigestItem, DigestKind};
use node_runtime::consensus::{
    Authority, FinalityVoting, ScheduledChange, SlotAuthoring, AURA_ENGINE_ID, GRANDPA_ENGINE_ID,
};
use node_runtime::primitives::H256;

fn id(n: u128) -> H256 {
    H256 { high: n, low: n + 1 }
}

fn authority_bytes(id: H256, weight: u64) -> Vec<u8> {
    let mut bytes = Vec::new();
    bytes.extend_from_slice(&id.high.to_le_bytes());
    bytes.extend_from_slice(&id.low.to_le_bytes());
    bytes.extend_from_slice(&weight.to_le_bytes());
    bytes
}

fn scheduled(delay: u64, authorities: &[(H256, u64)]) -> DigestItem {
    let mut data = vec![0x01];
    data.extend_from_slice(&delay.to_le_bytes());
    for (id, weight) in authorities {
        data.extend(authority_bytes(*id, *weight));
    }
    DigestItem { kind: DigestKind::Consensus, engine: GRANDPA_ENGINE_ID, data }
}

fn forced(median: u64, delay: u64, authorities: &[(H256, u64)]) -> DigestItem {
    let mut data = vec![0x02];
    data.extend_from_slice(&median.to_le_bytes());
    data.extend_from_slice(&delay.to_le_bytes());
    for (id, weight) in authorities {
        data.extend(authority_bytes(*id, *weight));
    }
    DigestItem { kind: DigestKind::Consensus, engine: GRANDPA_ENGINE_ID, data }
}

fn seal() -> DigestItem {
    DigestItem { kind: DigestKind::Seal, engine: AURA_ENGINE_ID, data: vec![1, 2, 3] }
}

#[test]
fn engine_ids_spell_their_names() {
    assert_eq!(&AURA_ENGINE_ID.to_le_bytes(), b"aura");
    assert_eq!(&GRANDPA_ENGINE_ID.to_le_bytes(), b"FRNK");
}

#[test]
fn slot_adapter_answers_duration_and_authorities() {
    let mut adapter = SlotAuthoring::new(6, vec![id(1), id(5)]);
    assert_eq!(adapter.slot_duration(), 6);
    assert_eq!(adapter.authorities(), vec![id(1), id(5)]);
    adapter.set_authorities(vec![id(9)]);
    assert_eq!(adapter.authorities(), vec![id(9)]);
    assert_eq!(adapter.slot_duration(), 6);
}

#[test]
fn finality_adapter_answers_weighted_authorities() {
    let mut adapter = FinalityVoting::new(vec![Authority { id: id(1), weight: 3 }]);
    assert_eq!(adapter.current_authorities(), vec![Authority { id: id(1), weight: 3 }]);
    adapter.set_authorities(vec![]);
    assert!(adapter.current_authorities().is_empty());
}

#[test]
fn first_scheduled_change_is_pending() {
    let digest = vec![
        seal(),
        forced(3, 4, &[(id(7), 1)]),
        scheduled(10, &[(id(1), 2), (id(3), 4)]),
        scheduled(20, &[]),
    ];
    assert_eq!(
        FinalityVoting::pending_change(&digest),
        Some(ScheduledChange {
            next_authorities: vec![
                Authority { id: id(1), weight: 2 },
                Authority { id: id(3), weight: 4 },
            ],
            delay: 10,
        })
    );
    assert_eq!(
        FinalityVoting::forced_change(&digest),
        Some((
            3,
            ScheduledChange { next_authorities: vec![Authority { id: id(7), weight: 1 }], delay: 4 }
        ))
    );
}

#[test]
fn digest_without_signal_has_no_change() {
    assert_eq!(FinalityVoting::pending_change(&vec![]), None);
    assert_eq!(FinalityVoting::forced_change(&vec![]), None);
    assert_eq!(FinalityVoting::pending_change(&vec![seal(), forced(1, 2, &[])]), None);
    assert_eq!(FinalityVoting::forced_change(&vec![seal(), scheduled(1, &[])]), None);
}

#[test]
fn empty_authority_list_is_a_change() {
    assert_eq!(
        FinalityVoting::pending_change(&vec![scheduled(0, &[])]),
        Some(ScheduledChange { next_authorities: vec![], delay: 0 })
    );
    assert_eq!(
        FinalityVoting::forced_change(&vec![forced(u64::MAX, 1, &[])]),
        Some((u64::MAX, ScheduledChange { next_authorities: vec![], delay: 1 }))
    );
}

#[test]
fn ill_formed_signals_are_passed_over() {
    let mut cut = scheduled(5, &[(id(1), 2)]);
    cut.data.pop();
    let mut short = scheduled(5, &[]);
    short.data.truncate(8);
    let mut wrong_engine = scheduled(6, &[]);
    wrong_engine.engine = AURA_ENGINE_ID;
    let mut wrong_kind = scheduled(7, &[]);
    wrong_kind.kind = DigestKind::PreRuntime;
    let mut unknown = scheduled(8, &[]);
    unknown.data[0] = 0x03;
    let empty = DigestItem { kind: DigestKind::Consensus, engine: GRANDPA_ENGINE_ID, data: vec![] };
    let digest = vec![cut, short, wrong_engine, wrong_kind, unknown, empty, scheduled(9, &[])];
    assert_eq!(
        FinalityVoting::pending_change(&digest),
        Some(ScheduledChange { next_authorities: vec![], delay: 9 })
    );
    let mut cut = forced(1, 5, &[(id(1), 2)]);
    cut.data.push(0);
    let mut short = forced(1, 5, &[]);
    short.data.truncate(16);
    assert_eq!(FinalityVoting::forced_change(&vec![cut, short]), None);
}
