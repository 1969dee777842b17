use node_runtime::registry::{Inherent, ModuleDescriptor, Registry};

#[test]
fn empty_registry_has_a_bare_schema() {
    let registry = Registry::new(Vec::new()).unwrap();
    assert_eq!(registry.metadata(), vec![b'm', b'e', b't', b'a', 1, 0, 0]);
}

#[test]
fn schema_lists_modules_in_registry_order() {
    let registry = Registry::new(vec![
        ModuleDescriptor {
            name: "System".to_string(),
            calls: vec![],
            events: 2,
            storage: true,
            inherent: None,
            on_initialize: false,
            on_finalize: false,
            offchain_worker: false,
        },
        ModuleDescriptor {
            name: "Ts".to_string(),
            calls: vec![0x0102, 7],
            events: 0,
            storage: false,
            inherent: Some(Inherent { identifier: 0x1122_3344_5566_7788, call: 1 }),
            on_initialize: true,
            on_finalize: true,
            offchain_worker: true,
        },
    ])
    .unwrap();
    let mut expected: Vec<u8> = vec![b'm', b'e', b't', b'a', 1, 2, 0];
    expected.extend_from_slice(&[0, 6]);
    expected.extend_from_slice(b"System");
    expected.extend_from_slice(&[0, 0, 2, 0, 1]);
    expected.extend_from_slice(&[1, 2]);
    expected.extend_from_slice(b"Ts");
    expected.extend_from_slice(&[2, 0]);
    expected.extend_from_slice(&[0x02, 0x01, 0, 0, 0, 0, 0, 0]);
    expected.extend_from_slice(&[7, 0, 0, 0, 0, 0, 0, 0]);
    expected.extend_from_slice(&[0, 0, 2 + 4 + 8 + 16]);
    expected.extend_from_slice(&[0x88, 0x77, 0x66, 0x55, 0x44, 0x33, 0x22, 0x11, 1]);
    assert_eq!(registry.metadata(), expected);
}

#[test]
fn schema_changes_with_the_order() {
    let module = |name: &str| ModuleDescriptor {
        name: name.to_string(),
        calls: vec![1],
        events: 1,
        storage: true,
        inherent: None,
        on_initialize: true,
        on_finalize: true,
        offchain_worker: false,
    };
    let forward = Registry::new(vec![module("A"), module("B")]).unwrap().metadata();
    let backward = Registry::new(vec![module("B"), module("A")]).unwrap().metadata();
    assert_ne!(forward, backward);
    assert_eq!(forward.len(), backward.len());
    assert_eq!(forward[7..9], [0, 1]);
    assert_eq!(forward[9], b'A');
    assert_eq!(backward[9], b'B');
}

#[test]
fn schema_holds_the_largest_shapes() {
    let registry = Registry::new(vec![ModuleDescriptor {
        name: "x".repeat(255),
        calls: vec![u64::MAX; 256],
        events: 256,
        storage: true,
        inherent: Some(Inherent { identifier: u64::MAX, call: 255 }),
        on_initialize: true,
        on_finalize: true,
        offchain_worker: true,
    }])
    .unwrap();
    let schema = registry.metadata();
    assert_eq!(schema.len(), 7 + 2 + 255 + 2 + 256 * 8 + 2 + 1 + 9);
    assert_eq!(schema[8], 255);
    assert_eq!(schema[264..266], [0, 1]);
    assert_eq!(schema[266 + 2048..266 + 2048 + 3], [0, 1, 31]);
}
