use node_runtime::error::Malformed;
use node_runtime::primitives::Duplicate;
use node_runtime::extrinsic::{Call, Origin};
use node_runtime::registry::{Dispatch, Inherent, ModuleDescriptor, Registry, RegistryError};

fn call(module: u8, tag: u8) -> Call {
    Call { module, tag, args: vec![module, tag] }
}

fn module(name: &str, calls: Vec<u64>, events: u16, init: bool, fin: bool) -> ModuleDescriptor {
    ModuleDescriptor {
        name: name.to_string(),
        calls,
        events,
        storage: true,
        inherent: None,
        on_initialize: init,
        on_finalize: fin,
        offchain_worker: false,
    }
}

fn three() -> Registry {
    Registry::new(vec![
        module("A", vec![10], 1, true, true),
        module("B", vec![20, 30], 2, true, true),
        module("C", vec![], 0, true, true),
    ])
    .unwrap()
}

#[test]
fn hooks_fire_in_registry_order_and_unwind_in_reverse() {
    let registry = three();
    assert_eq!(registry.on_initialize_order(), vec![0, 1, 2]);
    assert_eq!(registry.on_finalize_order(), vec![2, 1, 0]);
}

#[test]
fn only_modules_with_a_hook_are_scheduled() {
    let registry = Registry::new(vec![
        module("A", vec![], 0, false, true),
        module("B", vec![], 0, true, false),
        module("C", vec![], 0, false, false),
        module("D", vec![], 0, true, true),
    ])
    .unwrap();
    assert_eq!(registry.on_initialize_order(), vec![1, 3]);
    assert_eq!(registry.on_finalize_order(), vec![3, 0]);
}

#[test]
fn empty_registry_has_no_hooks_and_no_calls() {
    let registry = Registry::new(Vec::new()).unwrap();
    assert_eq!(registry.len(), 0);
    assert!(registry.on_initialize_order().is_empty());
    assert!(registry.on_finalize_order().is_empty());
    assert_eq!(registry.resolve(&call(0, 0)).err(), Some(Malformed::UnknownModule));
    assert!(registry.module(0).is_none());
    assert!(!registry.has_event(0, 0));
}

#[test]
fn resolve_finds_the_module_of_a_call() {
    let registry = three();
    assert_eq!(registry.len(), 3);
    assert_eq!(registry.resolve(&call(0, 0)).unwrap().name, "A");
    assert_eq!(registry.resolve(&call(1, 1)).unwrap().name, "B");
    assert_eq!(registry.resolve(&call(0, 1)).err(), Some(Malformed::UnknownCall));
    assert_eq!(registry.resolve(&call(1, 2)).err(), Some(Malformed::UnknownCall));
    assert_eq!(registry.resolve(&call(2, 0)).err(), Some(Malformed::UnknownCall));
    assert_eq!(registry.resolve(&call(3, 0)).err(), Some(Malformed::UnknownModule));
    assert_eq!(registry.resolve(&call(255, 255)).err(), Some(Malformed::UnknownModule));
    assert_eq!(registry.module(2).unwrap().name, "C");
    assert!(registry.module(3).is_none());
}

#[test]
fn call_weight_is_the_declared_one() {
    let registry = three();
    assert_eq!(registry.call_weight(0, 0), Some(10));
    assert_eq!(registry.call_weight(1, 0), Some(20));
    assert_eq!(registry.call_weight(1, 1), Some(30));
    assert_eq!(registry.call_weight(1, 2), None);
    assert_eq!(registry.call_weight(2, 0), None);
    assert_eq!(registry.call_weight(9, 0), None);
}

#[test]
fn event_variants_are_known_by_tag() {
    let registry = three();
    assert!(registry.has_event(0, 0));
    assert!(!registry.has_event(0, 1));
    assert!(registry.has_event(1, 1));
    assert!(!registry.has_event(1, 2));
    assert!(!registry.has_event(2, 0));
    assert!(!registry.has_event(3, 0));
}

#[test]
fn duplicate_name_is_refused() {
    let refused = Registry::new(vec![
        module("A", vec![], 0, true, true),
        module("B", vec![], 0, true, true),
        module("A", vec![], 0, true, true),
    ]);
    assert_eq!(refused.err(), Some(RegistryError::DuplicateName(2)));
}

#[test]
fn bad_name_is_refused() {
    let refused =
        Registry::new(vec![module("A", vec![], 0, true, true), module("", vec![], 0, true, true)]);
    assert_eq!(refused.err(), Some(RegistryError::BadName(1)));
    let long = "x".repeat(256);
    let refused = Registry::new(vec![module(&long, vec![], 0, true, true)]);
    assert_eq!(refused.err(), Some(RegistryError::BadName(0)));
    let longest = "x".repeat(255);
    assert!(Registry::new(vec![module(&longest, vec![], 0, true, true)]).is_ok());
}

#[test]
fn too_many_variants_are_refused() {
    let refused = Registry::new(vec![module("A", vec![1; 257], 0, true, true)]);
    assert_eq!(refused.err(), Some(RegistryError::TooManyCalls(0)));
    let refused = Registry::new(vec![
        module("A", vec![1; 256], 256, true, true),
        module("B", vec![], 257, true, true),
    ]);
    assert_eq!(refused.err(), Some(RegistryError::TooManyEvents(1)));
    let full = Registry::new(vec![module("A", vec![1; 256], 256, true, true)]).unwrap();
    assert_eq!(full.call_weight(0, 255), Some(1));
    assert!(full.has_event(0, 255));
}

#[test]
fn first_defect_is_the_one_reported() {
    let refused = Registry::new(vec![
        module("A", vec![1; 300], 0, true, true),
        module("A", vec![], 0, true, true),
    ]);
    assert_eq!(refused.err(), Some(RegistryError::TooManyCalls(0)));
    let refused = Registry::new(vec![
        module("A", vec![], 0, true, true),
        module("A", vec![1; 300], 300, true, true),
    ]);
    assert_eq!(refused.err(), Some(RegistryError::DuplicateName(1)));
}

#[test]
fn too_many_modules_are_refused() {
    let mut modules = Vec::new();
    for i in 0..257 {
        modules.push(module(&format!("M{}", i), vec![], 0, true, true));
    }
    assert_eq!(Registry::new(modules).err(), Some(RegistryError::TooManyModules));
    let mut modules = Vec::new();
    for i in 0..256 {
        modules.push(module(&format!("M{}", i), vec![7], 0, true, true));
    }
    let registry = Registry::new(modules).unwrap();
    assert_eq!(registry.len(), 256);
    assert_eq!(registry.call_weight(255, 0), Some(7));
    let order = registry.on_initialize_order();
    assert_eq!(order.len(), 256);
    assert_eq!(order[0], 0);
    assert_eq!(order[255], 255);
    let order = registry.on_finalize_order();
    assert_eq!(order[0], 255);
    assert_eq!(order[255], 0);
}

#[test]
fn inherent_must_name_a_call_of_its_module() {
    let mut timestamp = module("Timestamp", vec![5], 0, true, true);
    timestamp.inherent = Some(Inherent { identifier: 7, call: 1 });
    let refused = Registry::new(vec![module("System", vec![], 0, true, true), timestamp]);
    assert_eq!(refused.err(), Some(RegistryError::BadInherent(1)));
    let mut timestamp = module("Timestamp", vec![5], 0, true, true);
    timestamp.inherent = Some(Inherent { identifier: 7, call: 0 });
    assert!(Registry::new(vec![timestamp]).is_ok());
}

#[test]
fn offchain_workers_run_in_registry_order() {
    let mut first = module("A", vec![], 0, true, true);
    let second = module("B", vec![], 0, true, true);
    let mut third = module("C", vec![], 0, false, false);
    first.offchain_worker = true;
    third.offchain_worker = true;
    let registry = Registry::new(vec![first, second, third]).unwrap();
    assert_eq!(registry.offchain_order(), vec![0, 2]);
    assert!(three().offchain_order().is_empty());
}

#[test]
fn dispatch_carries_origin_call_and_weight() {
    let registry = three();
    assert_eq!(
        registry.dispatch(Origin::Root, call(1, 1)),
        Ok(Dispatch { origin: Origin::Root, call: call(1, 1), weight: 30 })
    );
    assert_eq!(
        registry.dispatch(Origin::Signed(4), call(0, 0)),
        Ok(Dispatch { origin: Origin::Signed(4), call: call(0, 0), weight: 10 })
    );
    assert_eq!(registry.dispatch(Origin::Unsigned, call(1, 2)), Err(Malformed::UnknownCall));
    assert_eq!(registry.dispatch(Origin::Unsigned, call(3, 0)), Err(Malformed::UnknownModule));
}

#[test]
fn every_pair_resolves_exactly_when_registered() {
    let registry = three();
    let shapes: [usize; 3] = [1, 2, 0];
    for module in 0..=255u8 {
        for tag in 0..=255u8 {
            let registered = (module as usize) < 3 && (tag as usize) < shapes[module as usize];
            let expected = if (module as usize) >= 3 {
                Err(Malformed::UnknownModule)
            } else if !registered {
                Err(Malformed::UnknownCall)
            } else {
                Ok(())
            };
            assert_eq!(registry.resolve(&call(module, tag)).map(|_| ()), expected);
            assert_eq!(registry.call_weight(module, tag).is_some(), registered);
        }
    }
}

#[test]
fn snapshot_holds_the_same_modules() {
    let registry = three();
    let copy = registry.snapshot();
    assert_eq!(copy.len(), 3);
    assert_eq!(copy.metadata(), registry.metadata());
    assert_eq!(copy.module(1).unwrap().name, "B");
    assert_eq!(copy.module(1).unwrap().duplicate().calls, vec![20, 30]);
}
