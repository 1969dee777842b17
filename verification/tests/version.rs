use node_runtime::version::{
    native_version, version, Api, ApiVersion, NativeVersion, RuntimeVersion,
};

#[test]
fn version_names_the_node() {
    let declared = version();
    assert_eq!(declared.spec_name, "node");
    assert_eq!(declared.impl_name, "darwinia-node");
    assert_eq!(declared.authoring_version, 2);
    assert_eq!(declared.spec_version, 78);
    assert_eq!(declared.impl_version, 78);
    assert_eq!(
        declared.apis,
        vec![
            ApiVersion { api: Api::Core, version: 1 },
            ApiVersion { api: Api::Metadata, version: 1 },
            ApiVersion { api: Api::BlockBuilder, version: 1 },
            ApiVersion { api: Api::TaggedTransactionQueue, version: 1 },
            ApiVersion { api: Api::OffchainWorker, version: 1 },
            ApiVersion { api: Api::Grandpa, version: 1 },
            ApiVersion { api: Api::Aura, version: 1 },
        ]
    );
}

#[test]
fn native_version_wraps_the_version() {
    let native = native_version();
    assert_eq!(native.runtime_version, version());
    assert!(native.can_author_with.is_empty());
}

#[test]
fn apis_are_found_by_exact_version() {
    let declared = version();
    assert!(declared.has_api(Api::Core, 1));
    assert!(declared.has_api(Api::Aura, 1));
    assert!(!declared.has_api(Api::Core, 2));
    assert!(!declared.has_api(Api::Grandpa, 0));
    let bare = RuntimeVersion { apis: vec![], ..version() };
    assert!(!bare.has_api(Api::Core, 1));
}

#[test]
fn authoring_needs_same_spec_and_authoring_version() {
    let ours = version();
    assert!(ours.can_author_with(&version()));
    let newer_spec = RuntimeVersion { spec_version: 79, impl_version: 1, ..version() };
    assert!(ours.can_author_with(&newer_spec));
    let other_authoring = RuntimeVersion { authoring_version: 3, ..version() };
    assert!(!ours.can_author_with(&other_authoring));
    let other_chain = RuntimeVersion { spec_name: "other".to_string(), ..version() };
    assert!(!ours.can_author_with(&other_chain));
}

#[test]
fn native_version_may_list_compatible_authoring_versions() {
    let other_authoring = RuntimeVersion { authoring_version: 3, ..version() };
    let other_chain = RuntimeVersion { spec_name: "other".to_string(), ..version() };
    let strict = native_version();
    assert!(strict.can_author_with(&version()));
    assert!(!strict.can_author_with(&other_authoring));
    let lenient = NativeVersion { runtime_version: version(), can_author_with: vec![1, 3] };
    assert!(lenient.can_author_with(&other_authoring));
    assert!(lenient.can_author_with(&version()));
    assert!(!lenient.can_author_with(&RuntimeVersion { authoring_version: 4, ..version() }));
    assert!(!lenient.can_author_with(&RuntimeVersion { authoring_version: 3, ..other_chain }));
}

#[test]
fn calling_needs_the_same_spec_in_the_same_version() {
    let ours = version();
    assert!(ours.can_call_with(&version()));
    assert!(ours.can_call_with(&RuntimeVersion { impl_version: 1, ..version() }));
    assert!(!ours.can_call_with(&RuntimeVersion { spec_version: 79, ..version() }));
    assert!(!ours.can_call_with(&RuntimeVersion { authoring_version: 3, ..version() }));
    assert!(!ours.can_call_with(&RuntimeVersion { spec_name: "other".to_string(), ..version() }));
}
