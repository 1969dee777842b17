//! The version that the runtime declares of itself, by which a host picks
//! an execution environment that fits.

use vstd::prelude::*;

verus! {

/// The interfaces through which the host and the consensus engines reach
/// the runtime.
#[derive(Clone, Copy, Debug, PartialEq, Eq, Structural)]
pub enum Api {
    /// Version query and block execution.
    Core,
    /// Schema query.
    Metadata,
    /// Block building: applying extrinsics, closing the block, inherents.
    BlockBuilder,
    /// Admission check of the transaction pool.
    TaggedTransactionQueue,
    /// Trigger of the offchain workers.
    OffchainWorker,
    /// Queries of the finality-voting engine.
    Grandpa,
    /// Queries of the slot-authoring engine.
    Aura,
}

/// An interface together with the version of it that is implemented.
#[derive(Clone, Copy, Debug, PartialEq, Eq, Structural)]
pub struct ApiVersion {
    pub api: Api,
    pub version: u32,
}

/// What a runtime declares of itself.
#[derive(Clone, Debug, PartialEq, Eq)]
pub struct RuntimeVersion {
    /// Name of the specification that the runtime follows.
    pub spec_name: String,
    /// Name of this implementation of the specification.
    pub impl_name: String,
    /// Version of the authoring interface.
    pub authoring_version: u32,
    /// Version of the specification.
    pub spec_version: u32,
    /// Version of the implementation.
    pub impl_version: u32,
    /// The interfaces that are implemented, each with its version.
    pub apis: Vec<ApiVersion>,
}

/// Mathematical content of a runtime version.
pub struct RuntimeVersionSpec {
    pub spec_name: Seq<char>,
    pub impl_name: Seq<char>,
    pub authoring_version: u32,
    pub spec_version: u32,
    pub impl_version: u32,
    pub apis: Seq<ApiVersion>,
}

impl View for RuntimeVersion {
    type V = RuntimeVersionSpec;

    open spec fn view(&self) -> RuntimeVersionSpec {
        RuntimeVersionSpec {
            spec_name: self.spec_name@,
            impl_name: self.impl_name@,
            authoring_version: self.authoring_version,
            spec_version: self.spec_version,
            impl_version: self.impl_version,
            apis: self.apis@,
        }
    }
}

impl RuntimeVersionSpec {
    /// Whether a host that holds this runtime may call into `other` in its
    /// place: both follow the same specification in the same version, and
    /// have the same authoring version.
    pub open spec fn can_call_with(self, other: RuntimeVersionSpec) -> bool {
        self.spec_version == other.spec_version && self.spec_name == other.spec_name
            && self.authoring_version == other.authoring_version
    }

    /// Whether blocks authored with this runtime fit a chain that runs
    /// `other`: both follow the same specification and have the same
    /// authoring version.
    pub open spec fn can_author_with(self, other: RuntimeVersionSpec) -> bool {
        self.spec_name == other.spec_name && self.authoring_version == other.authoring_version
    }

    /// Whether the interface is implemented in exactly this version.
    pub open spec fn has_api(self, api: Api, version: u32) -> bool {
        self.apis.contains(ApiVersion { api, version })
    }
}

/// The version of this runtime.
pub open spec fn spec_version() -> RuntimeVersionSpec {
    RuntimeVersionSpec {
        spec_name: "node"@,
        impl_name: "darwinia-node"@,
        authoring_version: 2,
        spec_version: 78,
        impl_version: 78,
        apis: seq![
            ApiVersion { api: Api::Core, version: 1 },
            ApiVersion { api: Api::Metadata, version: 1 },
            ApiVersion { api: Api::BlockBuilder, version: 1 },
            ApiVersion { api: Api::TaggedTransactionQueue, version: 1 },
            ApiVersion { api: Api::OffchainWorker, version: 1 },
            ApiVersion { api: Api::Grandpa, version: 1 },
            ApiVersion { api: Api::Aura, version: 1 },
        ],
    }
}

/// The version of this runtime.
pub fn version() -> (version: RuntimeVersion)
    ensures
        version@ == spec_version(),
{
    let mut apis: Vec<ApiVersion> = Vec::new();
    apis.push(ApiVersion { api: Api::Core, version: 1 });
    apis.push(ApiVersion { api: Api::Metadata, version: 1 });
    apis.push(ApiVersion { api: Api::BlockBuilder, version: 1 });
    apis.push(ApiVersion { api: Api::TaggedTransactionQueue, version: 1 });
    apis.push(ApiVersion { api: Api::OffchainWorker, version: 1 });
    apis.push(ApiVersion { api: Api::Grandpa, version: 1 });
    apis.push(ApiVersion { api: Api::Aura, version: 1 });
    assert(apis@ =~= spec_version().apis);
    RuntimeVersion {
        spec_name: "node".to_string(),
        impl_name: "darwinia-node".to_string(),
        authoring_version: 2,
        spec_version: 78,
        impl_version: 78,
        apis,
    }
}

impl RuntimeVersion {
    /// Whether a host that holds this runtime may call into `other` in its
    /// place.
    pub fn can_call_with(&self, other: &RuntimeVersion) -> (fits: bool)
        ensures
            fits == self@.can_call_with(other@),
    {
        self.spec_version == other.spec_version && self.spec_name == other.spec_name
            && self.authoring_version == other.authoring_version
    }

    /// Whether blocks authored with this runtime fit a chain that runs
    /// `other`.
    pub fn can_author_with(&self, other: &RuntimeVersion) -> (fits: bool)
        ensures
            fits == self@.can_author_with(other@),
    {
        self.authoring_version == other.authoring_version && self.spec_name == other.spec_name
    }

    /// Whether the interface is implemented in exactly this version.
    pub fn has_api(&self, api: Api, version: u32) -> (found: bool)
        ensures
            found == self@.has_api(api, version),
    {
        let mut i: usize = 0;
        while i < self.apis.len()
            invariant
                i <= self.apis.len(),
                forall|k: int| 0 <= k < i ==> self.apis@[k] != (ApiVersion { api, version }),
            decreases self.apis.len() - i,
        {
            if self.apis[i].api == api && self.apis[i].version == version {
                return true;
            }
            i = i + 1;
        }
        false
    }
}

/// The version of the runtime that is compiled into the host, together
/// with the other authoring versions that the host can author with.
#[derive(Clone, Debug, PartialEq, Eq)]
pub struct NativeVersion {
    pub runtime_version: RuntimeVersion,
    /// Authoring versions, besides the runtime's own, that are compatible.
    pub can_author_with: Vec<u32>,
}

impl NativeVersion {
    /// Whether the native runtime may author blocks for a chain that runs
    /// `other`: both follow the same specification, and the authoring
    /// version of `other` is the native one or is listed as compatible.
    pub open spec fn spec_can_author_with(&self, other: RuntimeVersionSpec) -> bool {
        self.runtime_version@.spec_name == other.spec_name && (
        self.runtime_version.authoring_version == other.authoring_version
            || self.can_author_with@.contains(other.authoring_version))
    }

    /// Whether the native runtime may author blocks for a chain that runs
    /// `other`.
    #[verifier::loop_isolation(false)]
    pub fn can_author_with(&self, other: &RuntimeVersion) -> (fits: bool)
        ensures
            fits == self.spec_can_author_with(other@),
    {
        if !(self.runtime_version.spec_name == other.spec_name) {
            return false;
        }
        if self.runtime_version.authoring_version == other.authoring_version {
            return true;
        }
        let mut i: usize = 0;
        while i < self.can_author_with.len()
            invariant
                i <= self.can_author_with.len(),
                forall|k: int| 0 <= k < i ==> self.can_author_with@[k] != other.authoring_version,
            decreases self.can_author_with.len() - i,
        {
            if self.can_author_with[i] == other.authoring_version {
                return true;
            }
            i = i + 1;
        }
        false
    }
}

/// The native version: this runtime's version, with no other authoring
/// version listed as compatible.
pub fn native_version() -> (native: NativeVersion)
    ensures
        native.runtime_version@ == spec_version(),
        native.can_author_with@ == Seq::<u32>::empty(),
{
    NativeVersion { runtime_version: version(), can_author_with: Vec::new() }
}

} // verus!
