//! The module registry: the fixed, ordered catalogue of the modules that
//! make up the runtime.
//!
//! The position of a module in the registry is its index. The index tags the
//! module's calls and events, and the order of the registry is the order in
//! which lifecycle hooks fire.

use crate::error::{DispatchError, Malformed};
use crate::extrinsic::{Call, CallSpec, Origin};
use crate::primitives::{duplicate_all, views, Duplicate, ModuleIndex, Weight};
use vstd::prelude::*;
use vstd::utf8::encode_utf8;

verus! {

/// Most modules a registry can hold: one per value of a module index.
pub const MAX_MODULES: usize = 256;

/// Most call variants, and most event variants, of one module: one per value
/// of a tag.
pub const MAX_VARIANTS: usize = 256;

/// Longest module name, in bytes.
pub const MAX_NAME_BYTES: usize = 255;

/// The inherent that a module contributes to every block: the block author
/// takes the data filed under the identifier and puts it into the block as
/// the arguments of one of the module's calls.
#[derive(Clone, Copy, Debug, PartialEq, Eq, Structural)]
pub struct Inherent {
    /// Identifier under which the author's data is filed.
    pub identifier: u64,
    /// Tag of the call variant that carries the data.
    pub call: u8,
}

/// What a module declares of itself when it is registered.
#[derive(Clone, Debug, PartialEq, Eq)]
pub struct ModuleDescriptor {
    /// Name of the module, which is also the namespace of its storage.
    pub name: String,
    /// Weight of each call variant. The tag of a variant is its position.
    pub calls: Vec<Weight>,
    /// Number of event variants. The tags of the variants are the numbers
    /// below it.
    pub events: u16,
    /// Whether the module keeps storage under its namespace.
    pub storage: bool,
    /// The inherent that the module contributes to every block, if any.
    pub inherent: Option<Inherent>,
    /// Whether the module has a hook that runs when a block is opened.
    pub on_initialize: bool,
    /// Whether the module has a hook that runs when a block is closed.
    pub on_finalize: bool,
    /// Whether the module has a worker that runs off the chain after a
    /// block was imported.
    pub offchain_worker: bool,
}

/// Mathematical content of a module descriptor.
pub struct ModuleSpec {
    pub name: Seq<char>,
    pub calls: Seq<Weight>,
    pub events: nat,
    pub storage: bool,
    pub inherent: Option<Inherent>,
    pub on_initialize: bool,
    pub on_finalize: bool,
    pub offchain_worker: bool,
}

impl View for ModuleDescriptor {
    type V = ModuleSpec;

    open spec fn view(&self) -> ModuleSpec {
        ModuleSpec {
            name: self.name@,
            calls: self.calls@,
            events: self.events as nat,
            storage: self.storage,
            inherent: self.inherent,
            on_initialize: self.on_initialize,
            on_finalize: self.on_finalize,
            offchain_worker: self.offchain_worker,
        }
    }
}

impl Duplicate for ModuleDescriptor {
    fn duplicate(&self) -> (copy: ModuleDescriptor) {
        ModuleDescriptor {
            name: self.name.clone(),
            calls: self.calls.clone(),
            events: self.events,
            storage: self.storage,
            inherent: self.inherent,
            on_initialize: self.on_initialize,
            on_finalize: self.on_finalize,
            offchain_worker: self.offchain_worker,
        }
    }
}

/// Why a list of descriptors does not make a registry.
#[derive(Clone, Copy, Debug, PartialEq, Eq, Structural)]
pub enum RegistryError {
    /// There are more modules than module indices.
    TooManyModules,
    /// The name of the module at this index is empty or too long.
    BadName(ModuleIndex),
    /// The module at this index has the name of an earlier module.
    DuplicateName(ModuleIndex),
    /// The module at this index has more call variants than tags.
    TooManyCalls(ModuleIndex),
    /// The module at this index has more event variants than tags.
    TooManyEvents(ModuleIndex),
    /// The inherent of the module at this index names a call variant that
    /// the module does not have.
    BadInherent(ModuleIndex),
}

/// What is wrong with the module at position `i`, if anything. The name is
/// judged first, then the calls, the events, and the inherent.
pub open spec fn module_defect(modules: Seq<ModuleSpec>, i: int) -> Option<RegistryError> {
    let module = modules[i];
    let name_bytes = encode_utf8(module.name).len();
    if name_bytes == 0 || name_bytes > MAX_NAME_BYTES {
        Some(RegistryError::BadName(i as ModuleIndex))
    } else if exists|j: int| 0 <= j < i && #[trigger] modules[j].name == module.name {
        Some(RegistryError::DuplicateName(i as ModuleIndex))
    } else if module.calls.len() > MAX_VARIANTS {
        Some(RegistryError::TooManyCalls(i as ModuleIndex))
    } else if module.events > MAX_VARIANTS {
        Some(RegistryError::TooManyEvents(i as ModuleIndex))
    } else if module.inherent matches Some(inherent) && inherent.call >= module.calls.len() {
        Some(RegistryError::BadInherent(i as ModuleIndex))
    } else {
        None
    }
}

/// The defect of the first defective module at or after position `from`.
pub open spec fn first_defect(modules: Seq<ModuleSpec>, from: int) -> Option<RegistryError>
    decreases modules.len() - from,
{
    if from < 0 || from >= modules.len() {
        None
    } else if module_defect(modules, from) is Some {
        module_defect(modules, from)
    } else {
        first_defect(modules, from + 1)
    }
}

/// Why the list makes no registry, if it does not: too many modules, or else
/// the defect of its first defective module.
pub open spec fn registry_defect(modules: Seq<ModuleSpec>) -> Option<RegistryError> {
    if modules.len() > MAX_MODULES {
        Some(RegistryError::TooManyModules)
    } else {
        first_defect(modules, 0)
    }
}

/// A list without defect has no defective module.
pub proof fn lemma_no_defect(modules: Seq<ModuleSpec>, from: int, i: int)
    requires
        first_defect(modules, from) is None,
        0 <= from <= i < modules.len(),
    ensures
        module_defect(modules, i) is None,
    decreases i - from,
{
    if from < i {
        lemma_no_defect(modules, from + 1, i);
    }
}

/// The modules below position `n` that have an `on_initialize` hook, in
/// ascending order of index.
pub open spec fn initialize_below(modules: Seq<ModuleSpec>, n: int) -> Seq<ModuleIndex>
    decreases n,
{
    if n <= 0 {
        Seq::empty()
    } else if modules[n - 1].on_initialize {
        initialize_below(modules, n - 1).push((n - 1) as ModuleIndex)
    } else {
        initialize_below(modules, n - 1)
    }
}

/// The modules from position `from` on that have an `on_finalize` hook, in
/// descending order of index.
pub open spec fn finalize_from(modules: Seq<ModuleSpec>, from: int) -> Seq<ModuleIndex>
    decreases modules.len() - from,
{
    if from < 0 || from >= modules.len() {
        Seq::empty()
    } else if modules[from].on_finalize {
        finalize_from(modules, from + 1).push(from as ModuleIndex)
    } else {
        finalize_from(modules, from + 1)
    }
}

/// The modules below position `n` that have an offchain worker, in
/// ascending order of index.
pub open spec fn workers_below(modules: Seq<ModuleSpec>, n: int) -> Seq<ModuleIndex>
    decreases n,
{
    if n <= 0 {
        Seq::empty()
    } else if modules[n - 1].offchain_worker {
        workers_below(modules, n - 1).push((n - 1) as ModuleIndex)
    } else {
        workers_below(modules, n - 1)
    }
}

/// The order in which offchain workers run: ascending by index.
pub open spec fn offchain_order(modules: Seq<ModuleSpec>) -> Seq<ModuleIndex> {
    workers_below(modules, modules.len() as int)
}

/// The order in which `on_initialize` hooks fire: ascending by index.
pub open spec fn initialize_order(modules: Seq<ModuleSpec>) -> Seq<ModuleIndex> {
    initialize_below(modules, modules.len() as int)
}

/// The order in which `on_finalize` hooks fire: descending by index.
pub open spec fn finalize_order(modules: Seq<ModuleSpec>) -> Seq<ModuleIndex> {
    finalize_from(modules, 0)
}

/// Whether the pair of a module index and a call tag names a call variant.
pub open spec fn knows_call(modules: Seq<ModuleSpec>, module: ModuleIndex, tag: u8) -> bool {
    module < modules.len() && tag < modules[module as int].calls.len()
}

/// The declared weight of a call, or why the call is malformed: no module
/// is registered under its module index, or the module has no call variant
/// with its tag.
pub open spec fn weigh(modules: Seq<ModuleSpec>, call: CallSpec) -> Result<Weight, Malformed> {
    if call.module >= modules.len() {
        Err(Malformed::UnknownModule)
    } else if call.tag >= modules[call.module as int].calls.len() {
        Err(Malformed::UnknownCall)
    } else {
        Ok(modules[call.module as int].calls[call.tag as int])
    }
}

/// The call that the host is to hand to a module, under the origin that the
/// pipeline resolved.
#[derive(Clone, Debug, PartialEq, Eq)]
pub struct Dispatch {
    pub origin: Origin,
    pub call: Call,
    /// The weight that the registry declares for the call variant.
    pub weight: Weight,
}

/// Mathematical content of a dispatch.
pub struct DispatchSpec {
    pub origin: Origin,
    pub call: CallSpec,
    pub weight: Weight,
}

impl View for Dispatch {
    type V = DispatchSpec;

    open spec fn view(&self) -> DispatchSpec {
        DispatchSpec { origin: self.origin, call: self.call@, weight: self.weight }
    }
}

/// What a module reports of a call that it carried out.
#[derive(Clone, Copy, Debug, PartialEq, Eq, Structural)]
pub struct PostDispatchInfo {
    /// The weight that the call turned out to have.
    pub actual_weight: Weight,
}

/// What a module made of a call.
pub type DispatchResult = Result<PostDispatchInfo, DispatchError>;

/// Whether the pair of a module index and an event tag names an event
/// variant.
pub open spec fn knows_event(modules: Seq<ModuleSpec>, module: ModuleIndex, tag: u8) -> bool {
    module < modules.len() && tag < modules[module as int].events
}

/// What holds of the `on_initialize` hooks among the first `n` modules: only
/// modules that have the hook are listed, each of them is listed, and the
/// indices ascend strictly.
proof fn lemma_initialize_below(modules: Seq<ModuleSpec>, n: int)
    requires
        0 <= n <= modules.len() <= MAX_MODULES,
    ensures
        forall|k: int|
            0 <= k < initialize_below(modules, n).len() ==> (#[trigger] initialize_below(
                modules,
                n,
            )[k]) < n && modules[initialize_below(modules, n)[k] as int].on_initialize,
        forall|a: int, b: int|
            0 <= a < b < initialize_below(modules, n).len() ==> initialize_below(modules, n)[a]
                < initialize_below(modules, n)[b],
        forall|i: int|
            0 <= i < n && (#[trigger] modules[i]).on_initialize ==> initialize_below(
                modules,
                n,
            ).contains(i as ModuleIndex),
    decreases n,
{
    if n > 0 {
        lemma_initialize_below(modules, n - 1);
        let before = initialize_below(modules, n - 1);
        let now = initialize_below(modules, n);
        assert forall|i: int|
            0 <= i < n && (#[trigger] modules[i]).on_initialize implies now.contains(
            i as ModuleIndex,
        ) by {
            if i < n - 1 {
                let k = choose|k: int| 0 <= k < before.len() && before[k] == i as ModuleIndex;
                assert(now[k] == i as ModuleIndex);
            } else {
                assert(now[now.len() - 1] == i as ModuleIndex);
            }
        }
    }
}

/// What holds of the `on_finalize` hooks among the modules from position
/// `from` on: only modules that have the hook are listed, each of them is
/// listed, and the indices descend strictly.
proof fn lemma_finalize_from(modules: Seq<ModuleSpec>, from: int)
    requires
        0 <= from <= modules.len() <= MAX_MODULES,
    ensures
        forall|k: int|
            0 <= k < finalize_from(modules, from).len() ==> from <= (#[trigger] finalize_from(
                modules,
                from,
            )[k]) < modules.len() && modules[finalize_from(modules, from)[k] as int].on_finalize,
        forall|a: int, b: int|
            0 <= a < b < finalize_from(modules, from).len() ==> finalize_from(modules, from)[a]
                > finalize_from(modules, from)[b],
        forall|i: int|
            from <= i < modules.len() && (#[trigger] modules[i]).on_finalize ==> finalize_from(
                modules,
                from,
            ).contains(i as ModuleIndex),
    decreases modules.len() - from,
{
    if from < modules.len() {
        lemma_finalize_from(modules, from + 1);
        let before = finalize_from(modules, from + 1);
        let now = finalize_from(modules, from);
        assert forall|i: int|
            from <= i < modules.len() && (#[trigger] modules[i]).on_finalize implies now.contains(
            i as ModuleIndex,
        ) by {
            if i > from {
                let k = choose|k: int| 0 <= k < before.len() && before[k] == i as ModuleIndex;
                assert(now[k] == i as ModuleIndex);
            } else {
                assert(now[now.len() - 1] == i as ModuleIndex);
            }
        }
    }
}

/// `on_initialize` hooks fire in ascending order of registration: the order
/// lists exactly the modules that have the hook, each once, by rising index.
pub proof fn initialize_hooks_fire_ascending(modules: Seq<ModuleSpec>)
    requires
        modules.len() <= MAX_MODULES,
    ensures
        forall|k: int|
            0 <= k < initialize_order(modules).len() ==> (#[trigger] initialize_order(modules)[k])
                < modules.len() && modules[initialize_order(modules)[k] as int].on_initialize,
        forall|a: int, b: int|
            0 <= a < b < initialize_order(modules).len() ==> initialize_order(modules)[a]
                < initialize_order(modules)[b],
        forall|i: int|
            0 <= i < modules.len() && (#[trigger] modules[i]).on_initialize ==> initialize_order(
                modules,
            ).contains(i as ModuleIndex),
{
    lemma_initialize_below(modules, modules.len() as int);
}

/// `on_finalize` hooks fire in descending order of registration: the order
/// lists exactly the modules that have the hook, each once, by falling
/// index.
pub proof fn finalize_hooks_fire_descending(modules: Seq<ModuleSpec>)
    requires
        modules.len() <= MAX_MODULES,
    ensures
        forall|k: int|
            0 <= k < finalize_order(modules).len() ==> (#[trigger] finalize_order(modules)[k])
                < modules.len() && modules[finalize_order(modules)[k] as int].on_finalize,
        forall|a: int, b: int|
            0 <= a < b < finalize_order(modules).len() ==> finalize_order(modules)[a]
                > finalize_order(modules)[b],
        forall|i: int|
            0 <= i < modules.len() && (#[trigger] modules[i]).on_finalize ==> finalize_order(
                modules,
            ).contains(i as ModuleIndex),
{
    lemma_finalize_from(modules, 0);
}

/// Where every module has an `on_initialize` hook, the first `n` hooks fire
/// in the order of the indices.
proof fn lemma_all_initialize(modules: Seq<ModuleSpec>, n: int)
    requires
        0 <= n <= modules.len() <= MAX_MODULES,
        forall|i: int| 0 <= i < modules.len() ==> (#[trigger] modules[i]).on_initialize,
    ensures
        initialize_below(modules, n) == Seq::new(n as nat, |i: int| i as ModuleIndex),
    decreases n,
{
    if n > 0 {
        lemma_all_initialize(modules, n - 1);
    }
}

/// Where every module has an `on_finalize` hook, the hooks from position
/// `from` on fire from the last index down to `from`.
proof fn lemma_all_finalize(modules: Seq<ModuleSpec>, from: int)
    requires
        0 <= from <= modules.len() <= MAX_MODULES,
        forall|i: int| 0 <= i < modules.len() ==> (#[trigger] modules[i]).on_finalize,
    ensures
        finalize_from(modules, from) == Seq::new(
            (modules.len() - from) as nat,
            |i: int| (modules.len() - 1 - i) as ModuleIndex,
        ),
    decreases modules.len() - from,
{
    if from < modules.len() {
        lemma_all_finalize(modules, from + 1);
    }
}

/// For modules that all have both hooks, `on_initialize` fires from the
/// first registered module to the last, and `on_finalize` from the last to
/// the first: the second order is the first one reversed.
pub proof fn hooks_unwind_in_reverse(modules: Seq<ModuleSpec>)
    requires
        modules.len() <= MAX_MODULES,
        forall|i: int|
            0 <= i < modules.len() ==> (#[trigger] modules[i]).on_initialize
                && modules[i].on_finalize,
    ensures
        initialize_order(modules) == Seq::new(modules.len(), |i: int| i as ModuleIndex),
        finalize_order(modules) == Seq::new(
            modules.len(),
            |i: int| (modules.len() - 1 - i) as ModuleIndex,
        ),
        finalize_order(modules) == initialize_order(modules).reverse(),
{
    lemma_all_initialize(modules, modules.len() as int);
    lemma_all_finalize(modules, 0);
}

/// The fixed, ordered catalogue of modules.
#[derive(Debug)]
pub struct Registry {
    modules: Vec<ModuleDescriptor>,
}

impl View for Registry {
    type V = Seq<ModuleSpec>;

    closed spec fn view(&self) -> Seq<ModuleSpec> {
        views(self.modules@)
    }
}

impl Registry {
    #[verifier::type_invariant]
    spec fn valid(&self) -> bool {
        registry_defect(self@) is None
    }

    /// Builds the registry of the given modules, in the given order. It is
    /// refused where the list has a defect.
    pub fn new(modules: Vec<ModuleDescriptor>) -> (result: Result<Registry, RegistryError>)
        ensures
            result matches Ok(registry) ==> registry@ == views(modules@) && registry_defect(
                views(modules@),
            ) is None,
            result matches Err(e) ==> registry_defect(views(modules@)) == Some(e),
    {
        let ghost specs = views(modules@);
        if modules.len() > MAX_MODULES {
            return Err(RegistryError::TooManyModules);
        }
        let mut i: usize = 0;
        while i < modules.len()
            invariant
                i <= modules.len() <= MAX_MODULES,
                specs == views(modules@),
                first_defect(specs, 0) == first_defect(specs, i as int),
            decreases modules.len() - i,
        {
            let defect = Self::defect_at(&modules, i);
            if defect.is_some() {
                return Err(defect.unwrap());
            }
            i = i + 1;
        }
        Ok(Registry { modules })
    }

    /// Judges the module at position `i` of the list.
    #[verifier::loop_isolation(false)]
    fn defect_at(modules: &Vec<ModuleDescriptor>, i: usize) -> (defect: Option<RegistryError>)
        requires
            i < modules.len() <= MAX_MODULES,
        ensures
            defect == module_defect(views(modules@), i as int),
    {
        let ghost specs = views(modules@);
        let module = &modules[i];
        let name_bytes = module.name.as_str().as_bytes().len();
        if name_bytes == 0 || name_bytes > MAX_NAME_BYTES {
            return Some(RegistryError::BadName(i as ModuleIndex));
        }
        let mut j: usize = 0;
        while j < i
            invariant
                j <= i < modules.len(),
                specs == views(modules@),
                module == modules@[i as int],
                forall|k: int| 0 <= k < j ==> (#[trigger] specs[k]).name != specs[i as int].name,
            decreases i - j,
        {
            if modules[j].name == module.name {
                assert(specs[j as int].name == specs[i as int].name);
                return Some(RegistryError::DuplicateName(i as ModuleIndex));
            }
            j = j + 1;
        }
        if module.calls.len() > MAX_VARIANTS {
            return Some(RegistryError::TooManyCalls(i as ModuleIndex));
        }
        if module.events as usize > MAX_VARIANTS {
            return Some(RegistryError::TooManyEvents(i as ModuleIndex));
        }
        match module.inherent {
            Some(inherent) => {
                if inherent.call as usize >= module.calls.len() {
                    return Some(RegistryError::BadInherent(i as ModuleIndex));
                }
            },
            None => {},
        }
        None
    }

    /// A copy of the registry.
    pub fn snapshot(&self) -> (copy: Registry)
        ensures
            copy@ == self@,
    {
        proof {
            use_type_invariant(self);
        }
        Registry { modules: duplicate_all(&self.modules) }
    }

    /// Number of registered modules.
    pub fn len(&self) -> (n: usize)
        ensures
            n == self@.len(),
            n <= MAX_MODULES,
    {
        proof {
            use_type_invariant(self);
        }
        self.modules.len()
    }

    /// The descriptor of the module with the given index, if there is one.
    pub fn module(&self, index: ModuleIndex) -> (found: Option<&ModuleDescriptor>)
        ensures
            found is Some <==> index < self@.len(),
            found matches Some(descriptor) ==> descriptor@ == self@[index as int] && module_defect(
                self@,
                index as int,
            ) is None,
    {
        if (index as usize) < self.modules.len() {
            proof {
                use_type_invariant(self);
                lemma_no_defect(self@, 0, index as int);
            }
            Some(&self.modules[index as usize])
        } else {
            None
        }
    }

    /// Finds the module that a call belongs to. The call is malformed where
    /// the module index or the call tag is not known.
    pub fn resolve(&self, call: &Call) -> (result: Result<&ModuleDescriptor, Malformed>)
        ensures
            result matches Ok(descriptor) ==> weigh(self@, call@) is Ok && descriptor@
                == self@[call.module as int],
            result matches Err(e) ==> weigh(self@, call@) == Err::<Weight, Malformed>(e),
    {
        match self.module(call.module) {
            Some(descriptor) => {
                if (call.tag as usize) < descriptor.calls.len() {
                    Ok(descriptor)
                } else {
                    Err(Malformed::UnknownCall)
                }
            },
            None => Err(Malformed::UnknownModule),
        }
    }

    /// Makes out the dispatch of a call under an origin: the call together
    /// with the weight that its module declares for it. The module itself
    /// runs with the host. The call is malformed where the module index or
    /// the call tag is not known.
    pub fn dispatch(&self, origin: Origin, call: Call) -> (result: Result<Dispatch, Malformed>)
        ensures
            result matches Ok(dispatch) ==> weigh(self@, call@) == Ok::<Weight, Malformed>(
                dispatch.weight,
            ) && dispatch@ == (DispatchSpec { origin, call: call@, weight: dispatch.weight }),
            result matches Err(e) ==> weigh(self@, call@) == Err::<Weight, Malformed>(e),
    {
        let weight = match self.resolve(&call) {
            Ok(descriptor) => descriptor.calls[call.tag as usize],
            Err(e) => {
                return Err(e);
            },
        };
        Ok(Dispatch { origin, call, weight })
    }

    /// The weight of a call variant, if the pair names one.
    pub fn call_weight(&self, module: ModuleIndex, tag: u8) -> (weight: Option<Weight>)
        ensures
            weight is Some <==> knows_call(self@, module, tag),
            weight matches Some(w) ==> w == self@[module as int].calls[tag as int],
    {
        match self.module(module) {
            Some(descriptor) => if (tag as usize) < descriptor.calls.len() {
                Some(descriptor.calls[tag as usize])
            } else {
                None
            },
            None => None,
        }
    }

    /// Whether the pair of a module index and an event tag names an event
    /// variant.
    pub fn has_event(&self, module: ModuleIndex, tag: u8) -> (known: bool)
        ensures
            known == knows_event(self@, module, tag),
    {
        match self.module(module) {
            Some(descriptor) => (tag as u16) < descriptor.events,
            None => false,
        }
    }

    /// The modules whose `on_initialize` hook fires when a block is opened,
    /// in the order in which the hooks fire.
    pub fn on_initialize_order(&self) -> (order: Vec<ModuleIndex>)
        ensures
            order@ == initialize_order(self@),
    {
        proof {
            use_type_invariant(self);
        }
        let mut order: Vec<ModuleIndex> = Vec::new();
        let mut i: usize = 0;
        while i < self.modules.len()
            invariant
                i <= self.modules.len() <= MAX_MODULES,
                order@ == initialize_below(self@, i as int),
            decreases self.modules.len() - i,
        {
            if self.modules[i].on_initialize {
                order.push(i as ModuleIndex);
            }
            i = i + 1;
        }
        order
    }

    /// The modules whose offchain worker runs after a block was imported,
    /// in the order in which the workers run.
    pub fn offchain_order(&self) -> (order: Vec<ModuleIndex>)
        ensures
            order@ == offchain_order(self@),
    {
        proof {
            use_type_invariant(self);
        }
        let mut order: Vec<ModuleIndex> = Vec::new();
        let mut i: usize = 0;
        while i < self.modules.len()
            invariant
                i <= self.modules.len() <= MAX_MODULES,
                order@ == workers_below(self@, i as int),
            decreases self.modules.len() - i,
        {
            if self.modules[i].offchain_worker {
                order.push(i as ModuleIndex);
            }
            i = i + 1;
        }
        order
    }

    /// The modules whose `on_finalize` hook fires when a block is closed, in
    /// the order in which the hooks fire.
    pub fn on_finalize_order(&self) -> (order: Vec<ModuleIndex>)
        ensures
            order@ == finalize_order(self@),
    {
        proof {
            use_type_invariant(self);
        }
        let mut order: Vec<ModuleIndex> = Vec::new();
        let mut i: usize = self.modules.len();
        while i > 0
            invariant
                i <= self.modules.len() <= MAX_MODULES,
                order@ == finalize_from(self@, i as int),
            decreases i,
        {
            i = i - 1;
            if self.modules[i].on_finalize {
                order.push(i as ModuleIndex);
            }
        }
        order
    }
}

} // verus!
