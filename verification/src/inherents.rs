//! Inherents: the extrinsics that the block author contributes on behalf of
//! modules, and the rules by which the inherents of a block are judged.

use crate::block::Block;
use crate::extrinsic::{Call, CallSpec, Extrinsic, ExtrinsicSpec};
use crate::primitives::{views, ModuleIndex};
use crate::registry::{ModuleSpec, Registry, MAX_MODULES};
use vstd::prelude::*;

verus! {

/// One piece of what the block author knows: data filed under an
/// identifier.
#[derive(Clone, Debug, PartialEq, Eq)]
pub struct InherentEntry {
    pub identifier: u64,
    pub data: Vec<u8>,
}

/// Mathematical content of an entry.
pub struct InherentEntrySpec {
    pub identifier: u64,
    pub data: Seq<u8>,
}

impl View for InherentEntry {
    type V = InherentEntrySpec;

    open spec fn view(&self) -> InherentEntrySpec {
        InherentEntrySpec { identifier: self.identifier, data: self.data@ }
    }
}

/// All that the block author, or a node that checks a block, knows.
pub type InherentData = Vec<InherentEntry>;

/// What is wrong with the inherents of a block.
#[derive(Clone, Copy, Debug, PartialEq, Eq, Structural)]
pub enum InherentError {
    /// The inherent at this position is no declared inherent of any module.
    Unexpected(usize),
    /// The inherent at this position comes after a transaction.
    OutOfOrder(usize),
    /// The inherent at this position repeats the inherent of a module.
    Duplicate(usize),
    /// The module has data for its inherent, and the block lacks it.
    Missing(ModuleIndex),
}

/// The data filed under the identifier by the first entry at or after
/// position `from` that has it.
pub open spec fn filed(data: Seq<InherentEntrySpec>, identifier: u64, from: int) -> Option<Seq<u8>>
    decreases data.len() - from,
{
    if from < 0 || from >= data.len() {
        None
    } else if data[from].identifier == identifier {
        Some(data[from].data)
    } else {
        filed(data, identifier, from + 1)
    }
}

/// The inherent that the module at position `m` contributes, if it
/// declares one and the author has data for it.
pub open spec fn inherent_of(
    modules: Seq<ModuleSpec>,
    data: Seq<InherentEntrySpec>,
    m: int,
) -> Option<ExtrinsicSpec> {
    match modules[m].inherent {
        None => None,
        Some(inherent) => match filed(data, inherent.identifier, 0) {
            None => None,
            Some(args) => Some(
                ExtrinsicSpec::Inherent {
                    call: CallSpec { module: m as ModuleIndex, tag: inherent.call, args },
                },
            ),
        },
    }
}

/// The inherents of the modules below position `n`, in registry order.
pub open spec fn inherents_below(
    modules: Seq<ModuleSpec>,
    data: Seq<InherentEntrySpec>,
    n: int,
) -> Seq<ExtrinsicSpec>
    decreases n,
{
    if n <= 0 {
        Seq::empty()
    } else {
        match inherent_of(modules, data, n - 1) {
            None => inherents_below(modules, data, n - 1),
            Some(extrinsic) => inherents_below(modules, data, n - 1).push(extrinsic),
        }
    }
}

/// Whether the call is the declared inherent call of its module.
pub open spec fn declares(modules: Seq<ModuleSpec>, call: CallSpec) -> bool {
    &&& call.module < modules.len()
    &&& modules[call.module as int].inherent matches Some(inherent)
    &&& inherent.call == call.tag
}

/// Whether the extrinsic is an inherent of the module with this index.
pub open spec fn is_inherent_of(extrinsic: ExtrinsicSpec, module: int) -> bool {
    extrinsic matches ExtrinsicSpec::Inherent { call } && call.module == module
}

/// What is wrong with the extrinsic at position `i` of the block, as far as
/// inherents go. A transaction is never at fault. An inherent must be
/// declared by its module, come before every transaction, and be the only
/// one of its module; the first of these that fails is reported.
pub open spec fn position_defect(
    modules: Seq<ModuleSpec>,
    block: Seq<ExtrinsicSpec>,
    i: int,
) -> Option<InherentError> {
    match block[i] {
        ExtrinsicSpec::Transaction { .. } => None,
        ExtrinsicSpec::Inherent { call } => if !declares(modules, call) {
            Some(InherentError::Unexpected(i as usize))
        } else if exists|j: int| 0 <= j < i && (#[trigger] block[j]) is Transaction {
            Some(InherentError::OutOfOrder(i as usize))
        } else if exists|j: int|
            0 <= j < i && is_inherent_of(#[trigger] block[j], call.module as int) {
            Some(InherentError::Duplicate(i as usize))
        } else {
            None
        },
    }
}

/// The defect of the first position at or after `from` that has one.
pub open spec fn first_position_defect(
    modules: Seq<ModuleSpec>,
    block: Seq<ExtrinsicSpec>,
    from: int,
) -> Option<InherentError>
    decreases block.len() - from,
{
    if from < 0 || from >= block.len() {
        None
    } else if position_defect(modules, block, from) is Some {
        position_defect(modules, block, from)
    } else {
        first_position_defect(modules, block, from + 1)
    }
}

/// Whether the block lacks the inherent of the module at position `m`
/// although the module declares one and the author has data for it.
pub open spec fn lacks(
    modules: Seq<ModuleSpec>,
    block: Seq<ExtrinsicSpec>,
    data: Seq<InherentEntrySpec>,
    m: int,
) -> bool {
    inherent_of(modules, data, m) is Some && !exists|j: int|
        0 <= j < block.len() && is_inherent_of(#[trigger] block[j], m)
}

/// The first module at or after position `from` whose inherent the block
/// lacks.
pub open spec fn first_missing(
    modules: Seq<ModuleSpec>,
    block: Seq<ExtrinsicSpec>,
    data: Seq<InherentEntrySpec>,
    from: int,
) -> Option<InherentError>
    decreases modules.len() - from,
{
    if from < 0 || from >= modules.len() {
        None
    } else if lacks(modules, block, data, from) {
        Some(InherentError::Missing(from as ModuleIndex))
    } else {
        first_missing(modules, block, data, from + 1)
    }
}

/// What is wrong with the inherents of a block, if anything: the defect of
/// the first defective position, or else the first module whose inherent is
/// missing.
pub open spec fn inherents_defect(
    modules: Seq<ModuleSpec>,
    block: Seq<ExtrinsicSpec>,
    data: Seq<InherentEntrySpec>,
) -> Option<InherentError> {
    if first_position_defect(modules, block, 0) is Some {
        first_position_defect(modules, block, 0)
    } else {
        first_missing(modules, block, data, 0)
    }
}

/// What holds of the inherents of the first `n` modules: each is the
/// declared inherent of a module below `n`, the modules ascend strictly,
/// and no module that has an inherent to contribute is left out.
proof fn lemma_inherents_below(modules: Seq<ModuleSpec>, data: Seq<InherentEntrySpec>, n: int)
    requires
        0 <= n <= modules.len() <= MAX_MODULES,
    ensures
        forall|k: int|
            0 <= k < inherents_below(modules, data, n).len() ==> {
                let extrinsic = #[trigger] inherents_below(modules, data, n)[k];
                &&& extrinsic is Inherent
                &&& extrinsic.call().module < n
                &&& declares(modules, extrinsic.call())
            },
        forall|a: int, b: int|
            0 <= a < b < inherents_below(modules, data, n).len() ==> inherents_below(
                modules,
                data,
                n,
            )[a].call().module < inherents_below(modules, data, n)[b].call().module,
        forall|m: int|
            0 <= m < n && (#[trigger] inherent_of(modules, data, m)) is Some ==> exists|j: int|
                0 <= j < inherents_below(modules, data, n).len() && is_inherent_of(
                    #[trigger] inherents_below(modules, data, n)[j],
                    m,
                ),
    decreases n,
{
    if n > 0 {
        lemma_inherents_below(modules, data, n - 1);
        let before = inherents_below(modules, data, n - 1);
        let now = inherents_below(modules, data, n);
        assert forall|m: int|
            0 <= m < n && (#[trigger] inherent_of(modules, data, m)) is Some implies exists|j: int|
            0 <= j < now.len() && is_inherent_of(#[trigger] now[j], m) by {
            if m < n - 1 {
                let j = choose|j: int|
                    0 <= j < before.len() && is_inherent_of(#[trigger] before[j], m);
                assert(is_inherent_of(now[j], m));
            } else {
                assert(is_inherent_of(now[now.len() - 1], m));
            }
        }
    }
}

/// A block without a defective position has no first defective position.
proof fn lemma_no_position_defect(modules: Seq<ModuleSpec>, block: Seq<ExtrinsicSpec>, from: int)
    requires
        0 <= from,
        forall|i: int| from <= i < block.len() ==> position_defect(modules, block, i) is None,
    ensures
        first_position_defect(modules, block, from) is None,
    decreases block.len() - from,
{
    if from < block.len() {
        lemma_no_position_defect(modules, block, from + 1);
    }
}

/// Where the block lacks no module's inherent, none is the first missing.
proof fn lemma_none_missing(
    modules: Seq<ModuleSpec>,
    block: Seq<ExtrinsicSpec>,
    data: Seq<InherentEntrySpec>,
    from: int,
)
    requires
        0 <= from,
        forall|m: int| from <= m < modules.len() ==> !lacks(modules, block, data, m),
    ensures
        first_missing(modules, block, data, from) is None,
    decreases modules.len() - from,
{
    if from < modules.len() {
        lemma_none_missing(modules, block, data, from + 1);
    }
}

/// A block that starts with the inherents created from some data and goes
/// on with transactions only is found without defect against the same data.
pub proof fn created_inherents_have_no_defect(
    modules: Seq<ModuleSpec>,
    data: Seq<InherentEntrySpec>,
    transactions: Seq<ExtrinsicSpec>,
)
    requires
        modules.len() <= MAX_MODULES,
        forall|i: int| 0 <= i < transactions.len() ==> (#[trigger] transactions[i]) is Transaction,
    ensures
        inherents_defect(
            modules,
            inherents_below(modules, data, modules.len() as int) + transactions,
            data,
        ) is None,
{
    let created = inherents_below(modules, data, modules.len() as int);
    let block = created + transactions;
    lemma_inherents_below(modules, data, modules.len() as int);
    assert forall|i: int| 0 <= i < block.len() implies position_defect(modules, block, i)
        is None by {
        if i < created.len() {
            let call = created[i].call();
            assert forall|j: int| 0 <= j < i implies !((#[trigger] block[j]) is Transaction) by {}
            assert forall|j: int| 0 <= j < i implies !is_inherent_of(
                #[trigger] block[j],
                call.module as int,
            ) by {}
        }
    }
    lemma_no_position_defect(modules, block, 0);
    assert forall|m: int| 0 <= m < modules.len() implies !lacks(modules, block, data, m) by {
        if inherent_of(modules, data, m) is Some {
            let j = choose|j: int|
                0 <= j < created.len() && is_inherent_of(#[trigger] created[j], m);
            assert(block[j] == created[j]);
        }
    }
    lemma_none_missing(modules, block, data, 0);
}

/// Finds the data filed under an identifier.
fn find_filed(data: &Vec<InherentEntry>, identifier: u64) -> (found: Option<Vec<u8>>)
    ensures
        found is Some <==> filed(views(data@), identifier, 0) is Some,
        found matches Some(bytes) ==> filed(views(data@), identifier, 0) == Some(bytes@),
{
    let mut i: usize = 0;
    while i < data.len()
        invariant
            i <= data.len(),
            filed(views(data@), identifier, 0) == filed(views(data@), identifier, i as int),
        decreases data.len() - i,
    {
        if data[i].identifier == identifier {
            return Some(data[i].data.clone());
        }
        i = i + 1;
    }
    None
}

/// Whether the block holds an inherent of the module below position `end`.
fn carries(block: &Vec<Extrinsic>, module: ModuleIndex, end: usize) -> (found: bool)
    requires
        end <= block.len(),
    ensures
        found == exists|j: int|
            0 <= j < end && is_inherent_of(#[trigger] views(block@)[j], module as int),
{
    let mut j: usize = 0;
    while j < end
        invariant
            j <= end <= block.len(),
            forall|k: int|
                0 <= k < j ==> !is_inherent_of(#[trigger] views(block@)[k], module as int),
        decreases end - j,
    {
        match &block[j] {
            Extrinsic::Inherent { call } => {
                if call.module == module {
                    assert(is_inherent_of(views(block@)[j as int], module as int));
                    return true;
                }
            },
            Extrinsic::Transaction { .. } => {},
        }
        j = j + 1;
    }
    false
}

/// The extrinsics that the block author is to put at the head of the block:
/// for each module that declares an inherent and has data filed under its
/// identifier, in registry order, the declared call with that data as its
/// arguments.
pub fn inherent_extrinsics(registry: &Registry, data: &InherentData) -> (extrinsics: Vec<Extrinsic>)
    ensures
        views(extrinsics@) == inherents_below(registry@, views(data@), registry@.len() as int),
{
    let mut extrinsics: Vec<Extrinsic> = Vec::new();
    let n = registry.len();
    let mut m: usize = 0;
    while m < n
        invariant
            m <= n,
            n == registry@.len(),
            n <= 256,
            views(extrinsics@) == inherents_below(registry@, views(data@), m as int),
        decreases n - m,
    {
        let descriptor = registry.module(m as ModuleIndex).unwrap();
        match descriptor.inherent {
            None => {},
            Some(inherent) => match find_filed(data, inherent.identifier) {
                None => {},
                Some(args) => {
                    let extrinsic = Extrinsic::Inherent {
                        call: Call { module: m as ModuleIndex, tag: inherent.call, args },
                    };
                    extrinsics.push(extrinsic);
                },
            },
        }
        m = m + 1;
    }
    extrinsics
}

/// Judges the extrinsic at position `i` of the block.
fn defect_at(
    registry: &Registry,
    block: &Vec<Extrinsic>,
    i: usize,
    after_transaction: bool,
) -> (defect: Option<InherentError>)
    requires
        i < block.len(),
        after_transaction == exists|j: int|
            0 <= j < i && (#[trigger] views(block@)[j]) is Transaction,
    ensures
        defect == position_defect(registry@, views(block@), i as int),
{
    match &block[i] {
        Extrinsic::Transaction { .. } => None,
        Extrinsic::Inherent { call } => {
            let declared = match registry.module(call.module) {
                None => false,
                Some(descriptor) => match descriptor.inherent {
                    None => false,
                    Some(inherent) => inherent.call == call.tag,
                },
            };
            if !declared {
                Some(InherentError::Unexpected(i))
            } else if after_transaction {
                Some(InherentError::OutOfOrder(i))
            } else if carries(block, call.module, i) {
                Some(InherentError::Duplicate(i))
            } else {
                None
            }
        },
    }
}

/// Checks the inherents of a block against what the checking node knows.
/// Every inherent must be declared by its module, come before every
/// transaction, and occur once; and every module that declares an inherent
/// for which there is data must find it in the block.
pub fn check_inherents(registry: &Registry, block: &Block, data: &InherentData) -> (result: Result<
    (),
    InherentError,
>)
    ensures
        result is Ok <==> inherents_defect(registry@, block@.extrinsics, views(data@)) is None,
        result matches Err(e) ==> inherents_defect(registry@, block@.extrinsics, views(data@))
            == Some(e),
{
    check_extrinsics(registry, &block.extrinsics, data)
}

/// Checks the inherents among the extrinsics of a block.
fn check_extrinsics(registry: &Registry, block: &Vec<Extrinsic>, data: &InherentData) -> (result:
    Result<(), InherentError>)
    ensures
        result is Ok <==> inherents_defect(registry@, views(block@), views(data@)) is None,
        result matches Err(e) ==> inherents_defect(registry@, views(block@), views(data@)) == Some(
            e,
        ),
{
    let ghost modules = registry@;
    let ghost items = views(block@);
    let mut after_transaction = false;
    let mut i: usize = 0;
    while i < block.len()
        invariant
            i <= block.len(),
            items == views(block@),
            modules == registry@,
            first_position_defect(modules, items, 0) == first_position_defect(
                modules,
                items,
                i as int,
            ),
            after_transaction == exists|j: int| 0 <= j < i && (#[trigger] items[j]) is Transaction,
        decreases block.len() - i,
    {
        let defect = defect_at(registry, block, i, after_transaction);
        if defect.is_some() {
            return Err(defect.unwrap());
        }
        match &block[i] {
            Extrinsic::Transaction { .. } => {
                after_transaction = true;
            },
            Extrinsic::Inherent { .. } => {
            },
        }
        i = i + 1;
    }
    let n = registry.len();
    let mut m: usize = 0;
    while m < n
        invariant
            m <= n,
            n == registry@.len(),
            n <= 256,
            items == views(block@),
            modules == registry@,
            first_position_defect(modules, items, 0) is None,
            first_missing(modules, items, views(data@), 0) == first_missing(
                modules,
                items,
                views(data@),
                m as int,
            ),
        decreases n - m,
    {
        let descriptor = registry.module(m as ModuleIndex).unwrap();
        let due = match descriptor.inherent {
            None => false,
            Some(inherent) => find_filed(data, inherent.identifier).is_some(),
        };
        if due && !carries(block, m as ModuleIndex, block.len()) {
            return Err(InherentError::Missing(m as ModuleIndex));
        }
        m = m + 1;
    }
    Ok(())
}

} // verus!
