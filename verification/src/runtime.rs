//! The interface of the runtime: every entry point through which the host
//! and the consensus engines reach the pipeline and the consensus adapters.
//!
//! Each entry point is a thin function over the current state. The host
//! compares the declared version with its own before it calls any of them.

use crate::block::{Block, DigestItem, Header};
use crate::consensus::{
    first_forced,
    first_scheduled,
    Authority,
    AuthorityId,
    FinalityVoting,
    ScheduledChange,
    SlotAuthoring,
};
use crate::error::{ApplyError, BlockImportFatal};
use crate::executive::Executive;
use crate::extrinsic::Extrinsic;
use crate::inherents::{
    check_inherents,
    inherent_extrinsics,
    inherents_below,
    inherents_defect,
    InherentData,
    InherentError,
};
use crate::metadata::spec_metadata;
use crate::primitives::{views, AccountId, BlockNumber, ModuleIndex, Moment, H256};
use crate::registry::{
    finalize_order,
    initialize_order,
    offchain_order,
    Dispatch,
    DispatchResult,
};
use crate::state::{Admission, ExecutiveState, Phase, TransactionValidity};
use crate::version::{spec_version, version, RuntimeVersion};
use vstd::prelude::*;

verus! {

/// The runtime: the pipeline together with the adapters of the two
/// consensus engines.
pub struct Runtime {
    executive: Executive,
    aura: SlotAuthoring,
    grandpa: FinalityVoting,
}

impl Runtime {
    /// The state of the pipeline.
    pub closed spec fn pipeline(&self) -> ExecutiveState {
        self.executive@
    }

    /// The adapter of the slot-authoring engine.
    pub closed spec fn slot_authoring(&self) -> SlotAuthoring {
        self.aura
    }

    /// The adapter of the finality-voting engine.
    pub closed spec fn finality_voting(&self) -> FinalityVoting {
        self.grandpa
    }

    /// The pipeline is consistent.
    pub closed spec fn wf(&self) -> bool {
        self.executive.wf()
    }

    /// A runtime of the given parts.
    pub fn new(executive: Executive, aura: SlotAuthoring, grandpa: FinalityVoting) -> (runtime:
        Runtime)
        requires
            executive.wf(),
        ensures
            runtime.wf(),
            runtime.pipeline() == executive@,
            runtime.slot_authoring() == aura,
            runtime.finality_voting() == grandpa,
    {
        Runtime { executive, aura, grandpa }
    }

    /// A copy of the runtime as it stands, for the host to fall back on
    /// where a block turns out to be invalid.
    pub fn snapshot(&self) -> (copy: Runtime)
        ensures
            copy.pipeline() == self.pipeline(),
            copy.slot_authoring().spec_slot_duration()
                == self.slot_authoring().spec_slot_duration(),
            copy.slot_authoring().spec_authorities() == self.slot_authoring().spec_authorities(),
            copy.finality_voting().spec_authorities()
                == self.finality_voting().spec_authorities(),
            self.wf() ==> copy.wf(),
    {
        Runtime {
            executive: self.executive.snapshot(),
            aura: SlotAuthoring::new(self.aura.slot_duration(), self.aura.authorities()),
            grandpa: FinalityVoting::new(self.grandpa.current_authorities()),
        }
    }

    /// The pipeline, for queries.
    pub fn executive(&self) -> (executive: &Executive)
        ensures
            executive@ == self.pipeline(),
            self.wf() ==> executive.wf(),
    {
        &self.executive
    }

    /// The pipeline, for the host and the modules to enter events and
    /// digest entries, to note block hashes and to move currency while a
    /// block runs. The adapters are not touched, and the runtime stays
    /// consistent as long as the pipeline does.
    pub fn executive_mut(&mut self) -> (executive: &mut Executive)
        requires
            old(self).wf(),
        ensures
            executive@ == old(self).pipeline(),
            executive.wf(),
            final(executive).wf() ==> final(self).wf(),
            final(self).pipeline() == final(executive)@,
            final(self).slot_authoring() == old(self).slot_authoring(),
            final(self).finality_voting() == old(self).finality_voting(),
    {
        &mut self.executive
    }

    /// The version that the runtime declares.
    pub fn version(&self) -> (declared: RuntimeVersion)
        ensures
            declared@ == spec_version(),
    {
        version()
    }

    /// The schema of the registered modules, in registry order.
    pub fn metadata(&self) -> (schema: Vec<u8>)
        ensures
            schema@ == spec_metadata(self.pipeline().registry),
    {
        self.executive.registry().metadata()
    }

    /// Opens a block; see `Executive::initialize_block`.
    pub fn initialize_block(&mut self, header: &Header, author: AccountId) -> (result: Result<
        Vec<ModuleIndex>,
        BlockImportFatal,
    >)
        requires
            old(self).wf(),
            old(self).pipeline().phase != Phase::BlockOpen,
        ensures
            final(self).wf(),
            final(self).slot_authoring() == old(self).slot_authoring(),
            final(self).finality_voting() == old(self).finality_voting(),
            result is Err <==> old(self).pipeline().linkage_defect(header@) is Some,
            result matches Err(e) ==> old(self).pipeline().linkage_defect(header@) == Some(e)
                && final(self).pipeline() == old(self).pipeline(),
            result matches Ok(hooks) ==> hooks@ == initialize_order(old(self).pipeline().registry)
                && final(self).pipeline() == old(self).pipeline().initialized(header@, author),
    {
        self.executive.initialize_block(header, author)
    }

    /// Admits or rejects an extrinsic; see `Executive::apply_extrinsic`.
    pub fn apply_extrinsic(&mut self, encoded: &[u8], signature_valid: bool) -> (result: Result<
        Dispatch,
        ApplyError,
    >)
        requires
            old(self).wf(),
            old(self).pipeline().phase == Phase::BlockOpen,
            old(self).pipeline().pending is None,
        ensures
            final(self).wf(),
            final(self).slot_authoring() == old(self).slot_authoring(),
            final(self).finality_voting() == old(self).finality_voting(),
            result matches Ok(dispatch) ==> old(self).pipeline().screen(
                encoded@,
                signature_valid,
            ) matches Ok(admission) && dispatch@ == admission.dispatch() && final(self).pipeline()
                == old(self).pipeline().admitted(admission),
            result matches Err(e) ==> old(self).pipeline().screen(encoded@, signature_valid)
                == Err::<Admission, ApplyError>(e) && final(self).pipeline()
                == old(self).pipeline(),
    {
        self.executive.apply_extrinsic(encoded, signature_valid)
    }

    /// Records the result of a dispatch; see
    /// `Executive::note_applied_extrinsic`.
    pub fn note_applied_extrinsic(&mut self, result: DispatchResult)
        requires
            old(self).wf(),
            old(self).pipeline().pending is Some,
        ensures
            final(self).wf(),
            final(self).slot_authoring() == old(self).slot_authoring(),
            final(self).finality_voting() == old(self).finality_voting(),
            final(self).pipeline() == old(self).pipeline().completed(result),
    {
        self.executive.note_applied_extrinsic(result)
    }

    /// Closes the open block; see `Executive::finalize_block`.
    pub fn finalize_block(&mut self) -> (hooks: Vec<ModuleIndex>)
        requires
            old(self).wf(),
            old(self).pipeline().phase == Phase::BlockOpen,
            old(self).pipeline().pending is None,
        ensures
            final(self).wf(),
            final(self).slot_authoring() == old(self).slot_authoring(),
            final(self).finality_voting() == old(self).finality_voting(),
            final(self).pipeline() == old(self).pipeline().finalized(),
            hooks@ == finalize_order(old(self).pipeline().registry),
    {
        self.executive.finalize_block()
    }

    /// Seals the header of the closed block; see `Executive::seal_header`.
    pub fn seal_header(&mut self, state_root: H256, extrinsics_root: H256) -> (header: Header)
        requires
            old(self).wf(),
            old(self).pipeline().phase == Phase::Finalized,
        ensures
            final(self).wf(),
            final(self).slot_authoring() == old(self).slot_authoring(),
            final(self).finality_voting() == old(self).finality_voting(),
            final(self).pipeline() == old(self).pipeline().sealed(state_root, extrinsics_root),
            header@ == final(self).pipeline().header(),
    {
        self.executive.seal_header(state_root, extrinsics_root)
    }

    /// The inherents that the block author is to put at the head of a
    /// block, given what the author knows.
    pub fn inherent_extrinsics(&self, data: &InherentData) -> (extrinsics: Vec<Extrinsic>)
        ensures
            views(extrinsics@) == inherents_below(
                self.pipeline().registry,
                views(data@),
                self.pipeline().registry.len() as int,
            ),
    {
        inherent_extrinsics(self.executive.registry(), data)
    }

    /// Checks the inherents of a block against what the checking node
    /// knows.
    pub fn check_inherents(&self, block: &Block, data: &InherentData) -> (result: Result<
        (),
        InherentError,
    >)
        ensures
            result is Ok <==> inherents_defect(
                self.pipeline().registry,
                block@.extrinsics,
                views(data@),
            ) is None,
            result matches Err(e) ==> inherents_defect(
                self.pipeline().registry,
                block@.extrinsics,
                views(data@),
            ) == Some(e),
    {
        check_inherents(self.executive.registry(), block, data)
    }

    /// A value that every node derives alike from the chain.
    pub fn random_seed(&self) -> (seed: H256)
        ensures
            seed == self.pipeline().parent_hash,
    {
        self.executive.random_seed()
    }

    /// The pool's verdict on an extrinsic; see
    /// `Executive::validate_transaction`.
    pub fn validate_transaction(&self, encoded: &[u8], signature_valid: bool) -> (verdict:
        TransactionValidity)
        ensures
            verdict@ == self.pipeline().validity(encoded@, signature_valid),
    {
        self.executive.validate_transaction(encoded, signature_valid)
    }

    /// The offchain workers to run after the block of the given number was
    /// imported.
    pub fn offchain_worker(&self, number: BlockNumber) -> (workers: Vec<ModuleIndex>)
        ensures
            workers@ == offchain_order(self.pipeline().registry),
    {
        self.executive.offchain_worker(number)
    }

    /// Length of an authoring slot.
    pub fn slot_duration(&self) -> (duration: Moment)
        ensures
            duration == self.slot_authoring().spec_slot_duration(),
    {
        self.aura.slot_duration()
    }

    /// The authorities of the slot-authoring engine, in slot order.
    pub fn authorities(&self) -> (authorities: Vec<AuthorityId>)
        ensures
            authorities@ == self.slot_authoring().spec_authorities(),
    {
        self.aura.authorities()
    }

    /// The change of the finality authorities that the digest schedules.
    pub fn grandpa_pending_change(&self, digest: &Vec<DigestItem>) -> (change: Option<
        ScheduledChange,
    >)
        ensures
            change is Some <==> first_scheduled(views(digest@), 0) is Some,
            change matches Some(c) ==> first_scheduled(views(digest@), 0) == Some(c@),
    {
        FinalityVoting::pending_change(digest)
    }

    /// The change of the finality authorities that the digest forces, with
    /// the median it counts from.
    pub fn grandpa_forced_change(&self, digest: &Vec<DigestItem>) -> (change: Option<
        (BlockNumber, ScheduledChange),
    >)
        ensures
            change is Some <==> first_forced(views(digest@), 0) is Some,
            change matches Some((median, c)) ==> first_forced(views(digest@), 0) == Some(
                (median, c@),
            ),
    {
        FinalityVoting::forced_change(digest)
    }

    /// The authorities of the finality-voting engine with their weights.
    pub fn grandpa_authorities(&self) -> (authorities: Vec<Authority>)
        ensures
            authorities@ == self.finality_voting().spec_authorities(),
    {
        self.grandpa.current_authorities()
    }
}

} // verus!
