//! The pipeline as a state machine: what it holds, and how each step
//! changes it.
//!
//! Every entry point of the pipeline is stated as one of these
//! transitions, so what holds of the transitions holds of the pipeline.

use crate::block::{DigestItemSpec, HeaderSpec};
use crate::error::{ApplyError, BlockImportFatal, PreconditionFailed};
use crate::events::{EventPhase, EventRecordSpec, EventSpec};
use crate::extrinsic::{parse_extrinsic, Address, CallSpec, ExtrinsicSpec, Mortality, Origin};
use crate::fees::{
    fee_distributed,
    first_portion,
    second_portion,
    split_conserves_value,
    FeeSchedule,
    AUTHOR_PARTS,
    TREASURY_PARTS,
};
use crate::ledger::{
    lemma_next_nonce_keeps_conservation,
    lemma_resolve_keeps_conservation,
    lemma_withdraw_keeps_conservation,
    LedgerState,
};
use crate::primitives::{AccountId, Balance, BlockNumber, ModuleIndex, Nonce, Weight, H256};
use crate::registry::{weigh, DispatchResult, DispatchSpec, ModuleSpec, PostDispatchInfo};
use vstd::prelude::*;

verus! {

/// Where the pipeline stands in the life of a block.
#[derive(Clone, Copy, Debug, PartialEq, Eq, Structural)]
pub enum Phase {
    /// No block was opened yet.
    Uninitialized,
    /// A block is open and takes extrinsics.
    BlockOpen,
    /// The block is closed.
    Finalized,
}

/// An extrinsic that passed every check and awaits dispatch.
pub struct Admission {
    pub origin: Origin,
    pub call: CallSpec,
    pub weight: Weight,
    /// The fee charged: nothing for an inherent.
    pub fee: Balance,
}

impl Admission {
    /// What the host is to dispatch.
    pub open spec fn dispatch(self) -> DispatchSpec {
        DispatchSpec { origin: self.origin, call: self.call, weight: self.weight }
    }
}

/// What the pipeline remembers of an extrinsic while its call is out for
/// dispatch.
#[derive(Clone, Copy, Debug, PartialEq, Eq, Structural)]
pub struct Pending {
    /// The fee that was charged for the extrinsic.
    pub fee: Balance,
}

/// A marker that orders the transactions of one account in the pool.
#[derive(Clone, Copy, Debug, PartialEq, Eq, Structural)]
pub struct Tag {
    pub account: AccountId,
    pub nonce: Nonce,
}

/// The verdict of the transaction pool's admission check.
#[derive(Clone, Debug, PartialEq, Eq)]
pub enum TransactionValidity {
    Valid {
        /// Rank among the transactions that compete for a block.
        priority: u64,
        /// Number of blocks for which the verdict holds.
        longevity: u64,
        /// Tags that another transaction must provide first.
        required: Vec<Tag>,
    },
    Invalid(ApplyError),
}

/// Mathematical content of a verdict.
pub enum ValiditySpec {
    Valid { priority: u64, longevity: u64, required: Seq<Tag> },
    Invalid(ApplyError),
}

impl View for TransactionValidity {
    type V = ValiditySpec;

    open spec fn view(&self) -> ValiditySpec {
        match *self {
            TransactionValidity::Valid { priority, longevity, required } => ValiditySpec::Valid {
                priority,
                longevity,
                required: required@,
            },
            TransactionValidity::Invalid(e) => ValiditySpec::Invalid(e),
        }
    }
}

/// One extrinsic of a block as the pipeline sees it: its bytes, the host's
/// verdict on its signature, and what the module made of its call.
pub struct Step {
    pub encoded: Seq<u8>,
    pub signature_valid: bool,
    pub result: DispatchResult,
}

/// Mathematical content of the pipeline.
pub struct ExecutiveState {
    /// The registered modules, in order.
    pub registry: Seq<ModuleSpec>,
    /// What extrinsics cost.
    pub schedule: FeeSchedule,
    /// Holder of the privileged key, who receives the treasury's portion of
    /// every fee.
    pub sudo_key: AccountId,
    /// The accounts that can be addressed by index, each at its index.
    pub enumerated: Seq<AccountId>,
    /// Nonces and balances.
    pub ledger: LedgerState,
    pub phase: Phase,
    /// Number of the block that is open or was closed last.
    pub number: BlockNumber,
    /// Hash of the parent of that block.
    pub parent_hash: H256,
    /// Hash of the block that was sealed last, once the host has noted it.
    pub head: Option<H256>,
    /// Author of that block, who receives the author's portion of every fee.
    pub author: AccountId,
    /// Consensus log entries of that block.
    pub digest: Seq<DigestItemSpec>,
    /// Root of the state after that block, once it is sealed.
    pub state_root: H256,
    /// Root of the extrinsics of that block, once it is sealed.
    pub extrinsics_root: H256,
    /// Number of extrinsics that were applied in that block.
    pub extrinsics: u64,
    /// The extrinsic whose call is out for dispatch, if any.
    pub pending: Option<Pending>,
    /// The event log of that block.
    pub events: Seq<EventRecordSpec>,
}

impl ExecutiveState {
    /// The state of a pipeline before its first block.
    pub open spec fn genesis(
        registry: Seq<ModuleSpec>,
        schedule: FeeSchedule,
        ledger: LedgerState,
        sudo_key: AccountId,
        enumerated: Seq<AccountId>,
    ) -> ExecutiveState {
        ExecutiveState {
            registry,
            schedule,
            sudo_key,
            enumerated,
            ledger,
            phase: Phase::Uninitialized,
            number: 0,
            parent_hash: H256 { high: 0, low: 0 },
            head: None,
            author: 0,
            digest: Seq::empty(),
            state_root: H256 { high: 0, low: 0 },
            extrinsics_root: H256 { high: 0, low: 0 },
            extrinsics: 0,
            pending: None,
            events: Seq::empty(),
        }
    }

    /// The account behind an address, if there is one.
    pub open spec fn lookup(self, address: Address) -> Option<AccountId> {
        match address {
            Address::Id(id) => Some(id),
            Address::Index(index) => if index < self.enumerated.len() {
                Some(self.enumerated[index as int])
            } else {
                None
            },
        }
    }

    /// The checks that a transaction of `who` passes before dispatch, in
    /// their order: signature, nonce, fee.
    pub open spec fn check_transaction(
        self,
        who: AccountId,
        signature_valid: bool,
        nonce: Nonce,
        fee: int,
    ) -> Result<(), PreconditionFailed> {
        if !signature_valid {
            Err(PreconditionFailed::BadSignature)
        } else if nonce < self.ledger.nonce(who) {
            Err(PreconditionFailed::Stale)
        } else if nonce > self.ledger.nonce(who) {
            Err(PreconditionFailed::Future)
        } else if nonce == Nonce::MAX {
            Err(PreconditionFailed::NonceExhausted)
        } else if fee > self.ledger.free_balance(who) {
            Err(PreconditionFailed::CannotPay)
        } else {
            Ok(())
        }
    }

    /// Whether the encoded extrinsic is admitted for dispatch, and if not,
    /// why. The bytes must decode and name a known call. A transaction must
    /// further have a signer that resolves to an account, and pass the
    /// checks on signature, nonce and fee.
    pub open spec fn screen(self, encoded: Seq<u8>, signature_valid: bool) -> Result<
        Admission,
        ApplyError,
    > {
        match parse_extrinsic(encoded) {
            Err(e) => Err(ApplyError::Malformed(e)),
            Ok(extrinsic) => match weigh(self.registry, extrinsic.call()) {
                Err(e) => Err(ApplyError::Malformed(e)),
                Ok(weight) => match extrinsic {
                    ExtrinsicSpec::Inherent { call } => Ok(
                        Admission { origin: Origin::Unsigned, call, weight, fee: 0 },
                    ),
                    ExtrinsicSpec::Transaction { signer, nonce, call, .. } => match self.lookup(
                        signer,
                    ) {
                        None => Err(
                            ApplyError::PreconditionFailed(PreconditionFailed::UnknownSigner),
                        ),
                        Some(who) => match self.check_transaction(
                            who,
                            signature_valid,
                            nonce,
                            self.schedule.fee(encoded.len(), weight),
                        ) {
                            Err(e) => Err(ApplyError::PreconditionFailed(e)),
                            Ok(_) => Ok(
                                Admission {
                                    origin: Origin::Signed(who),
                                    call,
                                    weight,
                                    fee: self.schedule.fee(encoded.len(), weight) as Balance,
                                },
                            ),
                        },
                    },
                },
            },
        }
    }

    /// The ledger after the fee of an admitted extrinsic was charged and
    /// divided between the sinks and the signer's nonce advanced. An
    /// inherent leaves the ledger as it is.
    pub open spec fn charged(self, admission: Admission) -> LedgerState {
        match admission.origin {
            Origin::Signed(who) => fee_distributed(
                self.ledger.after_withdraw(who, admission.fee),
                self.sudo_key,
                self.author,
                admission.fee,
            ).with_next_nonce(who),
            _ => self.ledger,
        }
    }

    /// The state after an extrinsic was admitted: the ledger is charged and
    /// the extrinsic awaits the result of its dispatch.
    pub open spec fn admitted(self, admission: Admission) -> ExecutiveState {
        ExecutiveState {
            ledger: self.charged(admission),
            pending: Some(Pending { fee: admission.fee }),
            ..self
        }
    }

    /// The state after the pending extrinsic's dispatch was reported: the
    /// result is logged under the extrinsic's index, and the index moves on.
    pub open spec fn completed(self, result: DispatchResult) -> ExecutiveState {
        ExecutiveState {
            events: self.events.push(
                EventRecordSpec {
                    phase: EventPhase::ApplyExtrinsic(self.extrinsics),
                    event: match result {
                        Ok(info) => EventSpec::ExtrinsicSuccess {
                            weight: info.actual_weight,
                            fee: self.pending->0.fee,
                        },
                        Err(error) => EventSpec::ExtrinsicFailed {
                            error,
                            fee: self.pending->0.fee,
                        },
                    },
                },
            ),
            extrinsics: (self.extrinsics + 1) as u64,
            pending: None,
            ..self
        }
    }

    /// Why a header cannot open the next block, if it cannot: its number
    /// does not follow the current one, or its parent hash is not the noted
    /// hash of the block sealed last.
    pub open spec fn linkage_defect(self, header: HeaderSpec) -> Option<BlockImportFatal> {
        if header.number != self.number + 1 {
            Some(BlockImportFatal::BadNumber)
        } else if self.head matches Some(head) && header.parent_hash != head {
            Some(BlockImportFatal::BadParent)
        } else {
            None
        }
    }

    /// The state after the privileged key passed to another holder.
    pub open spec fn with_key(self, key: AccountId) -> ExecutiveState {
        ExecutiveState { sudo_key: key, ..self }
    }

    /// The state after the hash of the sealed block was noted.
    pub open spec fn with_head(self, hash: H256) -> ExecutiveState {
        ExecutiveState { head: Some(hash), ..self }
    }

    /// The state after a block with the given header was opened.
    pub open spec fn initialized(self, header: HeaderSpec, author: AccountId) -> ExecutiveState {
        ExecutiveState {
            phase: Phase::BlockOpen,
            number: header.number,
            parent_hash: header.parent_hash,
            head: None,
            author,
            digest: header.digest,
            state_root: H256 { high: 0, low: 0 },
            extrinsics_root: H256 { high: 0, low: 0 },
            extrinsics: 0,
            pending: None,
            events: Seq::empty(),
            ..self
        }
    }

    /// The part of execution that an event emitted now belongs to: the
    /// initialization until the first extrinsic is admitted, then the
    /// extrinsic that is being applied or is to come next, and the
    /// finalization once the block is closed.
    pub open spec fn event_phase(self) -> EventPhase {
        if self.phase == Phase::Finalized {
            EventPhase::Finalization
        } else if self.pending is Some || self.extrinsics > 0 {
            EventPhase::ApplyExtrinsic(self.extrinsics)
        } else {
            EventPhase::Initialization
        }
    }

    /// The state after the open block was closed for extrinsics.
    pub open spec fn finalized(self) -> ExecutiveState {
        ExecutiveState { phase: Phase::Finalized, ..self }
    }

    /// The state after the two roots were written into the header.
    pub open spec fn sealed(self, state_root: H256, extrinsics_root: H256) -> ExecutiveState {
        ExecutiveState { state_root, extrinsics_root, ..self }
    }

    /// The state after a module's event entered the log.
    pub open spec fn with_event(
        self,
        module: ModuleIndex,
        tag: u8,
        data: Seq<u8>,
    ) -> ExecutiveState {
        ExecutiveState {
            events: self.events.push(
                EventRecordSpec {
                    phase: self.event_phase(),
                    event: EventSpec::Module { module, tag, data },
                },
            ),
            ..self
        }
    }

    /// The state after an entry was added to the digest.
    pub open spec fn with_log(self, item: DigestItemSpec) -> ExecutiveState {
        ExecutiveState { digest: self.digest.push(item), ..self }
    }

    /// For how many blocks from the current one a transaction stays valid.
    pub open spec fn longevity(self, mortality: Mortality) -> u64 {
        match mortality {
            Mortality::Immortal => u64::MAX,
            Mortality::Until(last) => if last >= self.number {
                (last - self.number) as u64
            } else {
                0
            },
        }
    }

    /// The checks that a transaction of `who` passes to enter the pool, in
    /// their order: signature, nonce not below the account's, fee.
    pub open spec fn check_for_pool(
        self,
        who: AccountId,
        signature_valid: bool,
        nonce: Nonce,
        fee: int,
    ) -> Result<(), PreconditionFailed> {
        if !signature_valid {
            Err(PreconditionFailed::BadSignature)
        } else if nonce < self.ledger.nonce(who) {
            Err(PreconditionFailed::Stale)
        } else if fee > self.ledger.free_balance(who) {
            Err(PreconditionFailed::CannotPay)
        } else {
            Ok(())
        }
    }

    /// The tags that must be provided before a transaction of `who` can
    /// run: none where its nonce is the account's current one, otherwise
    /// the tag of the nonce just before.
    pub open spec fn required_tags(self, who: AccountId, nonce: Nonce) -> Seq<Tag> {
        if nonce > self.ledger.nonce(who) {
            seq![Tag { account: who, nonce: (nonce - 1) as Nonce }]
        } else {
            Seq::empty()
        }
    }

    /// The pool's verdict on an encoded extrinsic. Only transactions enter
    /// the pool. A valid one ranks by its encoded length.
    pub open spec fn validity(self, encoded: Seq<u8>, signature_valid: bool) -> ValiditySpec {
        match parse_extrinsic(encoded) {
            Err(e) => ValiditySpec::Invalid(ApplyError::Malformed(e)),
            Ok(extrinsic) => match weigh(self.registry, extrinsic.call()) {
                Err(e) => ValiditySpec::Invalid(ApplyError::Malformed(e)),
                Ok(weight) => match extrinsic {
                    ExtrinsicSpec::Inherent { .. } => ValiditySpec::Invalid(
                        ApplyError::PreconditionFailed(PreconditionFailed::MissingSigner),
                    ),
                    ExtrinsicSpec::Transaction {
                        signer,
                        nonce,
                        mortality,
                        ..
                    } => match self.lookup(signer) {
                        None => ValiditySpec::Invalid(
                            ApplyError::PreconditionFailed(PreconditionFailed::UnknownSigner),
                        ),
                        Some(who) => match self.check_for_pool(
                            who,
                            signature_valid,
                            nonce,
                            self.schedule.fee(encoded.len(), weight),
                        ) {
                            Err(e) => ValiditySpec::Invalid(ApplyError::PreconditionFailed(e)),
                            Ok(_) => ValiditySpec::Valid {
                                priority: encoded.len() as u64,
                                longevity: self.longevity(mortality),
                                required: self.required_tags(who, nonce),
                            },
                        },
                    },
                },
            },
        }
    }

    /// The state after one extrinsic was offered and, if it was admitted,
    /// its dispatch was reported with `result`. A rejected extrinsic leaves
    /// the state as it is.
    pub open spec fn applied(self, step: Step) -> ExecutiveState {
        match self.screen(step.encoded, step.signature_valid) {
            Ok(admission) => self.admitted(admission).completed(step.result),
            Err(_) => self,
        }
    }

    /// The state after a sequence of extrinsics was offered in order.
    pub open spec fn replayed(self, steps: Seq<Step>) -> ExecutiveState
        decreases steps.len(),
    {
        if steps.len() == 0 {
            self
        } else {
            self.replayed(steps.drop_last()).applied(steps.last())
        }
    }

    /// The state after a whole block ran: opened with the header, its
    /// extrinsics offered in order, closed, and sealed with the two roots.
    pub open spec fn executed(
        self,
        header: HeaderSpec,
        author: AccountId,
        steps: Seq<Step>,
        state_root: H256,
        extrinsics_root: H256,
    ) -> ExecutiveState {
        self.initialized(header, author).replayed(steps).finalized().sealed(
            state_root,
            extrinsics_root,
        )
    }

    /// The header of the current block.
    pub open spec fn header(self) -> HeaderSpec {
        HeaderSpec {
            parent_hash: self.parent_hash,
            number: self.number,
            state_root: self.state_root,
            extrinsics_root: self.extrinsics_root,
            digest: self.digest,
        }
    }
}

/// A transaction whose nonce differs from its signer's current nonce is
/// rejected. With a known call and a valid signature the reason is the
/// nonce itself: stale below the current nonce, future above it. A
/// rejection changes nothing, as `apply_extrinsic` states, so neither the
/// nonce nor any balance moves.
pub proof fn nonce_mismatch_is_rejected(
    state: ExecutiveState,
    encoded: Seq<u8>,
    signature_valid: bool,
)
    requires
        parse_extrinsic(encoded) matches Ok(ExtrinsicSpec::Transaction { signer, nonce, .. })
            && state.lookup(signer) matches Some(who) && nonce != state.ledger.nonce(who),
    ensures
        state.screen(encoded, signature_valid) is Err,
        state.applied(
            Step { encoded, signature_valid, result: Ok(PostDispatchInfo { actual_weight: 0 }) },
        ) == state,
        parse_extrinsic(encoded) matches Ok(ExtrinsicSpec::Transaction { signer, nonce, call, .. })
            && state.lookup(signer) matches Some(who) && (signature_valid && weigh(
            state.registry,
            call,
        ) is Ok ==> state.screen(encoded, signature_valid) == Err::<Admission, ApplyError>(
            ApplyError::PreconditionFailed(
                if nonce < state.ledger.nonce(who) {
                    PreconditionFailed::Stale
                } else {
                    PreconditionFailed::Future
                },
            ),
        )),
{
}

/// An admitted transaction advances its signer's nonce by exactly one and
/// no other nonce, and charges the fee of the price list. The fee is
/// conserved: the issuance stays, nothing is left unresolved, and the
/// ledger still accounts for every unit. Where signer, treasury and author
/// are three accounts, the signer loses the fee and the two sinks gain its
/// two portions; an account that is none of them keeps its balance.
pub proof fn admission_charges_fee_and_advances_nonce(
    state: ExecutiveState,
    encoded: Seq<u8>,
    signature_valid: bool,
    other: AccountId,
)
    requires
        state.ledger.conserved(),
        state.screen(encoded, signature_valid) matches Ok(admission) && admission.origin
            is Signed,
    ensures
        state.screen(encoded, signature_valid) matches Ok(admission)
            && admission.origin matches Origin::Signed(who) && {
            let after = state.charged(admission);
            &&& after.nonce(who) == state.ledger.nonce(who) + 1
            &&& other != who ==> after.nonce(other) == state.ledger.nonce(other)
            &&& admission.fee == state.schedule.fee(encoded.len(), admission.weight)
            &&& after.issuance == state.ledger.issuance
            &&& after.unresolved == state.ledger.unresolved
            &&& after.conserved()
            &&& other != who && other != state.sudo_key && other != state.author
                ==> after.free_balance(other) == state.ledger.free_balance(other)
            &&& who != state.sudo_key && who != state.author && state.sudo_key != state.author ==> {
                &&& after.free_balance(who) == state.ledger.free_balance(who) - admission.fee
                &&& after.free_balance(state.sudo_key) == state.ledger.free_balance(state.sudo_key)
                    + first_portion(TREASURY_PARTS, AUTHOR_PARTS, admission.fee)
                &&& after.free_balance(state.author) == state.ledger.free_balance(state.author)
                    + second_portion(TREASURY_PARTS, AUTHOR_PARTS, admission.fee)
            }
        },
{
    let admission = state.screen(encoded, signature_valid)->Ok_0;
    let who = admission.origin->Signed_0;
    let fee = admission.fee;
    lemma_withdraw_keeps_conservation(state.ledger, who, fee);
    let withdrawn = state.ledger.after_withdraw(who, fee);
    split_conserves_value(TREASURY_PARTS, AUTHOR_PARTS, fee);
    let first = first_portion(TREASURY_PARTS, AUTHOR_PARTS, fee) as Balance;
    let second = second_portion(TREASURY_PARTS, AUTHOR_PARTS, fee) as Balance;
    lemma_resolve_keeps_conservation(withdrawn, state.sudo_key, first);
    let credited = withdrawn.after_resolve(state.sudo_key, first);
    lemma_resolve_keeps_conservation(credited, state.author, second);
    let distributed = credited.after_resolve(state.author, second);
    lemma_next_nonce_keeps_conservation(distributed, who);
}

/// A transaction that the pipeline admits is one that the pool finds valid
/// in the same state, with nothing required before it.
pub proof fn admitted_transaction_is_valid(
    state: ExecutiveState,
    encoded: Seq<u8>,
    signature_valid: bool,
)
    requires
        state.screen(encoded, signature_valid) matches Ok(admission) && admission.origin
            is Signed,
    ensures
        state.validity(encoded, signature_valid) matches ValiditySpec::Valid { required, .. }
            && required.len() == 0,
{
}

/// Running a block is a function of where it starts and what it is given:
/// two runs from equal states with the same header, author, extrinsics,
/// dispatch results and roots end in equal states, and so with the same
/// event log and the same header.
pub proof fn execution_is_deterministic(
    first: ExecutiveState,
    second: ExecutiveState,
    header: HeaderSpec,
    author: AccountId,
    steps: Seq<Step>,
    state_root: H256,
    extrinsics_root: H256,
)
    requires
        first == second,
    ensures
        first.executed(header, author, steps, state_root, extrinsics_root) == second.executed(
            header,
            author,
            steps,
            state_root,
            extrinsics_root,
        ),
        first.executed(header, author, steps, state_root, extrinsics_root).events
            == second.executed(header, author, steps, state_root, extrinsics_root).events,
        first.executed(header, author, steps, state_root, extrinsics_root).header()
            == second.executed(header, author, steps, state_root, extrinsics_root).header(),
        first.executed(header, author, steps, state_root, extrinsics_root).header().state_root
            == state_root,
{
}

/// One extrinsic advances the nonce of its signer by one if it is an
/// admitted transaction, and leaves every other nonce, and every nonce
/// where it is rejected or an inherent, as it was.
pub proof fn step_advances_only_the_signer(state: ExecutiveState, step: Step, who: AccountId)
    ensures
        state.applied(step).ledger.nonce(who) == (if state.screen(
            step.encoded,
            step.signature_valid,
        ) matches Ok(admission) && admission.origin == Origin::Signed(who) {
            (state.ledger.nonce(who) + 1) as Nonce
        } else {
            state.ledger.nonce(who)
        }),
        state.applied(step).ledger.nonce(who) >= state.ledger.nonce(who),
{
}

/// Nonces are monotonic: no sequence of extrinsics takes a nonce back.
pub proof fn nonces_never_go_back(state: ExecutiveState, steps: Seq<Step>, who: AccountId)
    ensures
        state.replayed(steps).ledger.nonce(who) >= state.ledger.nonce(who),
    decreases steps.len(),
{
    if steps.len() > 0 {
        nonces_never_go_back(state, steps.drop_last(), who);
        step_advances_only_the_signer(state.replayed(steps.drop_last()), steps.last(), who);
    }
}

/// The fee is charged before dispatch and never after: whatever the module
/// makes of the call, an admitted extrinsic leaves the ledger as the
/// admission charged it, with fee and nonce as they were taken.
pub proof fn dispatch_result_moves_no_currency(state: ExecutiveState, step: Step)
    requires
        state.screen(step.encoded, step.signature_valid) is Ok,
    ensures
        state.applied(step).ledger == state.charged(
            state.screen(step.encoded, step.signature_valid)->Ok_0,
        ),
        state.applied(step).pending is None,
{
}

/// Replaying extrinsics changes neither the registry nor the price list nor
/// the accounts that fees and addresses resolve to, and keeps the block
/// open.
pub proof fn replay_keeps_the_registry(state: ExecutiveState, steps: Seq<Step>)
    ensures
        state.replayed(steps).registry == state.registry,
        state.replayed(steps).schedule == state.schedule,
        state.replayed(steps).sudo_key == state.sudo_key,
        state.replayed(steps).author == state.author,
        state.replayed(steps).enumerated == state.enumerated,
        state.replayed(steps).phase == state.phase,
        state.replayed(steps).number == state.number,
        state.replayed(steps).digest == state.digest,
    decreases steps.len(),
{
    if steps.len() > 0 {
        replay_keeps_the_registry(state, steps.drop_last());
    }
}

/// The registry is fixed once the pipeline is built: a whole block leaves
/// it, the price list and the address table as they were.
pub proof fn registry_is_immutable(
    state: ExecutiveState,
    header: HeaderSpec,
    author: AccountId,
    steps: Seq<Step>,
    state_root: H256,
    extrinsics_root: H256,
)
    ensures
        state.executed(header, author, steps, state_root, extrinsics_root).registry
            == state.registry,
        state.executed(header, author, steps, state_root, extrinsics_root).schedule
            == state.schedule,
        state.executed(header, author, steps, state_root, extrinsics_root).enumerated
            == state.enumerated,
        state.executed(header, author, steps, state_root, extrinsics_root).phase
            == Phase::Finalized,
        state.executed(header, author, steps, state_root, extrinsics_root).number
            == header.number,
{
    replay_keeps_the_registry(state.initialized(header, author), steps);
}

/// Replaying extrinsics only appends to the event log, one entry for each
/// admitted extrinsic, in the order of submission: the entries carry the
/// indices of the extrinsics, counting up from where the block stood.
pub proof fn replay_logs_in_submission_order(state: ExecutiveState, steps: Seq<Step>)
    requires
        state.extrinsics + steps.len() <= u64::MAX,
    ensures
        state.replayed(steps).extrinsics - state.extrinsics == state.replayed(steps).events.len()
            - state.events.len(),
        state.extrinsics <= state.replayed(steps).extrinsics <= state.extrinsics + steps.len(),
        state.replayed(steps).events.take(state.events.len() as int) == state.events,
        forall|k: int|
            state.events.len() <= k < state.replayed(steps).events.len() ==> (
            #[trigger] state.replayed(steps).events[k]).phase == EventPhase::ApplyExtrinsic(
                (state.extrinsics + k - state.events.len()) as u64,
            ),
    decreases steps.len(),
{
    if steps.len() > 0 {
        replay_logs_in_submission_order(state, steps.drop_last());
    }
}

} // verus!
