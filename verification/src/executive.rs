//! The execution pipeline: opens a block, applies its extrinsics one by
//! one, and closes it.
//!
//! The pipeline decides; its host acts. Opening a block yields the hooks to
//! run, admitting an extrinsic yields the call to dispatch, and the host
//! reports back what the module made of the call. Whatever the pipeline
//! itself changes (nonces, fees, the event log, the header) is a function
//! of its state and of what it was handed.

use crate::block::{DigestItem, DigestItemSpec, Header};
use crate::error::{ApplyError, BlockImportFatal, Malformed, PreconditionFailed};
use crate::events::{Event, EventPhase, EventRecord, EventRecordSpec};
use crate::extrinsic::{Address, Call, Extrinsic, Mortality, Origin};
use crate::fees::{fee_distribution_keeps_nonces, Author, DealWithFees, FeeSchedule, MockTreasury};
use crate::ledger::{lemma_withdraw_keeps_conservation, Ledger};
use crate::primitives::{
    duplicate_all,
    views,
    AccountId,
    Balance,
    BlockNumber,
    ModuleIndex,
    Nonce,
    Weight,
    H256,
};
use crate::registry::{
    finalize_order,
    initialize_order,
    knows_event,
    offchain_order,
    weigh,
    Dispatch,
    DispatchResult,
    Registry,
};
use crate::state::{
    Admission,
    ExecutiveState,
    Pending,
    Phase,
    Tag,
    TransactionValidity,
};
use vstd::prelude::*;

verus! {

/// The execution pipeline.
pub struct Executive {
    registry: Registry,
    schedule: FeeSchedule,
    sudo_key: AccountId,
    enumerated: Vec<AccountId>,
    ledger: Ledger,
    phase: Phase,
    number: BlockNumber,
    parent_hash: H256,
    head: Option<H256>,
    author: AccountId,
    digest: Vec<DigestItem>,
    state_root: H256,
    extrinsics_root: H256,
    extrinsics: u64,
    pending: Option<Pending>,
    events: Vec<EventRecord>,
}

impl View for Executive {
    type V = ExecutiveState;

    closed spec fn view(&self) -> ExecutiveState {
        ExecutiveState {
            registry: self.registry@,
            schedule: self.schedule,
            sudo_key: self.sudo_key,
            enumerated: self.enumerated@,
            ledger: self.ledger@,
            phase: self.phase,
            number: self.number,
            parent_hash: self.parent_hash,
            head: self.head,
            author: self.author,
            digest: views(self.digest@),
            state_root: self.state_root,
            extrinsics_root: self.extrinsics_root,
            extrinsics: self.extrinsics,
            pending: self.pending,
            events: views(self.events@),
        }
    }
}

impl Executive {
    /// The pipeline is consistent: its ledger is conserved, a dispatch is
    /// pending only while a block is open, and every applied extrinsic has
    /// left its entry in the event log.
    pub closed spec fn wf(&self) -> bool {
        &&& self.ledger.wf()
        &&& self.extrinsics <= self.events@.len()
        &&& self.pending is Some ==> self.phase == Phase::BlockOpen
    }

    /// A pipeline over the given registry, price list and ledger, before
    /// its first block. Fees go to `sudo_key` and to the author of each
    /// block; `enumerated` lists the accounts that can be addressed by
    /// index.
    pub fn new(
        registry: Registry,
        schedule: FeeSchedule,
        ledger: Ledger,
        sudo_key: AccountId,
        enumerated: Vec<AccountId>,
    ) -> (executive: Executive)
        requires
            ledger.wf(),
        ensures
            executive.wf(),
            executive@ == ExecutiveState::genesis(
                registry@,
                schedule,
                ledger@,
                sudo_key,
                enumerated@,
            ),
    {
        let executive = Executive {
            registry,
            schedule,
            sudo_key,
            enumerated,
            ledger,
            phase: Phase::Uninitialized,
            number: 0,
            parent_hash: H256::zero(),
            head: None,
            author: 0,
            digest: Vec::new(),
            state_root: H256::zero(),
            extrinsics_root: H256::zero(),
            extrinsics: 0,
            pending: None,
            events: Vec::new(),
        };
        assert(executive@.events =~= Seq::<EventRecordSpec>::empty());
        assert(executive@.digest =~= Seq::<DigestItemSpec>::empty());
        executive
    }

    /// A copy of the pipeline as it stands, for the host to fall back on
    /// where a block turns out to be invalid.
    pub fn snapshot(&self) -> (copy: Executive)
        ensures
            copy@ == self@,
            self.wf() ==> copy.wf(),
    {
        let copy = Executive {
            registry: self.registry.snapshot(),
            schedule: self.schedule,
            sudo_key: self.sudo_key,
            enumerated: self.enumerated.clone(),
            ledger: self.ledger.snapshot(),
            phase: self.phase,
            number: self.number,
            parent_hash: self.parent_hash,
            head: self.head,
            author: self.author,
            digest: duplicate_all(&self.digest),
            state_root: self.state_root,
            extrinsics_root: self.extrinsics_root,
            extrinsics: self.extrinsics,
            pending: self.pending,
            events: duplicate_all(&self.events),
        };
        assert(copy.events@.len() == views(copy.events@).len());
        copy
    }

    /// Where the pipeline stands in the life of a block.
    pub fn phase(&self) -> (phase: Phase)
        ensures
            phase == self@.phase,
    {
        self.phase
    }

    /// What the pipeline remembers of the extrinsic whose call is out for
    /// dispatch, if there is one.
    pub fn pending(&self) -> (pending: Option<Pending>)
        ensures
            pending == self@.pending,
    {
        self.pending
    }

    /// Number of the block that is open or was closed last.
    pub fn block_number(&self) -> (number: BlockNumber)
        ensures
            number == self@.number,
    {
        self.number
    }

    /// Author of the current block, who receives the author's portion of
    /// every fee.
    pub fn current_author(&self) -> (author: AccountId)
        ensures
            author == self@.author,
    {
        self.author
    }

    /// Holder of the privileged key, who receives the treasury's portion of
    /// every fee.
    pub fn key(&self) -> (key: AccountId)
        ensures
            key == self@.sudo_key,
    {
        self.sudo_key
    }

    /// Passes the privileged key to another holder.
    pub fn set_key(&mut self, key: AccountId)
        requires
            old(self).wf(),
        ensures
            final(self).wf(),
            final(self)@ == old(self)@.with_key(key),
    {
        self.sudo_key = key;
    }

    /// The ledger of nonces and balances.
    pub fn ledger(&self) -> (ledger: &Ledger)
        ensures
            ledger@ == self@.ledger,
            self.wf() ==> ledger.wf(),
    {
        &self.ledger
    }

    /// The ledger, for the modules to move currency while a block runs. The
    /// pipeline stays consistent as long as the ledger does.
    pub fn ledger_mut(&mut self) -> (ledger: &mut Ledger)
        requires
            old(self).wf(),
        ensures
            ledger@ == old(self)@.ledger,
            ledger.wf(),
            final(ledger).wf() ==> final(self).wf(),
            final(self)@ == (ExecutiveState { ledger: final(ledger)@, ..old(self)@ }),
    {
        &mut self.ledger
    }

    /// The registry of modules.
    pub fn registry(&self) -> (registry: &Registry)
        ensures
            registry@ == self@.registry,
    {
        &self.registry
    }

    /// The event log of the current block.
    pub fn events(&self) -> (events: &Vec<EventRecord>)
        ensures
            views(events@) == self@.events,
    {
        &self.events
    }

    /// Resolves an address to an account.
    pub fn lookup(&self, address: Address) -> (account: Option<AccountId>)
        ensures
            account == self@.lookup(address),
    {
        match address {
            Address::Id(id) => Some(id),
            Address::Index(index) => if (index as usize) < self.enumerated.len() {
                Some(self.enumerated[index as usize])
            } else {
                None
            },
        }
    }

    /// The declared weight of a call, or why no module takes the call.
    fn weigh(&self, call: &Call) -> (result: Result<Weight, Malformed>)
        ensures
            result == weigh(self@.registry, call@),
    {
        match self.registry.resolve(call) {
            Ok(descriptor) => Ok(descriptor.calls[call.tag as usize]),
            Err(e) => Err(e),
        }
    }

    /// Runs the checks on signature, nonce and fee for a transaction of
    /// `who`, and gives the fee to charge.
    fn check_transaction(
        &self,
        who: AccountId,
        signature_valid: bool,
        nonce: Nonce,
        encoded_len: usize,
        weight: Weight,
    ) -> (result: Result<Balance, PreconditionFailed>)
        ensures
            result matches Ok(fee) ==> self@.check_transaction(
                who,
                signature_valid,
                nonce,
                self@.schedule.fee(encoded_len as nat, weight),
            ) is Ok && fee == self@.schedule.fee(encoded_len as nat, weight),
            result matches Err(e) ==> self@.check_transaction(
                who,
                signature_valid,
                nonce,
                self@.schedule.fee(encoded_len as nat, weight),
            ) == Err::<(), PreconditionFailed>(e),
    {
        if !signature_valid {
            return Err(PreconditionFailed::BadSignature);
        }
        let current = self.ledger.account_nonce(who);
        if nonce < current {
            return Err(PreconditionFailed::Stale);
        }
        if nonce > current {
            return Err(PreconditionFailed::Future);
        }
        if nonce == Nonce::MAX {
            return Err(PreconditionFailed::NonceExhausted);
        }
        match self.schedule.compute(encoded_len, weight) {
            None => Err(PreconditionFailed::CannotPay),
            Some(fee) => if fee > self.ledger.free_balance(who) {
                Err(PreconditionFailed::CannotPay)
            } else {
                Ok(fee)
            },
        }
    }

    /// Opens the block with the given header, whose author is `author`.
    ///
    /// The header must link to the chain: its number follows the current
    /// one, and its parent hash is the hash of the block sealed last, where
    /// the host has noted that hash. Otherwise the block is refused and
    /// nothing changes. On success the pipeline takes over number, parent
    /// hash and digest, starts an empty event log, and returns the modules
    /// whose `on_initialize` hook the host is to run, in this order, before
    /// it offers any extrinsic.
    pub fn initialize_block(&mut self, header: &Header, author: AccountId) -> (result: Result<
        Vec<ModuleIndex>,
        BlockImportFatal,
    >)
        requires
            old(self).wf(),
            old(self)@.phase != Phase::BlockOpen,
        ensures
            final(self).wf(),
            result is Err <==> old(self)@.linkage_defect(header@) is Some,
            result matches Err(e) ==> old(self)@.linkage_defect(header@) == Some(e)
                && final(self)@ == old(self)@,
            result matches Ok(hooks) ==> hooks@ == initialize_order(old(self)@.registry)
                && final(self)@ == old(self)@.initialized(header@, author),
    {
        if self.number == BlockNumber::MAX || header.number != self.number + 1 {
            return Err(BlockImportFatal::BadNumber);
        }
        match self.head {
            Some(head) => {
                if header.parent_hash != head {
                    return Err(BlockImportFatal::BadParent);
                }
            },
            None => {},
        }
        self.phase = Phase::BlockOpen;
        self.number = header.number;
        self.parent_hash = header.parent_hash;
        self.head = None;
        self.author = author;
        self.digest = duplicate_all(&header.digest);
        self.state_root = H256::zero();
        self.extrinsics_root = H256::zero();
        self.extrinsics = 0;
        self.pending = None;
        self.events = Vec::new();
        assert(views(self.events@) =~= Seq::<EventRecordSpec>::empty());
        Ok(self.registry.on_initialize_order())
    }

    /// Admits or rejects an encoded extrinsic. `signature_valid` tells
    /// whether the host found the signature to belong to the signer, and
    /// counts for transactions only.
    ///
    /// A rejected extrinsic changes nothing. An admitted transaction has
    /// paid its fee, which is divided between the treasury and the block
    /// author, and its signer's nonce has advanced; the host is to dispatch
    /// the returned call and to report the result with
    /// `note_applied_extrinsic`.
    pub fn apply_extrinsic(&mut self, encoded: &[u8], signature_valid: bool) -> (result: Result<
        Dispatch,
        ApplyError,
    >)
        requires
            old(self).wf(),
            old(self)@.phase == Phase::BlockOpen,
            old(self)@.pending is None,
        ensures
            final(self).wf(),
            result matches Ok(dispatch) ==> old(self)@.screen(encoded@, signature_valid) matches Ok(
                admission,
            ) && dispatch@ == admission.dispatch() && final(self)@ == old(self)@.admitted(
                admission,
            ),
            result matches Err(e) ==> old(self)@.screen(encoded@, signature_valid) == Err::<
                Admission,
                ApplyError,
            >(e) && final(self)@ == old(self)@,
    {
        let extrinsic = match Extrinsic::decode(encoded) {
            Ok(extrinsic) => extrinsic,
            Err(e) => {
                return Err(ApplyError::Malformed(e));
            },
        };
        let weight = match self.weigh(extrinsic.call()) {
            Ok(weight) => weight,
            Err(e) => {
                return Err(ApplyError::Malformed(e));
            },
        };
        match extrinsic {
            Extrinsic::Inherent { call } => {
                self.pending = Some(Pending { fee: 0 });
                Ok(Dispatch { origin: Origin::Unsigned, call, weight })
            },
            Extrinsic::Transaction { signer, signature: _, nonce, mortality: _, call } => {
                let who = match self.lookup(signer) {
                    Some(who) => who,
                    None => {
                        return Err(
                            ApplyError::PreconditionFailed(PreconditionFailed::UnknownSigner),
                        );
                    },
                };
                let fee = match self.check_transaction(
                    who,
                    signature_valid,
                    nonce,
                    encoded.len(),
                    weight,
                ) {
                    Ok(fee) => fee,
                    Err(e) => {
                        return Err(ApplyError::PreconditionFailed(e));
                    },
                };
                let token = match self.ledger.withdraw(who, fee) {
                    Ok(token) => token,
                    Err(_) => {
                        return Err(ApplyError::PreconditionFailed(PreconditionFailed::CannotPay));
                    },
                };
                let deal = DealWithFees::new(
                    MockTreasury::new(self.sudo_key),
                    Author::new(self.author),
                );
                deal.on_unbalanced(&mut self.ledger, token);
                proof {
                    let withdrawn = old(self)@.ledger.after_withdraw(who, fee);
                    lemma_withdraw_keeps_conservation(old(self)@.ledger, who, fee);
                    fee_distribution_keeps_nonces(
                        withdrawn,
                        self.sudo_key,
                        self.author,
                        fee,
                        who,
                    );
                }
                self.ledger.inc_account_nonce(who);
                self.pending = Some(Pending { fee });
                Ok(Dispatch { origin: Origin::Signed(who), call, weight })
            },
        }
    }

    /// Records what the module made of the pending extrinsic's call: the
    /// result enters the event log under the extrinsic's index, and the
    /// pipeline is ready for the next extrinsic. Whatever the result, the
    /// extrinsic counts as included: fee and nonce stay as charged.
    pub fn note_applied_extrinsic(&mut self, result: DispatchResult)
        requires
            old(self).wf(),
            old(self)@.pending is Some,
        ensures
            final(self).wf(),
            final(self)@ == old(self)@.completed(result),
    {
        let fee = match self.pending {
            Some(pending) => pending.fee,
            None => 0,
        };
        let event = match result {
            Ok(info) => Event::ExtrinsicSuccess { weight: info.actual_weight, fee },
            Err(error) => Event::ExtrinsicFailed { error, fee },
        };
        let record = EventRecord { phase: EventPhase::ApplyExtrinsic(self.extrinsics), event };
        let ghost before = self.events@;
        self.events.push(record);
        assert(views(self.events@) =~= views(before).push(record@));
        let logged = self.events.len();
        assert(self.extrinsics < logged);
        self.extrinsics = self.extrinsics + 1;
        self.pending = None;
    }

    /// Enters an event of a module into the log, under the part of
    /// execution that is under way. The event is malformed, and the log
    /// unchanged, where the module or its event variant is not registered.
    pub fn deposit_event(&mut self, module: ModuleIndex, tag: u8, data: Vec<u8>) -> (result: Result<
        (),
        Malformed,
    >)
        requires
            old(self).wf(),
            old(self)@.phase != Phase::Uninitialized,
        ensures
            final(self).wf(),
            result is Ok <==> knows_event(old(self)@.registry, module, tag),
            result is Ok ==> final(self)@ == old(self)@.with_event(module, tag, data@),
            result matches Err(e) ==> final(self)@ == old(self)@ && e == (if module >= old(
                self,
            )@.registry.len() {
                Malformed::UnknownModule
            } else {
                Malformed::UnknownEvent
            }),
    {
        if module as usize >= self.registry.len() {
            return Err(Malformed::UnknownModule);
        }
        if !self.registry.has_event(module, tag) {
            return Err(Malformed::UnknownEvent);
        }
        let phase = if self.phase == Phase::Finalized {
            EventPhase::Finalization
        } else if self.pending.is_some() || self.extrinsics > 0 {
            EventPhase::ApplyExtrinsic(self.extrinsics)
        } else {
            EventPhase::Initialization
        };
        let record = EventRecord { phase, event: Event::Module { module, tag, data } };
        let ghost before = self.events@;
        self.events.push(record);
        assert(views(self.events@) =~= views(before).push(record@));
        Ok(())
    }

    /// Adds an entry to the digest of the current block.
    pub fn deposit_log(&mut self, item: DigestItem)
        requires
            old(self).wf(),
            old(self)@.phase != Phase::Uninitialized,
        ensures
            final(self).wf(),
            final(self)@ == old(self)@.with_log(item@),
    {
        let ghost before = self.digest@;
        self.digest.push(item);
        assert(views(self.digest@) =~= views(before).push(item@));
    }

    /// Closes the open block for extrinsics and returns the modules whose
    /// `on_finalize` hook the host is to run, in this order, before it
    /// seals the header.
    pub fn finalize_block(&mut self) -> (hooks: Vec<ModuleIndex>)
        requires
            old(self).wf(),
            old(self)@.phase == Phase::BlockOpen,
            old(self)@.pending is None,
        ensures
            final(self).wf(),
            final(self)@ == old(self)@.finalized(),
            hooks@ == finalize_order(old(self)@.registry),
    {
        self.phase = Phase::Finalized;
        self.registry.on_finalize_order()
    }

    /// Writes the root of the state and the root of the extrinsics, as the
    /// host computed them after the last hook, into the header of the
    /// closed block, and returns that header.
    pub fn seal_header(&mut self, state_root: H256, extrinsics_root: H256) -> (header: Header)
        requires
            old(self).wf(),
            old(self)@.phase == Phase::Finalized,
        ensures
            final(self).wf(),
            final(self)@ == old(self)@.sealed(state_root, extrinsics_root),
            header@ == final(self)@.header(),
    {
        self.state_root = state_root;
        self.extrinsics_root = extrinsics_root;
        self.header()
    }

    /// Notes the hash of the block that was just sealed, as the host
    /// computed it. The next block must name it as its parent.
    pub fn note_block_hash(&mut self, hash: H256)
        requires
            old(self).wf(),
            old(self)@.phase == Phase::Finalized,
        ensures
            final(self).wf(),
            final(self)@ == old(self)@.with_head(hash),
    {
        self.head = Some(hash);
    }

    /// The header of the current block, as far as it is known.
    pub fn header(&self) -> (header: Header)
        ensures
            header@ == self@.header(),
    {
        Header {
            parent_hash: self.parent_hash,
            number: self.number,
            state_root: self.state_root,
            extrinsics_root: self.extrinsics_root,
            digest: duplicate_all(&self.digest),
        }
    }

    /// A value that every node derives alike from the chain that the
    /// current block builds on: the hash of the block's parent.
    pub fn random_seed(&self) -> (seed: H256)
        ensures
            seed == self@.parent_hash,
    {
        self.parent_hash
    }

    /// The modules whose offchain worker the host is to run after it has
    /// imported the block of the given number, in this order. The workers
    /// may read the state and hand in transactions; the pipeline itself is
    /// not changed by them.
    pub fn offchain_worker(&self, number: BlockNumber) -> (workers: Vec<ModuleIndex>)
        ensures
            workers@ == offchain_order(self@.registry),
    {
        let _ = number;
        self.registry.offchain_order()
    }

    /// Judges whether an encoded extrinsic may enter the transaction pool.
    /// Nothing is changed, and a later application may still fail: nonces
    /// and balances move between the verdict and the inclusion.
    pub fn validate_transaction(&self, encoded: &[u8], signature_valid: bool) -> (verdict:
        TransactionValidity)
        ensures
            verdict@ == self@.validity(encoded@, signature_valid),
    {
        let extrinsic = match Extrinsic::decode(encoded) {
            Ok(extrinsic) => extrinsic,
            Err(e) => {
                return TransactionValidity::Invalid(ApplyError::Malformed(e));
            },
        };
        let weight = match self.weigh(extrinsic.call()) {
            Ok(weight) => weight,
            Err(e) => {
                return TransactionValidity::Invalid(ApplyError::Malformed(e));
            },
        };
        match extrinsic {
            Extrinsic::Inherent { call: _ } => TransactionValidity::Invalid(
                ApplyError::PreconditionFailed(PreconditionFailed::MissingSigner),
            ),
            Extrinsic::Transaction { signer, signature: _, nonce, mortality, call: _ } => {
                let who = match self.lookup(signer) {
                    Some(who) => who,
                    None => {
                        return TransactionValidity::Invalid(
                            ApplyError::PreconditionFailed(PreconditionFailed::UnknownSigner),
                        );
                    },
                };
                if !signature_valid {
                    return TransactionValidity::Invalid(
                        ApplyError::PreconditionFailed(PreconditionFailed::BadSignature),
                    );
                }
                let current = self.ledger.account_nonce(who);
                if nonce < current {
                    return TransactionValidity::Invalid(
                        ApplyError::PreconditionFailed(PreconditionFailed::Stale),
                    );
                }
                let payable = match self.schedule.compute(encoded.len(), weight) {
                    None => false,
                    Some(fee) => fee <= self.ledger.free_balance(who),
                };
                if !payable {
                    return TransactionValidity::Invalid(
                        ApplyError::PreconditionFailed(PreconditionFailed::CannotPay),
                    );
                }
                let longevity = match mortality {
                    Mortality::Immortal => u64::MAX,
                    Mortality::Until(last) => if last >= self.number {
                        last - self.number
                    } else {
                        0
                    },
                };
                let mut required: Vec<Tag> = Vec::new();
                if nonce > current {
                    required.push(Tag { account: who, nonce: nonce - 1 });
                }
                TransactionValidity::Valid { priority: encoded.len() as u64, longevity, required }
            },
        }
    }
}

} // verus!
