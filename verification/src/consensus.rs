//! What the consensus engines ask of the runtime: the slot-authoring
//! engine asks for the slot duration and its authorities, the
//! finality-voting engine for its authorities and for the changes of the
//! authority set that a block's digest announces.
//!
//! A change is announced by a consensus entry for the finality engine. Its
//! data starts with a kind byte. A scheduled change goes on with the delay
//! in eight bytes; a forced change with the median of the last finalized
//! numbers and then the delay, eight bytes each. The rest lists the next
//! authorities, forty bytes each: the identifier in two 128-bit words, the
//! higher first, then the weight in eight bytes. Integers are
//! little-endian.

use crate::block::{DigestItem, DigestItemSpec, DigestKind};
use crate::primitives::{views, BlockNumber, Moment, H256};
use vstd::bytes::{
    spec_u128_from_le_bytes,
    spec_u64_from_le_bytes,
    u128_from_le_bytes,
    u64_from_le_bytes,
};
use vstd::prelude::*;
use vstd::slice::slice_subrange;

verus! {

/// Public key of an authority.
pub type AuthorityId = H256;

/// Identifier of the slot-authoring engine: the bytes of "aura", read as a
/// little-endian number.
pub const AURA_ENGINE_ID: u32 = 0x6172_7561;

/// Identifier of the finality-voting engine: the bytes of "FRNK", read as
/// a little-endian number.
pub const GRANDPA_ENGINE_ID: u32 = 0x4b4e_5246;

/// Kind byte of a scheduled change.
pub const SIGNAL_SCHEDULED: u8 = 0x01;

/// Kind byte of a forced change.
pub const SIGNAL_FORCED: u8 = 0x02;

/// Bytes that one authority takes up in a signal.
pub const AUTHORITY_BYTES: usize = 40;

/// A voter of the finality engine and the weight of its vote.
#[derive(Clone, Copy, Debug, PartialEq, Eq, Structural)]
pub struct Authority {
    pub id: AuthorityId,
    pub weight: u64,
}

/// A change of the authority set that takes effect after a delay.
#[derive(Clone, Debug, PartialEq, Eq)]
pub struct ScheduledChange {
    /// The authorities after the change.
    pub next_authorities: Vec<Authority>,
    /// Number of blocks after which the change takes effect.
    pub delay: BlockNumber,
}

/// Mathematical content of a scheduled change.
pub struct ScheduledChangeSpec {
    pub next_authorities: Seq<Authority>,
    pub delay: BlockNumber,
}

impl View for ScheduledChange {
    type V = ScheduledChangeSpec;

    open spec fn view(&self) -> ScheduledChangeSpec {
        ScheduledChangeSpec { next_authorities: self.next_authorities@, delay: self.delay }
    }
}

/// What a digest entry tells the finality engine.
pub enum Signal {
    /// The authority set changes after the delay.
    Scheduled(ScheduledChangeSpec),
    /// The authority set changes after the delay, counted from the median
    /// of the last finalized numbers, whether or not the block is
    /// finalized.
    Forced(BlockNumber, ScheduledChangeSpec),
}

/// The authority whose forty bytes start at position `at`.
pub open spec fn authority_at(data: Seq<u8>, at: int) -> Authority {
    Authority {
        id: H256 {
            high: spec_u128_from_le_bytes(data.subrange(at, at + 16)),
            low: spec_u128_from_le_bytes(data.subrange(at + 16, at + 32)),
        },
        weight: spec_u64_from_le_bytes(data.subrange(at + 32, at + 40)),
    }
}

/// The authorities that take up the data from position `at` to the end, if
/// the data ends with a whole authority.
pub open spec fn parse_authorities(data: Seq<u8>, at: int) -> Option<Seq<Authority>> {
    if at > data.len() || (data.len() - at) % (AUTHORITY_BYTES as int) != 0 {
        None
    } else {
        Some(
            Seq::new(
                ((data.len() - at) / (AUTHORITY_BYTES as int)) as nat,
                |i: int| authority_at(data, at + i * AUTHORITY_BYTES),
            ),
        )
    }
}

/// What the entry tells the finality engine, if it is a well-formed signal
/// for that engine.
pub open spec fn signal_of(item: DigestItemSpec) -> Option<Signal> {
    if item.kind != DigestKind::Consensus || item.engine != GRANDPA_ENGINE_ID || item.data.len()
        == 0 {
        None
    } else if item.data[0] == SIGNAL_SCHEDULED {
        if item.data.len() < 9 {
            None
        } else {
            match parse_authorities(item.data, 9) {
                None => None,
                Some(next_authorities) => Some(
                    Signal::Scheduled(
                        ScheduledChangeSpec {
                            next_authorities,
                            delay: spec_u64_from_le_bytes(item.data.subrange(1, 9)),
                        },
                    ),
                ),
            }
        }
    } else if item.data[0] == SIGNAL_FORCED {
        if item.data.len() < 17 {
            None
        } else {
            match parse_authorities(item.data, 17) {
                None => None,
                Some(next_authorities) => Some(
                    Signal::Forced(
                        spec_u64_from_le_bytes(item.data.subrange(1, 9)),
                        ScheduledChangeSpec {
                            next_authorities,
                            delay: spec_u64_from_le_bytes(item.data.subrange(9, 17)),
                        },
                    ),
                ),
            }
        }
    } else {
        None
    }
}

/// The scheduled change of the first entry at or after position `from`
/// that announces one.
pub open spec fn first_scheduled(digest: Seq<DigestItemSpec>, from: int) -> Option<
    ScheduledChangeSpec,
>
    decreases digest.len() - from,
{
    if from < 0 || from >= digest.len() {
        None
    } else {
        match signal_of(digest[from]) {
            Some(Signal::Scheduled(change)) => Some(change),
            _ => first_scheduled(digest, from + 1),
        }
    }
}

/// The forced change of the first entry at or after position `from` that
/// announces one, with the median it counts from.
pub open spec fn first_forced(digest: Seq<DigestItemSpec>, from: int) -> Option<
    (BlockNumber, ScheduledChangeSpec),
>
    decreases digest.len() - from,
{
    if from < 0 || from >= digest.len() {
        None
    } else {
        match signal_of(digest[from]) {
            Some(Signal::Forced(median, change)) => Some((median, change)),
            _ => first_forced(digest, from + 1),
        }
    }
}

/// Reads the authorities that take up the data from position `at` on.
fn read_authorities(data: &[u8], at: usize) -> (result: Option<Vec<Authority>>)
    requires
        at <= data@.len(),
    ensures
        result is Some <==> parse_authorities(data@, at as int) is Some,
        result matches Some(list) ==> parse_authorities(data@, at as int) == Some(list@),
{
    let rest = data.len() - at;
    if rest % AUTHORITY_BYTES != 0 {
        return None;
    }
    let count = rest / AUTHORITY_BYTES;
    let ghost expected = parse_authorities(data@, at as int)->0;
    let mut list: Vec<Authority> = Vec::new();
    let mut i: usize = 0;
    while i < count
        invariant
            i <= count,
            at <= data@.len() <= usize::MAX,
            rest == data@.len() - at,
            count == rest / AUTHORITY_BYTES,
            rest % AUTHORITY_BYTES == 0,
            parse_authorities(data@, at as int) == Some(expected),
            list@ == expected.take(i as int),
        decreases count - i,
    {
        assert(0 <= i * AUTHORITY_BYTES && at + i * AUTHORITY_BYTES + 40 <= data@.len())
            by (nonlinear_arith)
            requires
                0 <= i < count,
                count == rest / 40,
                rest % 40 == 0,
                rest == data@.len() - at,
                AUTHORITY_BYTES == 40,
        ;
        let start = at + i * AUTHORITY_BYTES;
        let high = u128_from_le_bytes(slice_subrange(data, start, start + 16));
        let low = u128_from_le_bytes(slice_subrange(data, start + 16, start + 32));
        let weight = u64_from_le_bytes(slice_subrange(data, start + 32, start + 40));
        list.push(Authority { id: H256 { high, low }, weight });
        i = i + 1;
    }
    Some(list)
}

/// The scheduled change that the entry announces, if it announces one.
fn scheduled_in(item: &DigestItem) -> (result: Option<ScheduledChange>)
    ensures
        result is Some <==> signal_of(item@) matches Some(Signal::Scheduled(_)),
        result matches Some(change) ==> signal_of(item@) == Some(Signal::Scheduled(change@)),
{
    if item.kind != DigestKind::Consensus || item.engine != GRANDPA_ENGINE_ID {
        return None;
    }
    let data = item.data.as_slice();
    if data.len() < 9 || data[0] != SIGNAL_SCHEDULED {
        return None;
    }
    match read_authorities(data, 9) {
        None => None,
        Some(next_authorities) => {
            let delay = u64_from_le_bytes(slice_subrange(data, 1, 9));
            Some(ScheduledChange { next_authorities, delay })
        },
    }
}

/// The forced change that the entry announces, if it announces one, with
/// the median it counts from.
fn forced_in(item: &DigestItem) -> (result: Option<(BlockNumber, ScheduledChange)>)
    ensures
        result is Some <==> signal_of(item@) matches Some(Signal::Forced(_, _)),
        result matches Some((median, change)) ==> signal_of(item@) == Some(
            Signal::Forced(median, change@),
        ),
{
    if item.kind != DigestKind::Consensus || item.engine != GRANDPA_ENGINE_ID {
        return None;
    }
    let data = item.data.as_slice();
    if data.len() < 17 || data[0] != SIGNAL_FORCED {
        return None;
    }
    match read_authorities(data, 17) {
        None => None,
        Some(next_authorities) => {
            let median = u64_from_le_bytes(slice_subrange(data, 1, 9));
            let delay = u64_from_le_bytes(slice_subrange(data, 9, 17));
            Some((median, ScheduledChange { next_authorities, delay }))
        },
    }
}

/// What the slot-authoring engine asks for.
#[derive(Clone, Debug, PartialEq, Eq)]
pub struct SlotAuthoring {
    slot_duration: Moment,
    authorities: Vec<AuthorityId>,
}

impl SlotAuthoring {
    /// Length of a slot.
    pub closed spec fn spec_slot_duration(&self) -> Moment {
        self.slot_duration
    }

    /// The authorities, in the order in which the slots go round.
    pub closed spec fn spec_authorities(&self) -> Seq<AuthorityId> {
        self.authorities@
    }

    /// An adapter with the given slot length and authorities.
    pub fn new(slot_duration: Moment, authorities: Vec<AuthorityId>) -> (adapter: SlotAuthoring)
        ensures
            adapter.spec_slot_duration() == slot_duration,
            adapter.spec_authorities() == authorities@,
    {
        SlotAuthoring { slot_duration, authorities }
    }

    /// Length of a slot.
    pub fn slot_duration(&self) -> (duration: Moment)
        ensures
            duration == self.spec_slot_duration(),
    {
        self.slot_duration
    }

    /// The authorities, in the order in which the slots go round.
    pub fn authorities(&self) -> (authorities: Vec<AuthorityId>)
        ensures
            authorities@ == self.spec_authorities(),
    {
        self.authorities.clone()
    }

    /// Replaces the authorities, as a new session does.
    pub fn set_authorities(&mut self, authorities: Vec<AuthorityId>)
        ensures
            final(self).spec_authorities() == authorities@,
            final(self).spec_slot_duration() == old(self).spec_slot_duration(),
    {
        self.authorities = authorities;
    }
}

/// What the finality-voting engine asks for.
#[derive(Clone, Debug, PartialEq, Eq)]
pub struct FinalityVoting {
    authorities: Vec<Authority>,
}

impl FinalityVoting {
    /// The current authorities with their weights.
    pub closed spec fn spec_authorities(&self) -> Seq<Authority> {
        self.authorities@
    }

    /// An adapter with the given authorities.
    pub fn new(authorities: Vec<Authority>) -> (adapter: FinalityVoting)
        ensures
            adapter.spec_authorities() == authorities@,
    {
        FinalityVoting { authorities }
    }

    /// The current authorities with their weights.
    pub fn current_authorities(&self) -> (authorities: Vec<Authority>)
        ensures
            authorities@ == self.spec_authorities(),
    {
        self.authorities.clone()
    }

    /// Replaces the authorities, as an enacted change does.
    pub fn set_authorities(&mut self, authorities: Vec<Authority>)
        ensures
            final(self).spec_authorities() == authorities@,
    {
        self.authorities = authorities;
    }

    /// The change of the authority set that the digest schedules: that of
    /// its first entry that announces one.
    pub fn pending_change(digest: &Vec<DigestItem>) -> (change: Option<ScheduledChange>)
        ensures
            change is Some <==> first_scheduled(views(digest@), 0) is Some,
            change matches Some(c) ==> first_scheduled(views(digest@), 0) == Some(c@),
    {
        let mut i: usize = 0;
        while i < digest.len()
            invariant
                i <= digest.len(),
                first_scheduled(views(digest@), 0) == first_scheduled(views(digest@), i as int),
            decreases digest.len() - i,
        {
            let found = scheduled_in(&digest[i]);
            if found.is_some() {
                return found;
            }
            i = i + 1;
        }
        None
    }

    /// The change of the authority set that the digest forces, with the
    /// median it counts from: that of its first entry that announces one.
    pub fn forced_change(digest: &Vec<DigestItem>) -> (change: Option<
        (BlockNumber, ScheduledChange),
    >)
        ensures
            change is Some <==> first_forced(views(digest@), 0) is Some,
            change matches Some((median, c)) ==> first_forced(views(digest@), 0) == Some(
                (median, c@),
            ),
    {
        let mut i: usize = 0;
        while i < digest.len()
            invariant
                i <= digest.len(),
                first_forced(views(digest@), 0) == first_forced(views(digest@), i as int),
            decreases digest.len() - i,
        {
            let found = forced_in(&digest[i]);
            if found.is_some() {
                return found;
            }
            i = i + 1;
        }
        None
    }
}

} // verus!
