//! The event log of a block: what the pipeline and the modules record
//! while the block runs.

use crate::error::DispatchError;
use crate::primitives::{Balance, Duplicate, ModuleIndex, Weight};
use vstd::prelude::*;

verus! {

/// The part of block execution in which an event was emitted.
#[derive(Clone, Copy, Debug, PartialEq, Eq, Structural)]
pub enum EventPhase {
    /// While the block was opened.
    Initialization,
    /// While the extrinsic of this index was applied.
    ApplyExtrinsic(u64),
    /// While the block was closed.
    Finalization,
}

/// An entry of the event log.
#[derive(Clone, Debug, PartialEq, Eq)]
pub enum Event {
    /// An extrinsic was dispatched and its call succeeded.
    ExtrinsicSuccess { weight: Weight, fee: Balance },
    /// An extrinsic was dispatched and its call failed.
    ExtrinsicFailed { error: DispatchError, fee: Balance },
    /// A module emitted one of its event variants.
    Module { module: ModuleIndex, tag: u8, data: Vec<u8> },
}

/// Mathematical content of an event.
pub enum EventSpec {
    ExtrinsicSuccess { weight: Weight, fee: Balance },
    ExtrinsicFailed { error: DispatchError, fee: Balance },
    Module { module: ModuleIndex, tag: u8, data: Seq<u8> },
}

impl View for Event {
    type V = EventSpec;

    open spec fn view(&self) -> EventSpec {
        match *self {
            Event::ExtrinsicSuccess { weight, fee } => EventSpec::ExtrinsicSuccess { weight, fee },
            Event::ExtrinsicFailed { error, fee } => EventSpec::ExtrinsicFailed { error, fee },
            Event::Module { module, tag, data } => EventSpec::Module { module, tag, data: data@ },
        }
    }
}

/// An event together with the part of execution that emitted it.
#[derive(Clone, Debug, PartialEq, Eq)]
pub struct EventRecord {
    pub phase: EventPhase,
    pub event: Event,
}

/// Mathematical content of an event record.
pub struct EventRecordSpec {
    pub phase: EventPhase,
    pub event: EventSpec,
}

impl View for EventRecord {
    type V = EventRecordSpec;

    open spec fn view(&self) -> EventRecordSpec {
        EventRecordSpec { phase: self.phase, event: self.event@ }
    }
}

impl Duplicate for EventRecord {
    fn duplicate(&self) -> (copy: EventRecord) {
        let event = match &self.event {
            Event::ExtrinsicSuccess { weight, fee } => Event::ExtrinsicSuccess {
                weight: *weight,
                fee: *fee,
            },
            Event::ExtrinsicFailed { error, fee } => Event::ExtrinsicFailed {
                error: *error,
                fee: *fee,
            },
            Event::Module { module, tag, data } => Event::Module {
                module: *module,
                tag: *tag,
                data: data.clone(),
            },
        };
        EventRecord { phase: self.phase, event }
    }
}

} // verus!
