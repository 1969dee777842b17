//! The ways in which an extrinsic or a block can fail.

use crate::primitives::ModuleIndex;
use vstd::prelude::*;

verus! {

/// The bytes do not decode to an extrinsic, or name a call that no module
/// has. The extrinsic is dropped and no state is touched.
#[derive(Clone, Copy, Debug, PartialEq, Eq, Structural)]
pub enum Malformed {
    /// The bytes end before the extrinsic does.
    Truncated,
    /// The first byte is no known format version.
    UnknownVersion,
    /// The signer's address is of no known kind.
    UnknownAddressKind,
    /// The mortality bound is of no known kind.
    UnknownMortality,
    /// No module is registered under the call's module index.
    UnknownModule,
    /// The module has no call variant with the call's tag.
    UnknownCall,
    /// The module has no event variant with the event's tag.
    UnknownEvent,
}

/// A transaction was turned away before dispatch. No state is touched and
/// the nonce stays as it was.
#[derive(Clone, Copy, Debug, PartialEq, Eq, Structural)]
pub enum PreconditionFailed {
    /// The extrinsic carries no signature where only transactions are taken.
    MissingSigner,
    /// The signature does not belong to the payload and the signer.
    BadSignature,
    /// The signer's address resolves to no account.
    UnknownSigner,
    /// The nonce lies below the account's current nonce.
    Stale,
    /// The nonce lies above the account's current nonce.
    Future,
    /// The account's nonce cannot advance any further.
    NonceExhausted,
    /// The account's free balance does not cover the fee.
    CannotPay,
}

/// Why an extrinsic was not applied.
#[derive(Clone, Copy, Debug, PartialEq, Eq, Structural)]
pub enum ApplyError {
    Malformed(Malformed),
    PreconditionFailed(PreconditionFailed),
}

/// A module turned a call down for a reason of its own. The extrinsic still
/// counts as included: its fee is charged and its nonce has advanced.
#[derive(Clone, Copy, Debug, PartialEq, Eq, Structural)]
pub struct DispatchError {
    /// The module that failed.
    pub module: ModuleIndex,
    /// The module's code for the failure.
    pub code: u8,
}

/// The block itself is invalid. The whole block is aborted and the host
/// discards all its writes.
#[derive(Clone, Copy, Debug, PartialEq, Eq, Structural)]
pub enum BlockImportFatal {
    /// The header's number does not follow the number of the last block, or
    /// is not the number that was executed.
    BadNumber,
    /// The header's parent hash is not the one that was executed on.
    BadParent,
    /// The header's extrinsics root is not the root of its extrinsics.
    BadExtrinsicsRoot,
    /// The header's digest is not the digest that execution arrived at.
    BadDigest,
    /// The header's state root is not the root that execution arrived at.
    BadStateRoot,
}

} // verus!
