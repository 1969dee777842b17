//! Blocks, their headers, and the digest of consensus log entries that a
//! header carries.

use crate::error::BlockImportFatal;
use crate::extrinsic::{Extrinsic, ExtrinsicSpec};
use crate::primitives::{views, BlockNumber, Duplicate, H256};
use vstd::prelude::*;

verus! {

/// What a digest entry is for.
#[derive(Clone, Copy, Debug, PartialEq, Eq, Structural)]
pub enum DigestKind {
    /// Written by a consensus engine before the block is executed.
    PreRuntime,
    /// Written by a module for a consensus engine.
    Consensus,
    /// The author's seal, added when the block is complete.
    Seal,
    /// Anything else.
    Other,
}

/// One entry of the digest: a message for one consensus engine.
#[derive(Clone, Debug, PartialEq, Eq)]
pub struct DigestItem {
    pub kind: DigestKind,
    /// Identifier of the consensus engine the entry is meant for.
    pub engine: u32,
    pub data: Vec<u8>,
}

/// Mathematical content of a digest entry.
pub struct DigestItemSpec {
    pub kind: DigestKind,
    pub engine: u32,
    pub data: Seq<u8>,
}

impl View for DigestItem {
    type V = DigestItemSpec;

    open spec fn view(&self) -> DigestItemSpec {
        DigestItemSpec { kind: self.kind, engine: self.engine, data: self.data@ }
    }
}

/// The header of a block.
#[derive(Clone, Debug, PartialEq, Eq)]
pub struct Header {
    pub parent_hash: H256,
    pub number: BlockNumber,
    pub state_root: H256,
    pub extrinsics_root: H256,
    pub digest: Vec<DigestItem>,
}

/// Mathematical content of a header.
pub struct HeaderSpec {
    pub parent_hash: H256,
    pub number: BlockNumber,
    pub state_root: H256,
    pub extrinsics_root: H256,
    pub digest: Seq<DigestItemSpec>,
}

impl View for Header {
    type V = HeaderSpec;

    open spec fn view(&self) -> HeaderSpec {
        HeaderSpec {
            parent_hash: self.parent_hash,
            number: self.number,
            state_root: self.state_root,
            extrinsics_root: self.extrinsics_root,
            digest: views(self.digest@),
        }
    }
}

impl Duplicate for DigestItem {
    fn duplicate(&self) -> (copy: DigestItem) {
        DigestItem { kind: self.kind, engine: self.engine, data: self.data.clone() }
    }
}

impl DigestItem {
    /// Whether two entries have the same content.
    pub fn same(&self, other: &DigestItem) -> (same: bool)
        ensures
            same == (self@ == other@),
    {
        if self.kind != other.kind || self.engine != other.engine || self.data.len()
            != other.data.len() {
            return false;
        }
        let mut i: usize = 0;
        while i < self.data.len()
            invariant
                i <= self.data.len(),
                self.data.len() == other.data.len(),
                self.data@.take(i as int) == other.data@.take(i as int),
            decreases self.data.len() - i,
        {
            if self.data[i] != other.data[i] {
                return false;
            }
            i = i + 1;
        }
        assert(self.data@.take(self.data.len() as int) =~= self.data@);
        assert(other.data@.take(other.data.len() as int) =~= other.data@);
        true
    }
}

/// A block: the header and the extrinsics in the order in which they are
/// applied.
#[derive(Clone, Debug, PartialEq, Eq)]
pub struct Block {
    pub header: Header,
    pub extrinsics: Vec<Extrinsic>,
}

/// Mathematical content of a block.
pub struct BlockSpec {
    pub header: HeaderSpec,
    pub extrinsics: Seq<ExtrinsicSpec>,
}

impl View for Block {
    type V = BlockSpec;

    open spec fn view(&self) -> BlockSpec {
        BlockSpec { header: self.header@, extrinsics: views(self.extrinsics@) }
    }
}

/// Whether two digests have the same content.
pub fn same_digest(first: &Vec<DigestItem>, second: &Vec<DigestItem>) -> (same: bool)
    ensures
        same == (views(first@) == views(second@)),
{
    if first.len() != second.len() {
        assert(views(first@).len() != views(second@).len());
        return false;
    }
    let mut i: usize = 0;
    while i < first.len()
        invariant
            i <= first.len(),
            first.len() == second.len(),
            forall|k: int| 0 <= k < i ==> (#[trigger] first@[k])@ == second@[k]@,
        decreases first.len() - i,
    {
        if !first[i].same(&second[i]) {
            assert(views(first@)[i as int] != views(second@)[i as int]);
            return false;
        }
        i = i + 1;
    }
    assert(views(first@) =~= views(second@));
    true
}

/// What is wrong with a header that a block declares, held against the
/// header that executing the block arrived at. Number and parent are held
/// first, then the extrinsics root, the digest, and the state root.
pub open spec fn import_defect(declared: HeaderSpec, computed: HeaderSpec) -> Option<
    BlockImportFatal,
> {
    if declared.number != computed.number {
        Some(BlockImportFatal::BadNumber)
    } else if declared.parent_hash != computed.parent_hash {
        Some(BlockImportFatal::BadParent)
    } else if declared.extrinsics_root != computed.extrinsics_root {
        Some(BlockImportFatal::BadExtrinsicsRoot)
    } else if declared.digest != computed.digest {
        Some(BlockImportFatal::BadDigest)
    } else if declared.state_root != computed.state_root {
        Some(BlockImportFatal::BadStateRoot)
    } else {
        None
    }
}

impl Header {
    /// Holds the header that a block declares against the header that
    /// executing the block arrived at. The block is to be discarded where
    /// they differ.
    pub fn check_against(&self, computed: &Header) -> (result: Result<(), BlockImportFatal>)
        ensures
            result is Ok <==> self@ == computed@,
            result matches Err(e) ==> import_defect(self@, computed@) == Some(e),
    {
        if self.number != computed.number {
            Err(BlockImportFatal::BadNumber)
        } else if self.parent_hash != computed.parent_hash {
            Err(BlockImportFatal::BadParent)
        } else if self.extrinsics_root != computed.extrinsics_root {
            Err(BlockImportFatal::BadExtrinsicsRoot)
        } else if !same_digest(&self.digest, &computed.digest) {
            Err(BlockImportFatal::BadDigest)
        } else if self.state_root != computed.state_root {
            Err(BlockImportFatal::BadStateRoot)
        } else {
            Ok(())
        }
    }
}

} // verus!
