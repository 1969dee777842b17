//! Plain value types shared by every component.

use vstd::prelude::*;

verus! {

/// The content of a container of items, item by item.
pub open spec fn views<T: View>(items: Seq<T>) -> Seq<T::V> {
    Seq::new(items.len(), |i: int| items[i]@)
}

/// A value that can be copied, content for content.
pub trait Duplicate: View + Sized {
    /// A copy with the same content.
    fn duplicate(&self) -> (copy: Self)
        ensures
            copy@ == self@,
    ;
}

/// A copy of a list, item for item.
pub fn duplicate_all<T: Duplicate>(items: &Vec<T>) -> (copy: Vec<T>)
    ensures
        views(copy@) == views(items@),
{
    let mut copy: Vec<T> = Vec::new();
    let mut i: usize = 0;
    while i < items.len()
        invariant
            i <= items.len(),
            views(copy@) == views(items@).take(i as int),
        decreases items.len() - i,
    {
        let item = items[i].duplicate();
        let ghost before = copy@;
        copy.push(item);
        assert(views(copy@) =~= views(before).push(item@));
        i = i + 1;
    }
    copy
}

/// Identifies an account of the ledger.
pub type AccountId = u64;

/// Short numeric alias under which an account may be addressed.
pub type AccountIndex = u32;

/// Amount of currency.
pub type Balance = u128;

/// Height of a block in the chain.
pub type BlockNumber = u64;

/// Point in time, in seconds.
pub type Moment = u64;

/// Per-account replay counter.
pub type Nonce = u64;

/// Cost of executing a call, in abstract units.
pub type Weight = u64;

/// Position of a module in the registry, which is also its tag in encoded
/// calls and events.
pub type ModuleIndex = u8;

/// A 256-bit digest, held as two 128-bit words.
#[derive(Clone, Copy, Debug, PartialEq, Eq, Structural)]
pub struct H256 {
    pub high: u128,
    pub low: u128,
}

impl H256 {
    /// The digest whose bits are all zero.
    pub fn zero() -> (hash: H256)
        ensures
            hash == (H256 { high: 0, low: 0 }),
    {
        H256 { high: 0, low: 0 }
    }
}

} // verus!
