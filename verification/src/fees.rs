//! Transaction fees: how much an extrinsic costs, and how a charged fee is
//! divided between the treasury and the block author.

use crate::ledger::{Ledger, LedgerState, NegativeImbalance};
use crate::primitives::{AccountId, Balance, Weight};
use vstd::arithmetic::div_mod::{
    lemma_fundamental_div_mod,
    lemma_fundamental_div_mod_converse,
    lemma_mod_bound,
};
use vstd::prelude::*;

verus! {

/// Parts of every fee that go to the treasury.
pub const TREASURY_PARTS: u32 = 4;

/// Parts of every fee that go to the block author.
pub const AUTHOR_PARTS: u32 = 1;

/// The first portion of `amount` under the ratio `part1 : part2`: the amount
/// times `part1`, divided by the sum of the parts and rounded down.
pub open spec fn first_portion(part1: u32, part2: u32, amount: Balance) -> int {
    (amount as int * part1 as int) / (part1 as int + part2 as int)
}

/// The second portion of `amount` under the ratio `part1 : part2`: what the
/// first portion leaves, so that it takes up the remainder of the division.
pub open spec fn second_portion(part1: u32, part2: u32, amount: Balance) -> int {
    amount as int - first_portion(part1, part2, amount)
}

/// The two portions of any amount add up to the amount, and neither is
/// negative: a split creates no value and destroys none.
pub proof fn split_conserves_value(part1: u32, part2: u32, amount: Balance)
    requires
        part1 + part2 > 0,
    ensures
        first_portion(part1, part2, amount) + second_portion(part1, part2, amount) == amount,
        0 <= first_portion(part1, part2, amount) <= amount,
        0 <= second_portion(part1, part2, amount) <= amount,
{
    lemma_first_portion(part1, part2, amount);
}

/// The first portion, computed from the quotient and remainder of the amount
/// by the sum of the parts.
proof fn lemma_first_portion(part1: u32, part2: u32, amount: Balance)
    requires
        part1 + part2 > 0,
    ensures
        first_portion(part1, part2, amount) == (amount as int / (part1 + part2)) * part1 + ((
        amount as int % (part1 + part2)) * part1) / (part1 + part2),
        0 <= (amount as int / (part1 + part2)) * part1 <= first_portion(part1, part2, amount)
            <= amount,
        0 <= (amount as int % (part1 + part2)) * part1 < 0x4_0000_0000_0000_0000,
{
    let a = amount as int;
    let p = part1 as int;
    let t = part1 as int + part2 as int;
    let q = a / t;
    let r = a % t;
    let y = r * p;
    lemma_fundamental_div_mod(a, t);
    lemma_mod_bound(a, t);
    lemma_fundamental_div_mod(y, t);
    lemma_mod_bound(y, t);
    assert(0 <= y < 0x4_0000_0000_0000_0000 && y <= r * t) by (nonlinear_arith)
        requires
            y == r * p,
            0 <= r < t,
            0 <= p <= t,
            t < 0x2_0000_0000,
            p < 0x1_0000_0000,
    ;
    assert(0 <= q) by (nonlinear_arith)
        requires
            a == t * q + r,
            0 <= r < t,
            a >= 0,
    ;
    assert(0 <= y / t <= r) by (nonlinear_arith)
        requires
            y == t * (y / t) + y % t,
            0 <= y % t < t,
            0 <= y <= r * t,
    ;
    assert(a * p == (q * p + y / t) * t + y % t) by (nonlinear_arith)
        requires
            a == t * q + r,
            y == r * p,
            y == t * (y / t) + y % t,
    ;
    lemma_fundamental_div_mod_converse(a * p, t, q * p + y / t, y % t);
    assert(0 <= q * p <= q * t) by (nonlinear_arith)
        requires
            0 <= q,
            0 <= p <= t,
    ;
    assert(q * t == t * q) by (nonlinear_arith);
}

/// Divides an amount between two sides by a fixed ratio of whole parts.
#[derive(Clone, Copy, Debug)]
pub struct SplitTwoWays {
    part1: u32,
    part2: u32,
}

impl SplitTwoWays {
    /// Parts that go to the first side.
    pub closed spec fn first_parts(&self) -> u32 {
        self.part1
    }

    /// Parts that go to the second side.
    pub closed spec fn second_parts(&self) -> u32 {
        self.part2
    }

    #[verifier::type_invariant]
    spec fn some_part(&self) -> bool {
        self.part1 + self.part2 > 0
    }

    /// A split by the ratio `part1 : part2`. There is none where both parts
    /// are zero.
    pub fn new(part1: u32, part2: u32) -> (split: Option<SplitTwoWays>)
        ensures
            split is None <==> part1 == 0 && part2 == 0,
            split matches Some(s) ==> s.first_parts() == part1 && s.second_parts() == part2,
    {
        if part1 == 0 && part2 == 0 {
            None
        } else {
            Some(SplitTwoWays { part1, part2 })
        }
    }

    /// The two portions of `amount`. The second side takes what rounding
    /// down leaves of the first.
    pub fn portions(&self, amount: Balance) -> (parts: (Balance, Balance))
        ensures
            parts.0 == first_portion(self.first_parts(), self.second_parts(), amount),
            parts.1 == second_portion(self.first_parts(), self.second_parts(), amount),
            parts.0 + parts.1 == amount,
    {
        proof {
            use_type_invariant(self);
            lemma_first_portion(self.part1, self.part2, amount);
        }
        let total: u128 = self.part1 as u128 + self.part2 as u128;
        let whole: u128 = (amount / total) * (self.part1 as u128);
        let rest: u128 = ((amount % total) * (self.part1 as u128)) / total;
        let first: u128 = whole + rest;
        (first, amount - first)
    }

    /// Splits an imbalance into the two portions of its amount.
    pub fn split(&self, token: NegativeImbalance) -> (parts: (NegativeImbalance, NegativeImbalance))
        ensures
            parts.0.value() == first_portion(
                self.first_parts(),
                self.second_parts(),
                token.value(),
            ),
            parts.1.value() == second_portion(
                self.first_parts(),
                self.second_parts(),
                token.value(),
            ),
            parts.0.value() + parts.1.value() == token.value(),
    {
        let (first, _) = self.portions(token.peek());
        token.split(first)
    }
}

/// Fee sink that credits the author of the current block.
#[derive(Clone, Copy, Debug)]
pub struct Author {
    account: AccountId,
}

impl Author {
    /// The account that is credited.
    pub closed spec fn target(&self) -> AccountId {
        self.account
    }

    /// A sink for the block author `author`.
    pub fn new(author: AccountId) -> (sink: Author)
        ensures
            sink.target() == author,
    {
        Author { account: author }
    }

    /// The account that is credited.
    pub fn account(&self) -> (account: AccountId)
        ensures
            account == self.target(),
    {
        self.account
    }

    /// Credits the whole imbalance to the block author.
    pub fn on_unbalanced(&self, ledger: &mut Ledger, amount: NegativeImbalance)
        requires
            old(ledger).wf(),
            amount.value() <= old(ledger)@.unresolved,
        ensures
            final(ledger).wf(),
            final(ledger)@ == old(ledger)@.after_resolve(self.target(), amount.value()),
            final(ledger)@.unresolved == old(ledger)@.unresolved - amount.value(),
    {
        ledger.resolve_creating(self.account, amount);
    }
}

/// Fee sink that credits the holder of the privileged key, which stands in
/// for a treasury.
#[derive(Clone, Copy, Debug)]
pub struct MockTreasury {
    account: AccountId,
}

impl MockTreasury {
    /// The account that is credited.
    pub closed spec fn target(&self) -> AccountId {
        self.account
    }

    /// A sink for the holder `key` of the privileged key.
    pub fn new(key: AccountId) -> (sink: MockTreasury)
        ensures
            sink.target() == key,
    {
        MockTreasury { account: key }
    }

    /// The account that is credited.
    pub fn account(&self) -> (account: AccountId)
        ensures
            account == self.target(),
    {
        self.account
    }

    /// Credits the whole imbalance to the holder of the privileged key.
    pub fn on_unbalanced(&self, ledger: &mut Ledger, amount: NegativeImbalance)
        requires
            old(ledger).wf(),
            amount.value() <= old(ledger)@.unresolved,
        ensures
            final(ledger).wf(),
            final(ledger)@ == old(ledger)@.after_resolve(self.target(), amount.value()),
            final(ledger)@.unresolved == old(ledger)@.unresolved - amount.value(),
    {
        ledger.resolve_creating(self.account, amount);
    }
}

/// The ledger after a fee of `amount` was divided: four parts credited to
/// `treasury`, then one part and the remainder credited to `author`.
pub open spec fn fee_distributed(
    ledger: LedgerState,
    treasury: AccountId,
    author: AccountId,
    amount: Balance,
) -> LedgerState {
    ledger.after_resolve(
        treasury,
        first_portion(TREASURY_PARTS, AUTHOR_PARTS, amount) as Balance,
    ).after_resolve(author, second_portion(TREASURY_PARTS, AUTHOR_PARTS, amount) as Balance)
}

/// Distribution of charged fees: four parts to the treasury, one part to
/// the block author.
#[derive(Clone, Copy, Debug)]
pub struct DealWithFees {
    treasury: MockTreasury,
    author: Author,
}

impl DealWithFees {
    /// The account credited with the treasury's portion.
    pub closed spec fn treasury_account(&self) -> AccountId {
        self.treasury.target()
    }

    /// The account credited with the author's portion.
    pub closed spec fn author_account(&self) -> AccountId {
        self.author.target()
    }

    /// A distribution between the two given sinks.
    pub fn new(treasury: MockTreasury, author: Author) -> (deal: DealWithFees)
        ensures
            deal.treasury_account() == treasury.target(),
            deal.author_account() == author.target(),
    {
        DealWithFees { treasury, author }
    }

    /// Divides the imbalance and credits each sink with its portion. Nothing
    /// of the amount is left unresolved.
    pub fn on_unbalanced(&self, ledger: &mut Ledger, amount: NegativeImbalance)
        requires
            old(ledger).wf(),
            amount.value() <= old(ledger)@.unresolved,
        ensures
            final(ledger).wf(),
            final(ledger)@ == fee_distributed(
                old(ledger)@,
                self.treasury_account(),
                self.author_account(),
                amount.value(),
            ),
            final(ledger)@.unresolved == old(ledger)@.unresolved - amount.value(),
            final(ledger)@.issuance == old(ledger)@.issuance,
    {
        let ratio = SplitTwoWays { part1: TREASURY_PARTS, part2: AUTHOR_PARTS };
        let (first, second) = ratio.split(amount);
        self.treasury.on_unbalanced(ledger, first);
        self.author.on_unbalanced(ledger, second);
    }
}

/// What a distributed fee adds to the two sinks together equals the fee:
/// with distinct sinks each gains its portion, with one account for both it
/// gains the whole fee; every other account keeps its balance.
pub proof fn fee_distribution_conserves_value(
    ledger: LedgerState,
    treasury: AccountId,
    author: AccountId,
    amount: Balance,
    other: AccountId,
)
    requires
        ledger.conserved(),
        amount <= ledger.unresolved,
        other != treasury,
        other != author,
    ensures
        treasury != author ==> fee_distributed(ledger, treasury, author, amount).free_balance(
            treasury,
        ) - ledger.free_balance(treasury) + fee_distributed(
            ledger,
            treasury,
            author,
            amount,
        ).free_balance(author) - ledger.free_balance(author) == amount,
        treasury == author ==> fee_distributed(ledger, treasury, author, amount).free_balance(
            treasury,
        ) - ledger.free_balance(treasury) == amount,
        fee_distributed(ledger, treasury, author, amount).free_balance(other)
            == ledger.free_balance(other),
        fee_distributed(ledger, treasury, author, amount).issuance == ledger.issuance,
        fee_distributed(ledger, treasury, author, amount).conserved(),
{
    split_conserves_value(TREASURY_PARTS, AUTHOR_PARTS, amount);
    let first = first_portion(TREASURY_PARTS, AUTHOR_PARTS, amount) as Balance;
    let second = second_portion(TREASURY_PARTS, AUTHOR_PARTS, amount) as Balance;
    crate::ledger::lemma_resolve_keeps_conservation(ledger, treasury, first);
    let mid = ledger.after_resolve(treasury, first);
    crate::ledger::lemma_resolve_keeps_conservation(mid, author, second);
}

/// Dividing a fee touches no nonce.
pub proof fn fee_distribution_keeps_nonces(
    ledger: LedgerState,
    treasury: AccountId,
    author: AccountId,
    amount: Balance,
    who: AccountId,
)
    ensures
        fee_distributed(ledger, treasury, author, amount).nonce(who) == ledger.nonce(who),
{
}

/// The price list of the pipeline: what an extrinsic costs by its size and
/// by the weight of its call.
#[derive(Clone, Copy, Debug, PartialEq, Eq, Structural)]
pub struct FeeSchedule {
    /// Charged for every transaction.
    pub base_fee: Balance,
    /// Charged for every byte of the encoded transaction.
    pub byte_fee: Balance,
    /// Charged for every unit of weight of the call.
    pub weight_fee: Balance,
}

impl FeeSchedule {
    /// The fee for a transaction of `encoded_len` bytes whose call has the
    /// given weight: base fee, plus byte fee times length, plus weight fee
    /// times weight.
    pub open spec fn fee(self, encoded_len: nat, weight: Weight) -> int {
        self.base_fee as int + self.byte_fee as int * encoded_len as int + self.weight_fee as int
            * weight as int
    }

    /// Computes the fee, or finds that it exceeds every balance.
    pub fn compute(&self, encoded_len: usize, weight: Weight) -> (fee: Option<Balance>)
        ensures
            fee is Some <==> self.fee(encoded_len as nat, weight) <= Balance::MAX,
            fee matches Some(f) ==> f == self.fee(encoded_len as nat, weight),
    {
        assert(0 <= self.byte_fee as int * encoded_len as int) by (nonlinear_arith);
        assert(0 <= self.weight_fee as int * weight as int) by (nonlinear_arith);
        let by_length = match self.byte_fee.checked_mul(encoded_len as u128) {
            Some(v) => v,
            None => {
                return None;
            },
        };
        let by_weight = match self.weight_fee.checked_mul(weight as u128) {
            Some(v) => v,
            None => {
                return None;
            },
        };
        let sized = match self.base_fee.checked_add(by_length) {
            Some(v) => v,
            None => {
                return None;
            },
        };
        sized.checked_add(by_weight)
    }
}

} // verus!
