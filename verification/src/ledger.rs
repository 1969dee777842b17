//! Account store of the pipeline: nonces, free balances and total issuance,
//! with value movements tracked through imbalance tokens.

use crate::primitives::{AccountId, Balance, Nonce};
use std::collections::HashMap;
use vstd::prelude::*;

verus! {

broadcast use vstd::std_specs::hash::group_hash_axioms;

/// What the ledger records for one account.
#[derive(Clone, Copy, Debug, PartialEq, Eq, Structural)]
pub struct Account {
    /// Number of transactions of this account that were applied so far.
    pub nonce: Nonce,
    /// Balance that the account may spend.
    pub free: Balance,
}

/// One more than the largest account identifier.
pub open spec fn account_id_limit() -> nat {
    0x1_0000_0000_0000_0000
}

/// The record of an account, which is empty for an account the ledger has
/// never seen.
pub open spec fn account_of(accounts: Map<AccountId, Account>, who: AccountId) -> Account {
    if accounts.dom().contains(who) {
        accounts[who]
    } else {
        Account { nonce: 0, free: 0 }
    }
}

/// Sum of the free balances of all accounts whose identifier is below `n`.
pub open spec fn free_below(accounts: Map<AccountId, Account>, n: nat) -> nat
    decreases n,
{
    if n == 0 {
        0
    } else {
        free_below(accounts, (n - 1) as nat) + account_of(
            accounts,
            (n - 1) as AccountId,
        ).free as nat
    }
}

/// Sum of the free balances of all accounts.
pub open spec fn total_free(accounts: Map<AccountId, Account>) -> nat {
    free_below(accounts, account_id_limit())
}

/// Replacing one account's record changes the partial sum by the change of
/// that account's free balance, if the account lies in the summed range.
proof fn lemma_free_below_insert(
    accounts: Map<AccountId, Account>,
    who: AccountId,
    record: Account,
    n: nat,
)
    requires
        n <= account_id_limit(),
    ensures
        free_below(accounts.insert(who, record), n) == free_below(accounts, n) + (if who < n {
            record.free - account_of(accounts, who).free
        } else {
            0
        }),
    decreases n,
{
    if n > 0 {
        lemma_free_below_insert(accounts, who, record, (n - 1) as nat);
    }
}

/// No account holds more than the sum over a range that contains it.
proof fn lemma_free_within_sum(accounts: Map<AccountId, Account>, who: AccountId, n: nat)
    requires
        who < n <= account_id_limit(),
    ensures
        account_of(accounts, who).free <= free_below(accounts, n),
    decreases n,
{
    if who < n - 1 {
        lemma_free_within_sum(accounts, who, (n - 1) as nat);
    }
}

/// The sum over an empty ledger is zero.
proof fn lemma_free_below_empty(n: nat)
    ensures
        free_below(Map::<AccountId, Account>::empty(), n) == 0,
    decreases n,
{
    if n > 0 {
        lemma_free_below_empty((n - 1) as nat);
    }
}

/// Mathematical content of a ledger.
pub struct LedgerState {
    /// The record of every account the ledger has seen.
    pub accounts: Map<AccountId, Account>,
    /// All currency in existence.
    pub issuance: Balance,
    /// Currency withdrawn from accounts and not yet credited or burned.
    pub unresolved: Balance,
}

impl LedgerState {
    /// Free balance of an account.
    pub open spec fn free_balance(self, who: AccountId) -> Balance {
        account_of(self.accounts, who).free
    }

    /// Nonce of an account.
    pub open spec fn nonce(self, who: AccountId) -> Nonce {
        account_of(self.accounts, who).nonce
    }

    /// Every unit of the issuance is held by an account or by an
    /// unresolved imbalance.
    pub open spec fn conserved(self) -> bool {
        total_free(self.accounts) + self.unresolved == self.issuance
    }

    /// The state after `amount` was added to the free balance of `who`.
    pub open spec fn with_credit(self, who: AccountId, amount: Balance) -> LedgerState {
        LedgerState {
            accounts: self.accounts.insert(
                who,
                Account {
                    nonce: self.nonce(who),
                    free: (self.free_balance(who) + amount) as Balance,
                },
            ),
            ..self
        }
    }

    /// The state after `amount` was taken from the free balance of `who`.
    pub open spec fn with_debit(self, who: AccountId, amount: Balance) -> LedgerState {
        LedgerState {
            accounts: self.accounts.insert(
                who,
                Account {
                    nonce: self.nonce(who),
                    free: (self.free_balance(who) - amount) as Balance,
                },
            ),
            ..self
        }
    }

    /// The state after the nonce of `who` advanced by one.
    pub open spec fn with_next_nonce(self, who: AccountId) -> LedgerState {
        LedgerState {
            accounts: self.accounts.insert(
                who,
                Account { nonce: (self.nonce(who) + 1) as Nonce, free: self.free_balance(who) },
            ),
            ..self
        }
    }

    /// The state after `amount` moved from the free balance of `who` into an
    /// unresolved imbalance.
    pub open spec fn after_withdraw(self, who: AccountId, amount: Balance) -> LedgerState {
        LedgerState {
            unresolved: (self.unresolved + amount) as Balance,
            ..self.with_debit(who, amount)
        }
    }

    /// The state after an unresolved imbalance of `amount` was credited to
    /// `who`.
    pub open spec fn after_resolve(self, who: AccountId, amount: Balance) -> LedgerState {
        LedgerState {
            unresolved: (self.unresolved - amount) as Balance,
            ..self.with_credit(who, amount)
        }
    }

    /// The state after `amount` of new currency was issued to `who`.
    pub open spec fn after_deposit(self, who: AccountId, amount: Balance) -> LedgerState {
        LedgerState {
            issuance: (self.issuance + amount) as Balance,
            ..self.with_credit(who, amount)
        }
    }

    /// The state after the record of `who` was replaced: the issuance
    /// follows the change of the free balance.
    pub open spec fn with_account(self, who: AccountId, record: Account) -> LedgerState {
        LedgerState {
            accounts: self.accounts.insert(who, record),
            issuance: (self.issuance - self.free_balance(who) + record.free) as Balance,
            ..self
        }
    }

    /// The state after an unresolved imbalance of `amount` was destroyed.
    pub open spec fn after_burn(self, amount: Balance) -> LedgerState {
        LedgerState {
            issuance: (self.issuance - amount) as Balance,
            unresolved: (self.unresolved - amount) as Balance,
            ..self
        }
    }
}

/// Crediting an unresolved amount keeps the ledger conserved and cannot
/// overflow the credited balance.
pub proof fn lemma_resolve_keeps_conservation(ledger: LedgerState, who: AccountId, amount: Balance)
    requires
        ledger.conserved(),
        amount <= ledger.unresolved,
    ensures
        ledger.after_resolve(who, amount).conserved(),
        ledger.after_resolve(who, amount).free_balance(who) == ledger.free_balance(who) + amount,
        ledger.after_resolve(who, amount).unresolved == ledger.unresolved - amount,
{
    lemma_free_within_sum(ledger.accounts, who, account_id_limit());
    lemma_free_below_insert(
        ledger.accounts,
        who,
        Account { nonce: ledger.nonce(who), free: (ledger.free_balance(who) + amount) as Balance },
        account_id_limit(),
    );
}

/// Withdrawing no more than an account holds keeps the ledger conserved and
/// cannot overflow the unresolved amount.
pub proof fn lemma_withdraw_keeps_conservation(
    ledger: LedgerState,
    who: AccountId,
    amount: Balance,
)
    requires
        ledger.conserved(),
        amount <= ledger.free_balance(who),
    ensures
        ledger.after_withdraw(who, amount).conserved(),
        ledger.after_withdraw(who, amount).free_balance(who) == ledger.free_balance(who) - amount,
        ledger.after_withdraw(who, amount).unresolved == ledger.unresolved + amount,
{
    lemma_free_within_sum(ledger.accounts, who, account_id_limit());
    lemma_free_below_insert(
        ledger.accounts,
        who,
        Account { nonce: ledger.nonce(who), free: (ledger.free_balance(who) - amount) as Balance },
        account_id_limit(),
    );
}

/// Advancing a nonce moves no currency.
pub proof fn lemma_next_nonce_keeps_conservation(ledger: LedgerState, who: AccountId)
    requires
        ledger.conserved(),
    ensures
        ledger.with_next_nonce(who).conserved(),
{
    lemma_free_below_insert(
        ledger.accounts,
        who,
        Account { nonce: (ledger.nonce(who) + 1) as Nonce, free: ledger.free_balance(who) },
        account_id_limit(),
    );
}

/// Currency that left an account and is not yet attributed to another one.
///
/// The token cannot be copied; it is consumed when the ledger credits or
/// burns it.
#[derive(Debug)]
pub struct NegativeImbalance {
    amount: Balance,
}

impl NegativeImbalance {
    /// The amount the token stands for.
    pub closed spec fn value(&self) -> Balance {
        self.amount
    }

    /// A token that stands for nothing.
    pub fn zero() -> (token: NegativeImbalance)
        ensures
            token.value() == 0,
    {
        NegativeImbalance { amount: 0 }
    }

    /// The amount the token stands for.
    pub fn peek(&self) -> (amount: Balance)
        ensures
            amount == self.value(),
    {
        self.amount
    }

    /// Splits the token in two: the first part stands for `first`, or for the
    /// whole amount where `first` exceeds it, and the second for the rest.
    pub fn split(self, first: Balance) -> (parts: (NegativeImbalance, NegativeImbalance))
        ensures
            parts.0.value() == (if first <= self.value() {
                first
            } else {
                self.value()
            }),
            parts.0.value() + parts.1.value() == self.value(),
    {
        let taken: Balance = if first <= self.amount {
            first
        } else {
            self.amount
        };
        (NegativeImbalance { amount: taken }, NegativeImbalance { amount: self.amount - taken })
    }
}

/// The reason a withdrawal was refused.
#[derive(Clone, Copy, Debug, PartialEq, Eq, Structural)]
pub enum LedgerError {
    /// The account's free balance is below the amount asked for.
    InsufficientBalance,
    /// The total issuance would exceed what a balance can hold.
    IssuanceOverflow,
}

/// The account store: nonce and free balance per account, the total
/// issuance, and the amount held by unresolved imbalances.
pub struct Ledger {
    accounts: HashMap<AccountId, Account>,
    issuance: Balance,
    unresolved: Balance,
}

impl View for Ledger {
    type V = LedgerState;

    closed spec fn view(&self) -> LedgerState {
        LedgerState {
            accounts: self.accounts@,
            issuance: self.issuance,
            unresolved: self.unresolved,
        }
    }
}

impl Ledger {
    /// The ledger accounts for every unit of its issuance.
    pub open spec fn wf(&self) -> bool {
        self@.conserved()
    }

    /// A ledger without accounts and without currency.
    pub fn new() -> (ledger: Ledger)
        ensures
            ledger.wf(),
            ledger@.accounts == Map::<AccountId, Account>::empty(),
            ledger@.issuance == 0,
            ledger@.unresolved == 0,
    {
        proof {
            lemma_free_below_empty(account_id_limit());
        }
        Ledger { accounts: HashMap::new(), issuance: 0, unresolved: 0 }
    }

    /// A copy of the ledger as it stands.
    pub fn snapshot(&self) -> (copy: Ledger)
        ensures
            copy@ == self@,
    {
        Ledger {
            accounts: self.accounts.clone(),
            issuance: self.issuance,
            unresolved: self.unresolved,
        }
    }

    /// All currency in existence.
    pub fn total_issuance(&self) -> (issuance: Balance)
        ensures
            issuance == self@.issuance,
    {
        self.issuance
    }

    /// Currency held by imbalances that were not yet credited or burned.
    pub fn unresolved(&self) -> (amount: Balance)
        ensures
            amount == self@.unresolved,
    {
        self.unresolved
    }

    /// The record of an account.
    pub fn account(&self, who: AccountId) -> (record: Account)
        ensures
            record == account_of(self@.accounts, who),
    {
        match self.accounts.get(&who) {
            Some(record) => *record,
            None => Account { nonce: 0, free: 0 },
        }
    }

    /// Free balance of an account; zero for an account never seen.
    pub fn free_balance(&self, who: AccountId) -> (free: Balance)
        ensures
            free == self@.free_balance(who),
    {
        self.account(who).free
    }

    /// Nonce of an account; zero for an account never seen.
    pub fn account_nonce(&self, who: AccountId) -> (nonce: Nonce)
        ensures
            nonce == self@.nonce(who),
    {
        self.account(who).nonce
    }

    /// Issues `amount` of new currency to `who`, creating the account if
    /// needed. Refused, with the ledger unchanged, where the issuance would
    /// overflow.
    pub fn deposit_creating(&mut self, who: AccountId, amount: Balance) -> (result: Result<
        (),
        LedgerError,
    >)
        requires
            old(self).wf(),
        ensures
            final(self).wf(),
            old(self)@.issuance + amount > Balance::MAX <==> result is Err,
            result is Ok ==> final(self)@ == old(self)@.after_deposit(who, amount),
            result matches Err(e) ==> e == LedgerError::IssuanceOverflow
                && final(self)@ == old(self)@,
    {
        if amount > Balance::MAX - self.issuance {
            return Err(LedgerError::IssuanceOverflow);
        }
        let record = self.account(who);
        proof {
            lemma_free_within_sum(self.accounts@, who, account_id_limit());
            lemma_free_below_insert(
                self.accounts@,
                who,
                Account { nonce: record.nonce, free: (record.free + amount) as Balance },
                account_id_limit(),
            );
        }
        self.accounts.insert(who, Account { nonce: record.nonce, free: record.free + amount });
        self.issuance = self.issuance + amount;
        Ok(())
    }

    /// Takes `amount` from the free balance of `who` and hands it out as an
    /// unresolved imbalance. Refused, with the ledger unchanged, where the
    /// balance does not cover the amount.
    pub fn withdraw(&mut self, who: AccountId, amount: Balance) -> (result: Result<
        NegativeImbalance,
        LedgerError,
    >)
        requires
            old(self).wf(),
        ensures
            final(self).wf(),
            old(self)@.free_balance(who) < amount <==> result is Err,
            result matches Ok(token) ==> token.value() == amount
                && final(self)@ == old(self)@.after_withdraw(who, amount)
                && final(self)@.unresolved == old(self)@.unresolved + amount,
            result matches Err(e) ==> e == LedgerError::InsufficientBalance
                && final(self)@ == old(self)@,
    {
        let record = self.account(who);
        if record.free < amount {
            return Err(LedgerError::InsufficientBalance);
        }
        proof {
            lemma_free_within_sum(self.accounts@, who, account_id_limit());
            lemma_free_below_insert(
                self.accounts@,
                who,
                Account { nonce: record.nonce, free: (record.free - amount) as Balance },
                account_id_limit(),
            );
        }
        self.accounts.insert(who, Account { nonce: record.nonce, free: record.free - amount });
        self.unresolved = self.unresolved + amount;
        Ok(NegativeImbalance { amount })
    }

    /// Credits an unresolved imbalance to `who`, creating the account if
    /// needed. The token must stem from this ledger: its amount is part of
    /// what the ledger holds as unresolved.
    pub fn resolve_creating(&mut self, who: AccountId, token: NegativeImbalance)
        requires
            old(self).wf(),
            token.value() <= old(self)@.unresolved,
        ensures
            final(self).wf(),
            final(self)@ == old(self)@.after_resolve(who, token.value()),
            final(self)@.unresolved == old(self)@.unresolved - token.value(),
    {
        let record = self.account(who);
        let amount = token.amount;
        proof {
            lemma_free_within_sum(self.accounts@, who, account_id_limit());
            lemma_free_below_insert(
                self.accounts@,
                who,
                Account { nonce: record.nonce, free: (record.free + amount) as Balance },
                account_id_limit(),
            );
        }
        self.accounts.insert(who, Account { nonce: record.nonce, free: record.free + amount });
        self.unresolved = self.unresolved - amount;
    }

    /// Destroys an unresolved imbalance: the issuance shrinks by its amount.
    /// The token must stem from this ledger.
    pub fn burn(&mut self, token: NegativeImbalance)
        requires
            old(self).wf(),
            token.value() <= old(self)@.unresolved,
        ensures
            final(self).wf(),
            final(self)@ == old(self)@.after_burn(token.value()),
    {
        let amount = token.amount;
        self.unresolved = self.unresolved - amount;
        self.issuance = self.issuance - amount;
    }

    /// Sets the record of `who`, as when the ledger is loaded from what the
    /// host has stored. The issuance follows the change of the free
    /// balance. Refused, with the ledger unchanged, where the issuance
    /// would overflow.
    pub fn set_account(&mut self, who: AccountId, record: Account) -> (result: Result<
        (),
        LedgerError,
    >)
        requires
            old(self).wf(),
        ensures
            final(self).wf(),
            old(self)@.issuance - old(self)@.free_balance(who) + record.free > Balance::MAX
                <==> result is Err,
            result is Ok ==> final(self)@ == old(self)@.with_account(who, record),
            result matches Err(e) ==> e == LedgerError::IssuanceOverflow && final(self)@ == old(
                self,
            )@,
    {
        let held = self.account(who).free;
        proof {
            lemma_free_within_sum(self.accounts@, who, account_id_limit());
            lemma_free_below_insert(self.accounts@, who, record, account_id_limit());
        }
        let rest: Balance = self.issuance - held;
        if record.free > Balance::MAX - rest {
            return Err(LedgerError::IssuanceOverflow);
        }
        self.accounts.insert(who, record);
        self.issuance = rest + record.free;
        Ok(())
    }

    /// Advances the nonce of `who` by one.
    pub fn inc_account_nonce(&mut self, who: AccountId)
        requires
            old(self).wf(),
            old(self)@.nonce(who) < Nonce::MAX,
        ensures
            final(self).wf(),
            final(self)@ == old(self)@.with_next_nonce(who),
    {
        let record = self.account(who);
        proof {
            lemma_free_below_insert(
                self.accounts@,
                who,
                Account { nonce: (record.nonce + 1) as Nonce, free: record.free },
                account_id_limit(),
            );
        }
        self.accounts.insert(who, Account { nonce: record.nonce + 1, free: record.free });
    }
}

} // verus!
