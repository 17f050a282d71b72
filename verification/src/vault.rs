//! The token vault: a fixed-supply treasury and the per-principal balances
//! rewards are paid into.
//!
//! The whole supply is minted to the treasury exactly once; afterwards no
//! operation creates or destroys tokens, so the treasury plus all account
//! balances always add up to [`TOTAL_SUPPLY`].  That conservation law is the
//! vault's invariant, and it is also what keeps every balance update free of
//! overflow.

use vstd::prelude::*;

use crate::constants::TOTAL_SUPPLY;
use crate::errors::ErrorCode;
use crate::state::Principal;

verus! {

/// One principal's token balance, in base units.
pub struct AccountBalance {
    /// The account holder.
    pub owner: Principal,
    /// Tokens held, in base units.
    pub amount: u64,
}

/// The treasury and all token accounts rewards have been paid to.
pub struct TokenVault {
    /// Whether the one-time supply mint has happened.
    pub minted: bool,
    /// Tokens held by the treasury, in base units.
    pub treasury: u64,
    /// Every account that has ever received a transfer, each owner at most
    /// once.
    pub balances: Vec<AccountBalance>,
}

/// Total of the amounts in a balance sheet.
pub open spec fn sum_amounts(s: Seq<AccountBalance>) -> int
    decreases s.len(),
{
    if s.len() == 0 {
        0
    } else {
        sum_amounts(s.drop_last()) + s.last().amount
    }
}

/// Each owner appears at most once in a balance sheet.
pub open spec fn unique_owners(s: Seq<AccountBalance>) -> bool {
    forall|i: int, j: int|
        0 <= i < s.len() && 0 <= j < s.len() && i != j ==> s[i].owner != s[j].owner
}

/// Whether `owner` has an account in the balance sheet.
pub open spec fn has_balance(s: Seq<AccountBalance>, owner: Principal) -> bool {
    exists|i: int| 0 <= i < s.len() && s[i].owner == owner
}

/// Index of `owner`'s account in the balance sheet (meaningful only when
/// `has_balance` holds; unique when the owners are unique).
pub open spec fn balance_index(s: Seq<AccountBalance>, owner: Principal) -> int {
    choose|i: int| 0 <= i < s.len() && s[i].owner == owner
}

/// Tokens held by `owner`: the amount in their account, or zero if they
/// never received a transfer.
pub open spec fn spec_balance_of(s: Seq<AccountBalance>, owner: Principal) -> int {
    if has_balance(s, owner) {
        s[balance_index(s, owner)].amount as int
    } else {
        0
    }
}

/// A sum of balances is never negative.
pub proof fn lemma_sum_nonneg(s: Seq<AccountBalance>)
    ensures
        sum_amounts(s) >= 0,
    decreases s.len(),
{
    if s.len() > 0 {
        lemma_sum_nonneg(s.drop_last());
    }
}

/// Every single balance is at most the total of the sheet.
pub proof fn lemma_element_le_sum(s: Seq<AccountBalance>, i: int)
    requires
        0 <= i < s.len(),
    ensures
        s[i].amount <= sum_amounts(s),
    decreases s.len(),
{
    if i == s.len() - 1 {
        lemma_sum_nonneg(s.drop_last());
    } else {
        lemma_element_le_sum(s.drop_last(), i);
    }
}

/// Replacing one entry changes the total by the difference of the amounts.
pub proof fn lemma_sum_update(s: Seq<AccountBalance>, i: int, v: AccountBalance)
    requires
        0 <= i < s.len(),
    ensures
        sum_amounts(s.update(i, v)) == sum_amounts(s) - s[i].amount + v.amount,
    decreases s.len(),
{
    if i == s.len() - 1 {
        assert(s.update(i, v).drop_last() =~= s.drop_last());
    } else {
        assert(s.update(i, v).drop_last() =~= s.drop_last().update(i, v));
        lemma_sum_update(s.drop_last(), i, v);
    }
}

/// Appending an entry adds its amount to the total.
pub proof fn lemma_sum_push(s: Seq<AccountBalance>, v: AccountBalance)
    ensures
        sum_amounts(s.push(v)) == sum_amounts(s) + v.amount,
{
    assert(s.push(v).drop_last() =~= s);
}

impl TokenVault {
    /// Conservation of tokens: owners are unique, and the treasury plus all
    /// account balances add up to the total supply once it has been minted
    /// (and to zero before).
    pub open spec fn inv(self) -> bool {
        &&& unique_owners(self.balances@)
        &&& self.treasury as int + sum_amounts(self.balances@) == if self.minted {
            TOTAL_SUPPLY as int
        } else {
            0
        }
    }

    /// An empty vault: nothing minted, nothing held.
    pub fn new() -> (vault: TokenVault)
        ensures
            vault.inv(),
            !vault.minted,
            vault.treasury == 0,
            vault.balances@ =~= Seq::<AccountBalance>::empty(),
    {
        TokenVault { minted: false, treasury: 0, balances: Vec::new() }
    }

    /// Mints the fixed total supply to the treasury, exactly once; any later
    /// call fails `AlreadyInitialized` and changes nothing.  After this, no
    /// operation of the system ever mints again.
    pub fn initialize_supply(&mut self) -> (result: Result<(), ErrorCode>)
        requires
            old(self).inv(),
        ensures
            final(self).inv(),
            old(self).minted ==> result == Err::<(), ErrorCode>(ErrorCode::AlreadyInitialized)
                && *final(self) == *old(self),
            !old(self).minted ==> result == Ok::<(), ErrorCode>(()) && final(self).minted
                && final(self).treasury == TOTAL_SUPPLY && final(self).balances@ == old(
                self,
            ).balances@,
    {
        if self.minted {
            return Err(ErrorCode::AlreadyInitialized);
        }
        proof {
            lemma_sum_nonneg(self.balances@);
        }
        self.minted = true;
        self.treasury = TOTAL_SUPPLY;
        Ok(())
    }

    /// Tokens currently held by `owner`.
    pub fn balance_of(&self, owner: Principal) -> (amount: u64)
        requires
            self.inv(),
        ensures
            amount == spec_balance_of(self.balances@, owner),
    {
        let n = self.balances.len();
        let mut i: usize = 0;
        while i < n
            invariant
                self.inv(),
                n == self.balances@.len(),
                0 <= i <= n,
                forall|j: int| 0 <= j < i ==> self.balances@[j].owner != owner,
            decreases n - i,
        {
            if self.balances[i].owner == owner {
                proof {
                    assert(has_balance(self.balances@, owner));
                    assert(self.balances@[balance_index(self.balances@, owner)].owner == owner);
                    assert(balance_index(self.balances@, owner) == i);
                }
                return self.balances[i].amount;
            }
            i = i + 1;
        }
        0
    }

    /// Moves `amount` base units from the treasury to `owner`'s account,
    /// creating the account if it does not exist.  Fails `SettlementFailed`
    /// — and changes nothing — when the treasury cannot cover the amount.
    pub fn transfer_from_treasury(&mut self, to: Principal, amount: u64) -> (result: Result<
        (),
        ErrorCode,
    >)
        requires
            old(self).inv(),
        ensures
            final(self).inv(),
            amount > old(self).treasury ==> result == Err::<(), ErrorCode>(
                ErrorCode::SettlementFailed,
            ) && *final(self) == *old(self),
            amount <= old(self).treasury ==> result == Ok::<(), ErrorCode>(()) && {
                &&& final(self).minted == old(self).minted
                &&& final(self).treasury == old(self).treasury - amount
                &&& spec_balance_of(final(self).balances@, to) == spec_balance_of(
                    old(self).balances@,
                    to,
                ) + amount
                &&& forall|p: Principal|
                    p != to ==> spec_balance_of(final(self).balances@, p) == spec_balance_of(
                        old(self).balances@,
                        p,
                    )
            },
    {
        if amount > self.treasury {
            return Err(ErrorCode::SettlementFailed);
        }
        self.treasury = self.treasury - amount;
        let n = self.balances.len();
        let mut i: usize = 0;
        while i < n
            invariant
                old(self).inv(),
                amount <= old(self).treasury,
                self.minted == old(self).minted,
                self.treasury == old(self).treasury - amount,
                self.balances@ == old(self).balances@,
                n == self.balances@.len(),
                0 <= i <= n,
                forall|j: int| 0 <= j < i ==> self.balances@[j].owner != to,
            decreases n - i,
        {
            if self.balances[i].owner == to {
                let ghost before = self.balances@;
                proof {
                    lemma_element_le_sum(before, i as int);
                    lemma_sum_nonneg(before);
                }
                let held = self.balances[i].amount;
                self.balances[i] = AccountBalance { owner: to, amount: held + amount };
                proof {
                    lemma_sum_update(before, i as int, self.balances@[i as int]);
                    lemma_balance_of_update_found(before, self.balances@, i as int, to);
                }
                return Ok(());
            }
            i = i + 1;
        }
        let ghost before = self.balances@;
        self.balances.push(AccountBalance { owner: to, amount });
        proof {
            lemma_sum_push(before, AccountBalance { owner: to, amount });
            lemma_balance_of_push(before, self.balances@, to, amount);
        }
        Ok(())
    }
}

/// After updating the entry at `owner`'s index, `owner`'s balance is the new
/// amount and every other principal's balance is unchanged.
proof fn lemma_balance_of_update_found(
    before: Seq<AccountBalance>,
    after: Seq<AccountBalance>,
    i: int,
    owner: Principal,
)
    requires
        unique_owners(before),
        0 <= i < before.len(),
        before[i].owner == owner,
        after.len() == before.len(),
        after[i].owner == owner,
        forall|j: int| 0 <= j < before.len() && j != i ==> after[j] == before[j],
    ensures
        unique_owners(after),
        spec_balance_of(after, owner) == after[i].amount,
        spec_balance_of(before, owner) == before[i].amount,
        forall|p: Principal|
            p != owner ==> spec_balance_of(after, p) == spec_balance_of(before, p),
{
    assert(unique_owners(after));
    assert(has_balance(before, owner));
    assert(has_balance(after, owner));
    assert(balance_index(before, owner) == i);
    assert(balance_index(after, owner) == i);
    assert forall|p: Principal| p != owner implies spec_balance_of(after, p) == spec_balance_of(
        before,
        p,
    ) by {
        if has_balance(before, p) {
            let k = balance_index(before, p);
            assert(k != i);
            assert(after[k].owner == p);
            assert(has_balance(after, p));
            assert(balance_index(after, p) == k);
        } else {
            assert forall|j: int| 0 <= j < after.len() implies after[j].owner != p by {
                if j != i {
                    assert(after[j] == before[j]);
                }
            }
            assert(!has_balance(after, p));
        }
    }
}

/// After pushing a fresh account for `owner`, `owner`'s balance is the
/// pushed amount and every other principal's balance is unchanged.
proof fn lemma_balance_of_push(
    before: Seq<AccountBalance>,
    after: Seq<AccountBalance>,
    owner: Principal,
    amount: u64,
)
    requires
        unique_owners(before),
        forall|j: int| 0 <= j < before.len() ==> before[j].owner != owner,
        after == before.push(AccountBalance { owner, amount }),
    ensures
        unique_owners(after),
        !has_balance(before, owner),
        spec_balance_of(before, owner) == 0,
        spec_balance_of(after, owner) == amount,
        forall|p: Principal|
            p != owner ==> spec_balance_of(after, p) == spec_balance_of(before, p),
{
    let n = before.len() as int;
    assert(after[n].owner == owner);
    assert(has_balance(after, owner));
    assert(unique_owners(after)) by {
        assert forall|i: int, j: int|
            0 <= i < after.len() && 0 <= j < after.len() && i != j implies after[i].owner
            != after[j].owner by {
            if i < n && j < n {
                assert(before[i].owner != before[j].owner);
            }
        }
    }
    assert(balance_index(after, owner) == n);
    assert forall|p: Principal| p != owner implies spec_balance_of(after, p) == spec_balance_of(
        before,
        p,
    ) by {
        if has_balance(before, p) {
            let k = balance_index(before, p);
            assert(after[k].owner == p);
            assert(has_balance(after, p));
            assert(balance_index(after, p) == k);
        } else {
            assert forall|j: int| 0 <= j < after.len() implies after[j].owner != p by {
                if j < n {
                    assert(after[j] == before[j]);
                }
            }
        }
    }
}

} // verus!
