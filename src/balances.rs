use vstd::hash_map::HashMapWithView;
use vstd::prelude::*;

use crate::types::{AccountId, BalanceOf};

verus! {

broadcast use vstd::std_specs::hash::group_hash_axioms;

/// Free and reserved funds of one account.
#[derive(Clone, Copy, Debug, PartialEq, Eq, Structural)]
pub struct AccountData {
    pub free: BalanceOf,
    pub reserved: BalanceOf,
}

impl AccountData {
    pub open spec fn total(self) -> nat {
        self.free as nat + self.reserved as nat
    }
}

/// Errors reported by the balance ledger.
#[derive(Clone, Copy, Debug, PartialEq, Eq, Structural)]
pub enum LedgerError {
    /// The free balance does not cover the amount to reserve.
    InsufficientBalance,
}

/// A reservable balance ledger: every account has a free and a reserved
/// part, and funds move between the two.
pub struct Balances {
    accounts: HashMapWithView<AccountId, AccountData>,
}

/// The data of `who` in a ledger view; an unknown account holds nothing.
pub open spec fn account_of(m: Map<AccountId, AccountData>, who: AccountId) -> AccountData {
    if m.contains_key(who) {
        m[who]
    } else {
        AccountData { free: 0, reserved: 0 }
    }
}

/// No account holds more than the balance type can count.
pub open spec fn ledger_wf(m: Map<AccountId, AccountData>) -> bool {
    forall|who: AccountId| m.contains_key(who) ==> (#[trigger] m[who]).total() <= u64::MAX
}

/// The ledger after moving `amount` of `who`'s free funds to reserve.
pub open spec fn reserve_spec(m: Map<AccountId, AccountData>, who: AccountId, amount: BalanceOf)
    -> (Map<AccountId, AccountData>, Result<(), LedgerError>)
{
    let a = account_of(m, who);
    if a.free < amount {
        (m, Err(LedgerError::InsufficientBalance))
    } else {
        (
            m.insert(
                who,
                AccountData { free: (a.free - amount) as u64, reserved: (a.reserved + amount) as u64 },
            ),
            Ok(()),
        )
    }
}

/// What `unreserve` actually moves back: the amount asked for, capped by
/// what is reserved.
pub open spec fn unreserved_part(m: Map<AccountId, AccountData>, who: AccountId, amount: BalanceOf) -> BalanceOf {
    let r = account_of(m, who).reserved;
    if amount <= r { amount } else { r }
}

/// The ledger after moving up to `amount` of `who`'s reserve back to free
/// funds, and the part of `amount` that could not be moved.
pub open spec fn unreserve_spec(m: Map<AccountId, AccountData>, who: AccountId, amount: BalanceOf)
    -> (Map<AccountId, AccountData>, BalanceOf)
{
    let a = account_of(m, who);
    let moved = unreserved_part(m, who, amount);
    (
        m.insert(
            who,
            AccountData { free: (a.free + moved) as u64, reserved: (a.reserved - moved) as u64 },
        ),
        (amount - moved) as u64,
    )
}

impl View for Balances {
    type V = Map<AccountId, AccountData>;

    closed spec fn view(&self) -> Map<AccountId, AccountData> {
        self.accounts@
    }
}

impl Balances {
    pub open spec fn wf(&self) -> bool {
        ledger_wf(self@)
    }

    /// An empty ledger.
    pub fn new() -> (r: Self)
        ensures
            r@ == Map::<AccountId, AccountData>::empty(),
            r.wf(),
    {
        Balances { accounts: HashMapWithView::new() }
    }

    fn account(&self, who: AccountId) -> (r: AccountData)
        ensures
            r == account_of(self@, who),
    {
        match self.accounts.get(&who) {
            Some(a) => *a,
            None => AccountData { free: 0, reserved: 0 },
        }
    }

    /// The free balance of `who`.
    pub fn free_balance(&self, who: AccountId) -> (r: BalanceOf)
        ensures
            r == account_of(self@, who).free,
    {
        self.account(who).free
    }

    /// The reserved balance of `who`.
    pub fn reserved_balance(&self, who: AccountId) -> (r: BalanceOf)
        ensures
            r == account_of(self@, who).reserved,
    {
        self.account(who).reserved
    }

    /// Sets the free balance of `who` to `amount`, capped so that free and
    /// reserved funds together stay countable.
    pub fn make_free_balance_be(&mut self, who: AccountId, amount: BalanceOf)
        requires
            old(self).wf(),
        ensures
            final(self).wf(),
            final(self)@ == old(self)@.insert(
                who,
                AccountData {
                    free: if amount as nat + account_of(old(self)@, who).reserved as nat <= u64::MAX {
                        amount
                    } else {
                        (u64::MAX - account_of(old(self)@, who).reserved) as u64
                    },
                    reserved: account_of(old(self)@, who).reserved,
                },
            ),
    {
        let a = self.account(who);
        let free = if amount <= u64::MAX - a.reserved {
            amount
        } else {
            u64::MAX - a.reserved
        };
        self.accounts.insert(who, AccountData { free, reserved: a.reserved });
    }

    /// Moves `amount` of `who`'s free funds into reserve; fails, changing
    /// nothing, when the free balance is smaller than `amount`.
    pub fn reserve(&mut self, who: AccountId, amount: BalanceOf) -> (r: Result<(), LedgerError>)
        requires
            old(self).wf(),
        ensures
            final(self).wf(),
            (final(self)@, r) == reserve_spec(old(self)@, who, amount),
    {
        let a = self.account(who);
        if a.free < amount {
            return Err(LedgerError::InsufficientBalance);
        }
        self.accounts.insert(who, AccountData { free: a.free - amount, reserved: a.reserved + amount });
        Ok(())
    }

    /// Moves up to `amount` of `who`'s reserve back to free funds. Never
    /// fails: returns the part of `amount` that was not reserved.
    pub fn unreserve(&mut self, who: AccountId, amount: BalanceOf) -> (r: BalanceOf)
        requires
            old(self).wf(),
        ensures
            final(self).wf(),
            (final(self)@, r) == unreserve_spec(old(self)@, who, amount),
    {
        let a = self.account(who);
        let moved = if amount <= a.reserved {
            amount
        } else {
            a.reserved
        };
        self.accounts.insert(who, AccountData { free: a.free + moved, reserved: a.reserved - moved });
        amount - moved
    }
}

} // verus!
