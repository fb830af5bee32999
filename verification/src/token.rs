//! Model of the external asset ledger.
//!
//! The assets the vault custodies live in asset contracts owned by the
//! ledger platform; the vault only ever reads balances and moves amounts
//! through the platform's transfer primitive.  This module models that
//! collaborator as an explicit value: a [`TokenLedger`] maps an (asset,
//! holder) pair to a signed 128-bit balance.  The delegated-transfer
//! capability (pulling from a holder's pre-granted allowance) is
//! represented by its balance effect; administering the allowance itself
//! stays with the platform.
//!
//! Failures of the real primitive surface as typed [`TokenError`] values,
//! and every operation leaves the ledger untouched when it fails.

use vstd::prelude::*;

use crate::common::Address;
use crate::common::AssetId;
use std::collections::HashMap;

verus! {

broadcast use vstd::std_specs::hash::group_hash_axioms;

/// Why the asset ledger refused an operation.
#[derive(Clone, Copy, Debug, PartialEq, Eq)]
pub enum TokenError {
    /// The amount was negative.
    NegativeAmount,
    /// The debited holder does not hold that much of the asset.
    InsufficientFunds,
    /// Crediting the recipient would exceed the balance type's range.
    Overflow,
}

/// One key of the balance table: the asset in the high 64 bits, the
/// holder in the low 64 bits.
pub closed spec fn account_key(asset: AssetId, holder: Address) -> u128 {
    (asset * 0x1_0000_0000_0000_0000 + holder) as u128
}

/// Distinct (asset, holder) pairs use distinct keys of the balance table.
proof fn lemma_account_key_injective(a1: AssetId, h1: Address, a2: AssetId, h2: Address)
    ensures
        (account_key(a1, h1) == account_key(a2, h2)) == (a1 == a2 && h1 == h2),
{
    assert((a1 * 0x1_0000_0000_0000_0000 + h1 == a2 * 0x1_0000_0000_0000_0000 + h2) == (a1 == a2
        && h1 == h2)) by (nonlinear_arith);
}

/// Balances of every holder in every asset contract.
pub struct TokenLedger {
    balances: HashMap<u128, i128>,
}

impl TokenLedger {
    /// How much of `asset` the principal `holder` holds.  A holder the
    /// ledger has never seen holds zero.
    pub closed spec fn balance(self, asset: AssetId, holder: Address) -> int {
        if self.balances@.dom().contains(account_key(asset, holder)) {
            self.balances@[account_key(asset, holder)] as int
        } else {
            0
        }
    }

    /// Every recorded balance is non-negative.
    pub closed spec fn wf(self) -> bool {
        forall|k: u128| #[trigger]
            self.balances@.dom().contains(k) ==> self.balances@[k] >= 0
    }

    /// What [`Self::mint`] answers on the given arguments.
    pub open spec fn mint_result(t: TokenLedger, asset: AssetId, to: Address, amount: i128) -> Result<
        (),
        TokenError,
    > {
        if amount < 0 {
            Err(TokenError::NegativeAmount)
        } else if t.balance(asset, to) + amount > i128::MAX {
            Err(TokenError::Overflow)
        } else {
            Ok(())
        }
    }

    /// What [`Self::transfer`] answers on the given arguments.
    pub open spec fn transfer_result(
        t: TokenLedger,
        asset: AssetId,
        from: Address,
        to: Address,
        amount: i128,
    ) -> Result<(), TokenError> {
        if amount < 0 {
            Err(TokenError::NegativeAmount)
        } else if t.balance(asset, from) < amount {
            Err(TokenError::InsufficientFunds)
        } else if from != to && t.balance(asset, to) + amount > i128::MAX {
            Err(TokenError::Overflow)
        } else {
            Ok(())
        }
    }

    /// A well-formed ledger records no negative balance.
    pub proof fn lemma_balance_nonneg(self, asset: AssetId, holder: Address)
        requires
            self.wf(),
        ensures
            self.balance(asset, holder) >= 0,
    {
    }

    /// An empty asset ledger: nobody holds anything.
    pub fn new() -> (t: TokenLedger)
        ensures
            t.wf(),
            forall|a: AssetId, h: Address| t.balance(a, h) == 0,
    {
        TokenLedger { balances: HashMap::new() }
    }

    /// Read a balance.
    pub fn balance_of(&self, asset: AssetId, holder: Address) -> (r: i128)
        ensures
            r == self.balance(asset, holder),
    {
        let k = account_index(asset, holder);
        match self.balances.get(&k) {
            Some(b) => *b,
            None => 0,
        }
    }

    /// Create `amount` units of `asset` out of thin air and credit them to
    /// `to`, as the asset contract's issuer can.
    pub fn mint(&mut self, asset: AssetId, to: Address, amount: i128) -> (r: Result<
        (),
        TokenError,
    >)
        requires
            old(self).wf(),
        ensures
            final(self).wf(),
            r == Self::mint_result(*old(self), asset, to, amount),
            r is Ok ==> final(self).balance(asset, to) == old(self).balance(asset, to) + amount,
            r is Ok ==> forall|a: AssetId, h: Address|
                !(a == asset && h == to) ==> final(self).balance(a, h) == old(self).balance(a, h),
            r is Err ==> *final(self) == *old(self),
    {
        if amount < 0 {
            return Err(TokenError::NegativeAmount);
        }
        let k = account_index(asset, to);
        let cur: i128 = match self.balances.get(&k) {
            Some(b) => *b,
            None => 0,
        };
        if cur > i128::MAX - amount {
            return Err(TokenError::Overflow);
        }
        self.balances.insert(k, cur + amount);
        proof {
            assert forall|a: AssetId, h: Address| !(a == asset && h == to) implies self.balance(
                a,
                h,
            ) == old(self).balance(a, h) by {
                lemma_account_key_injective(a, h, asset, to);
            }
        }
        Ok(())
    }

    /// Move `amount` units of `asset` from `from` to `to`.  A move of a
    /// holder's funds to that same holder is accepted and changes nothing.
    pub fn transfer(&mut self, asset: AssetId, from: Address, to: Address, amount: i128) -> (r:
        Result<(), TokenError>)
        requires
            old(self).wf(),
        ensures
            final(self).wf(),
            r == Self::transfer_result(*old(self), asset, from, to, amount),
            r is Ok && from != to ==> {
                &&& final(self).balance(asset, from) == old(self).balance(asset, from) - amount
                &&& final(self).balance(asset, to) == old(self).balance(asset, to) + amount
                &&& forall|a: AssetId, h: Address|
                    !(a == asset && (h == from || h == to)) ==> final(self).balance(a, h) == old(
                        self,
                    ).balance(a, h)
            },
            r is Ok && from == to ==> *final(self) == *old(self),
            r is Err ==> *final(self) == *old(self),
    {
        if amount < 0 {
            return Err(TokenError::NegativeAmount);
        }
        let kf = account_index(asset, from);
        let from_bal: i128 = match self.balances.get(&kf) {
            Some(b) => *b,
            None => 0,
        };
        if from_bal < amount {
            return Err(TokenError::InsufficientFunds);
        }
        if from == to {
            return Ok(());
        }
        let kt = account_index(asset, to);
        let to_bal: i128 = match self.balances.get(&kt) {
            Some(b) => *b,
            None => 0,
        };
        if to_bal > i128::MAX - amount {
            return Err(TokenError::Overflow);
        }
        proof {
            lemma_account_key_injective(asset, from, asset, to);
        }
        self.balances.insert(kf, from_bal - amount);
        self.balances.insert(kt, to_bal + amount);
        proof {
            assert forall|a: AssetId, h: Address| !(a == asset && (h == from || h == to)) implies self.balance(
                a,
                h,
            ) == old(self).balance(a, h) by {
                lemma_account_key_injective(a, h, asset, from);
                lemma_account_key_injective(a, h, asset, to);
            }
        }
        Ok(())
    }
}

/// Executable form of [`account_key`].
fn account_index(asset: AssetId, holder: Address) -> (k: u128)
    ensures
        k == account_key(asset, holder),
{
    (asset as u128) * 0x1_0000_0000_0000_0000u128 + (holder as u128)
}

} // verus!
