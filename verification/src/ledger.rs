//! The fungible ledger of liquidity shares: balances, allowances and total
//! supply in 256-bit quantities. Minting and burning carry preconditions
//! (their callers check first); the token-style actions are total and
//! report their own failure.
use std::collections::HashMap;

use vstd::prelude::*;

use crate::amount::{pow256, u256_checked_add, u256_checked_sub, Amount};
use crate::error::Error;
use crate::ActorId;

verus! {

broadcast use vstd::std_specs::hash::group_hash_axioms;

/// The balance a map records for `a`, zero when `a` has no entry.
pub open spec fn entry_of(m: Map<ActorId, Amount>, a: ActorId) -> int {
    if m.contains_key(a) {
        m[a]@
    } else {
        0
    }
}

/// One map key for the ordered pair (owner, spender).
pub open spec fn spec_allowance_key(owner: ActorId, spender: ActorId) -> u128 {
    (owner * 0x10000000000000000 + spender) as u128
}

/// Distinct (owner, spender) pairs get distinct keys.
pub proof fn lemma_allowance_key_injective(o1: ActorId, s1: ActorId, o2: ActorId, s2: ActorId)
    requires
        spec_allowance_key(o1, s1) == spec_allowance_key(o2, s2),
    ensures
        o1 == o2 && s1 == s2,
{
    assert(o1 * 0x10000000000000000int + s1 == o2 * 0x10000000000000000int + s2);
    assert(o1 == o2) by (nonlinear_arith)
        requires
            o1 * 0x10000000000000000int + s1 == o2 * 0x10000000000000000int + s2,
            0 <= s1 < 0x10000000000000000int,
            0 <= s2 < 0x10000000000000000int,
            0 <= o1,
            0 <= o2,
    ;
}

#[derive(Debug)]
pub struct FtLedger {
    pub balances: HashMap<ActorId, Amount>,
    pub allowances: HashMap<u128, Amount>,
    pub total_supply: Amount,
}

impl FtLedger {
    pub open spec fn balance(self, a: ActorId) -> int {
        entry_of(self.balances@, a)
    }

    pub open spec fn allowance(self, owner: ActorId, spender: ActorId) -> int {
        if self.allowances@.contains_key(spec_allowance_key(owner, spender)) {
            self.allowances@[spec_allowance_key(owner, spender)]@
        } else {
            0
        }
    }

    /// An empty ledger: no balances, no allowances, zero supply.
    pub fn new() -> (r: FtLedger)
        ensures
            r.total_supply@ == 0,
            forall|a: ActorId| r.balance(a) == 0,
            forall|o: ActorId, s: ActorId| r.allowance(o, s) == 0,
    {
        FtLedger {
            balances: HashMap::new(),
            allowances: HashMap::new(),
            total_supply: Amount::zero(),
        }
    }

    pub fn balance_of(&self, a: ActorId) -> (r: Amount)
        ensures
            r@ == self.balance(a),
    {
        match self.balances.get(&a) {
            Some(v) => *v,
            None => Amount::zero(),
        }
    }

    pub fn allowance_of(&self, owner: ActorId, spender: ActorId) -> (r: Amount)
        ensures
            r@ == self.allowance(owner, spender),
    {
        let key: u128 = (owner as u128) * 0x10000000000000000u128 + (spender as u128);
        match self.allowances.get(&key) {
            Some(v) => *v,
            None => Amount::zero(),
        }
    }

    pub fn supply(&self) -> (r: Amount)
        ensures
            r@ == self.total_supply@,
    {
        self.total_supply
    }

    /// Creates `amount` new shares for `to`.
    pub fn mint(&mut self, to: ActorId, amount: Amount)
        requires
            old(self).total_supply@ + amount@ < pow256(),
            old(self).balance(to) + amount@ < pow256(),
        ensures
            final(self).total_supply@ == old(self).total_supply@ + amount@,
            final(self).balance(to) == old(self).balance(to) + amount@,
            forall|a: ActorId| a != to ==> final(self).balance(a) == old(self).balance(a),
            final(self).allowances == old(self).allowances,
    {
        let b = self.balance_of(to);
        let nb = match u256_checked_add(b, amount) {
            Some(v) => v,
            None => {
                proof {
                    assert(false);
                }
                return ;
            },
        };
        let nt = match u256_checked_add(self.total_supply, amount) {
            Some(v) => v,
            None => {
                proof {
                    assert(false);
                }
                return ;
            },
        };
        self.balances.insert(to, nb);
        self.total_supply = nt;
    }

    /// Destroys `amount` shares held by `from`.
    pub fn burn(&mut self, from: ActorId, amount: Amount)
        requires
            old(self).balance(from) >= amount@,
            old(self).total_supply@ >= amount@,
        ensures
            final(self).total_supply@ == old(self).total_supply@ - amount@,
            final(self).balance(from) == old(self).balance(from) - amount@,
            forall|a: ActorId| a != from ==> final(self).balance(a) == old(self).balance(a),
            final(self).allowances == old(self).allowances,
    {
        let b = self.balance_of(from);
        let nb = match u256_checked_sub(b, amount) {
            Some(v) => v,
            None => {
                proof {
                    assert(false);
                }
                return ;
            },
        };
        let nt = match u256_checked_sub(self.total_supply, amount) {
            Some(v) => v,
            None => {
                proof {
                    assert(false);
                }
                return ;
            },
        };
        self.balances.insert(from, nb);
        self.total_supply = nt;
    }

    /// Moves `amount` shares from `from` to `to`; fails without any change
    /// when the balance is short or the receiving balance would not fit.
    pub fn transfer(&mut self, from: ActorId, to: ActorId, amount: Amount) -> (r: Result<
        (),
        Error,
    >)
        ensures
            old(self).balance(from) < amount@ ==> {
                &&& r == Err::<(), Error>(Error::InsufficientAmount)
                &&& *final(self) == *old(self)
            },
            old(self).balance(from) >= amount@ && from != to && old(self).balance(to) + amount@
                >= pow256() ==> {
                &&& r == Err::<(), Error>(Error::Overflow)
                &&& *final(self) == *old(self)
            },
            old(self).balance(from) >= amount@ && from == to ==> {
                &&& r == Ok::<(), Error>(())
                &&& *final(self) == *old(self)
            },
            old(self).balance(from) >= amount@ && from != to && old(self).balance(to) + amount@
                < pow256() ==> {
                &&& r == Ok::<(), Error>(())
                &&& final(self).balance(from) == old(self).balance(from) - amount@
                &&& final(self).balance(to) == old(self).balance(to) + amount@
                &&& forall|a: ActorId|
                    a != from && a != to ==> final(self).balance(a) == old(self).balance(a)
                &&& final(self).total_supply == old(self).total_supply
                &&& final(self).allowances == old(self).allowances
            },
    {
        let b = self.balance_of(from);
        if b.lt(&amount) {
            return Err(Error::InsufficientAmount);
        }
        if from == to {
            return Ok(());
        }
        let nb = match u256_checked_sub(b, amount) {
            Some(v) => v,
            None => {
                proof {
                    assert(false);
                }
                return Err(Error::Overflow);
            },
        };
        let tb = self.balance_of(to);
        let ntb = match u256_checked_add(tb, amount) {
            Some(v) => v,
            None => {
                return Err(Error::Overflow);
            },
        };
        self.balances.insert(from, nb);
        self.balances.insert(to, ntb);
        Ok(())
    }

    /// Moves shares on behalf of `from`: when the caller is not `from`,
    /// the move draws down the caller's allowance first.
    pub fn transfer_from(
        &mut self,
        caller: ActorId,
        from: ActorId,
        to: ActorId,
        amount: Amount,
    ) -> (r: Result<(), Error>)
        ensures
            caller != from && old(self).allowance(from, caller) < amount@ ==> {
                &&& r == Err::<(), Error>(Error::InsufficientAllowance)
                &&& *final(self) == *old(self)
            },
            (caller == from || old(self).allowance(from, caller) >= amount@) && old(self).balance(
                from,
            ) < amount@ ==> {
                &&& r == Err::<(), Error>(Error::InsufficientAmount)
                &&& *final(self) == *old(self)
            },
            (caller == from || old(self).allowance(from, caller) >= amount@) && old(self).balance(
                from,
            ) >= amount@ && from != to && old(self).balance(to) + amount@ >= pow256() ==> {
                &&& r == Err::<(), Error>(Error::Overflow)
                &&& *final(self) == *old(self)
            },
            (caller == from || old(self).allowance(from, caller) >= amount@) && old(self).balance(
                from,
            ) >= amount@ && (from == to || old(self).balance(to) + amount@ < pow256()) ==> {
                &&& r == Ok::<(), Error>(())
                &&& final(self).total_supply == old(self).total_supply
                &&& (if from == to {
                    final(self).balance(from) == old(self).balance(from)
                } else {
                    final(self).balance(from) == old(self).balance(from) - amount@
                        && final(self).balance(to) == old(self).balance(to) + amount@
                })
                &&& (forall|a: ActorId|
                    a != from && a != to ==> final(self).balance(a) == old(self).balance(a))
                &&& (if caller == from {
                    final(self).allowances == old(self).allowances
                } else {
                    final(self).allowance(from, caller) == old(self).allowance(from, caller)
                        - amount@ && (forall|o: ActorId, s: ActorId|
                        !(o == from && s == caller) ==> final(self).allowance(o, s)
                            == old(self).allowance(o, s))
                })
            },
    {
        if caller != from {
            let alw = self.allowance_of(from, caller);
            if alw.lt(&amount) {
                return Err(Error::InsufficientAllowance);
            }
            let b = self.balance_of(from);
            if b.lt(&amount) {
                return Err(Error::InsufficientAmount);
            }
            if from != to {
                let tb = self.balance_of(to);
                if u256_checked_add(tb, amount).is_none() {
                    return Err(Error::Overflow);
                }
            }
            let nalw = match u256_checked_sub(alw, amount) {
                Some(v) => v,
                None => {
                    proof {
                        assert(false);
                    }
                    return Err(Error::Overflow);
                },
            };
            let key: u128 = (from as u128) * 0x10000000000000000u128 + (caller as u128);
            self.allowances.insert(key, nalw);
            let r = self.transfer(from, to, amount);
            proof {
                assert(r == Ok::<(), Error>(()));
                assert forall|o: ActorId, s: ActorId| !(o == from && s == caller) implies self
                    .allowance(o, s) == old(self).allowance(o, s) by {
                    if spec_allowance_key(o, s) == spec_allowance_key(from, caller) {
                        lemma_allowance_key_injective(o, s, from, caller);
                    }
                }
            }
            r
        } else {
            self.transfer(from, to, amount)
        }
    }

    /// Sets the allowance of `spender` over `owner`'s shares.
    pub fn approve(&mut self, owner: ActorId, spender: ActorId, amount: Amount)
        ensures
            final(self).allowance(owner, spender) == amount@,
            forall|o: ActorId, s: ActorId|
                !(o == owner && s == spender) ==> final(self).allowance(o, s) == old(
                    self,
                ).allowance(o, s),
            final(self).balances == old(self).balances,
            final(self).total_supply == old(self).total_supply,
    {
        let key: u128 = (owner as u128) * 0x10000000000000000u128 + (spender as u128);
        self.allowances.insert(key, amount);
        proof {
            assert forall|o: ActorId, s: ActorId| !(o == owner && s == spender) implies self
                .allowance(o, s) == old(self).allowance(o, s) by {
                if spec_allowance_key(o, s) == spec_allowance_key(owner, spender) {
                    lemma_allowance_key_injective(o, s, owner, spender);
                }
            }
        }
    }
}

} // verus!
