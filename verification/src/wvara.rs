//! The wrapped-native-currency ledger: deposits credit the sender with the
//! attached native value, withdrawals release it again, and the balance
//! moves through the same transfer/allowance interface as any token. The
//! native value itself travels outside the library; these transitions keep
//! the books.
use std::collections::HashMap;

use vstd::prelude::*;

use crate::ledger::{lemma_allowance_key_injective, spec_allowance_key};
use crate::ActorId;

verus! {

broadcast use vstd::std_specs::hash::group_hash_axioms;

/// Why a wrapped-native operation failed.
#[derive(Debug, PartialEq, Eq)]
pub enum Error {
    /// A balance would overflow its width.
    InsufficientAmount,
    /// An underlying runtime failure, with its message.
    GstdError(String),
    /// The caller's allowance over the source account is too small.
    InsufficientAllowance,
    /// A recipient address is the null address.
    ZeroRecipientAddress,
    /// A sender address is the null address.
    ZeroSenderAddress,
    /// The debited account holds less than the requested amount.
    InsufficientBalance,
    /// Releasing the native value to the recipient failed.
    SendFailed,
    /// The total supply is smaller than the requested withdrawal.
    InsufficientTotalSupply,
}

/// What a successfully processed wrapped-native action reports.
#[derive(Clone, Copy, Debug, PartialEq, Eq)]
pub enum Event {
    Approve { owner: ActorId, spender: ActorId, amount: u128 },
    Transfer { from: ActorId, to: ActorId, amount: u128 },
    Deposit { from: ActorId, amount: u128 },
    Withdraw { to: ActorId, amount: u128 },
    Balance(u128),
}

/// The balance a map records for `a`, zero when `a` has no entry.
pub open spec fn held(m: Map<ActorId, u128>, a: ActorId) -> int {
    if m.contains_key(a) {
        m[a] as int
    } else {
        0
    }
}

#[derive(Debug)]
pub struct Wvara {
    pub name: String,
    pub symbol: String,
    pub decimals: u64,
    pub balances: HashMap<ActorId, u128>,
    pub allowances: HashMap<u128, u128>,
    pub total_supply: u128,
}

impl Wvara {
    pub open spec fn balance(self, a: ActorId) -> int {
        held(self.balances@, a)
    }

    pub open spec fn allowance(self, owner: ActorId, spender: ActorId) -> int {
        if self.allowances@.contains_key(spec_allowance_key(owner, spender)) {
            self.allowances@[spec_allowance_key(owner, spender)] as int
        } else {
            0
        }
    }

    /// A fresh wrapped-native ledger with nothing issued.
    pub fn new() -> (r: Wvara)
        ensures
            r.name@ == "Wrapped Vara"@,
            r.symbol@ == "WVARA"@,
            r.decimals == 12,
            r.total_supply == 0,
            forall|a: ActorId| r.balance(a) == 0,
            forall|o: ActorId, s: ActorId| r.allowance(o, s) == 0,
    {
        Wvara {
            name: "Wrapped Vara".to_string(),
            symbol: "WVARA".to_string(),
            decimals: 12,
            balances: HashMap::new(),
            allowances: HashMap::new(),
            total_supply: 0,
        }
    }

    pub fn balance_of(&self, a: ActorId) -> (r: u128)
        ensures
            r == self.balance(a),
    {
        match self.balances.get(&a) {
            Some(v) => *v,
            None => 0,
        }
    }

    pub fn allowance_of(&self, owner: ActorId, spender: ActorId) -> (r: u128)
        ensures
            r == self.allowance(owner, spender),
    {
        let key: u128 = (owner as u128) * 0x10000000000000000u128 + (spender as u128);
        match self.allowances.get(&key) {
            Some(v) => *v,
            None => 0,
        }
    }

    /// Credits the sender with the native value attached to the message.
    pub fn deposit(&mut self, from: ActorId, value: u128) -> (r: Result<Event, Error>)
        ensures
            old(self).balance(from) + value > u128::MAX || old(self).total_supply + value
                > u128::MAX ==> {
                &&& r == Err::<Event, Error>(Error::InsufficientAmount)
                &&& *final(self) == *old(self)
            },
            old(self).balance(from) + value <= u128::MAX && old(self).total_supply + value
                <= u128::MAX ==> {
                &&& r == Ok::<Event, Error>(Event::Deposit { from, amount: value })
                &&& final(self).balance(from) == old(self).balance(from) + value
                &&& forall|a: ActorId| a != from ==> final(self).balance(a) == old(self).balance(a)
                &&& final(self).total_supply == old(self).total_supply + value
                &&& final(self).allowances == old(self).allowances
                &&& final(self).name == old(self).name
                &&& final(self).symbol == old(self).symbol
                &&& final(self).decimals == old(self).decimals
            },
    {
        let b = self.balance_of(from);
        if value > u128::MAX - b || value > u128::MAX - self.total_supply {
            return Err(Error::InsufficientAmount);
        }
        self.balances.insert(from, b + value);
        self.total_supply = self.total_supply + value;
        Ok(Event::Deposit { from, amount: value })
    }

    /// Debits the caller and reports the native value to release; the
    /// release itself happens outside, after this commits.
    pub fn withdraw(&mut self, caller: ActorId, to: ActorId, amount: u128) -> (r: Result<
        Event,
        Error,
    >)
        ensures
            old(self).balance(caller) < amount ==> {
                &&& r == Err::<Event, Error>(Error::InsufficientBalance)
                &&& *final(self) == *old(self)
            },
            old(self).balance(caller) >= amount && old(self).total_supply < amount ==> {
                &&& r == Err::<Event, Error>(Error::InsufficientTotalSupply)
                &&& *final(self) == *old(self)
            },
            old(self).balance(caller) >= amount && old(self).total_supply >= amount ==> {
                &&& r == Ok::<Event, Error>(Event::Withdraw { to, amount })
                &&& final(self).balance(caller) == old(self).balance(caller) - amount
                &&& forall|a: ActorId|
                    a != caller ==> final(self).balance(a) == old(self).balance(a)
                &&& final(self).total_supply == old(self).total_supply - amount
                &&& final(self).allowances == old(self).allowances
                &&& final(self).name == old(self).name
                &&& final(self).symbol == old(self).symbol
                &&& final(self).decimals == old(self).decimals
            },
    {
        let b = self.balance_of(caller);
        if b < amount {
            return Err(Error::InsufficientBalance);
        }
        if self.total_supply < amount {
            return Err(Error::InsufficientTotalSupply);
        }
        self.total_supply = self.total_supply - amount;
        self.balances.insert(caller, b - amount);
        Ok(Event::Withdraw { to, amount })
    }

    /// Moves balance from `src` to `to`; a caller other than `src` draws
    /// down its allowance over `src` first.
    pub fn transfer_from(&mut self, caller: ActorId, src: ActorId, to: ActorId, amount: u128) -> (r:
        Result<Event, Error>)
        ensures
            old(self).balance(src) < amount ==> {
                &&& r == Err::<Event, Error>(Error::InsufficientBalance)
                &&& *final(self) == *old(self)
            },
            old(self).balance(src) >= amount && src != caller && old(self).allowance(src, caller)
                < amount ==> {
                &&& r == Err::<Event, Error>(Error::InsufficientAllowance)
                &&& *final(self) == *old(self)
            },
            old(self).balance(src) >= amount && (src == caller || old(self).allowance(src, caller)
                >= amount) && src != to && old(self).balance(to) + amount > u128::MAX ==> {
                &&& r == Err::<Event, Error>(Error::InsufficientAmount)
                &&& *final(self) == *old(self)
            },
            old(self).balance(src) >= amount && (src == caller || old(self).allowance(src, caller)
                >= amount) && (src == to || old(self).balance(to) + amount <= u128::MAX) ==> {
                &&& r == Ok::<Event, Error>(Event::Transfer { from: src, to, amount })
                &&& (if src == to {
                    final(self).balance(src) == old(self).balance(src)
                } else {
                    final(self).balance(src) == old(self).balance(src) - amount
                        && final(self).balance(to) == old(self).balance(to) + amount
                })
                &&& forall|a: ActorId|
                    a != src && a != to ==> final(self).balance(a) == old(self).balance(a)
                &&& final(self).total_supply == old(self).total_supply
                &&& (if src == caller {
                    final(self).allowances == old(self).allowances
                } else {
                    final(self).allowance(src, caller) == old(self).allowance(src, caller) - amount
                        && (forall|o: ActorId, s: ActorId|
                        !(o == src && s == caller) ==> final(self).allowance(o, s)
                            == old(self).allowance(o, s))
                })
                &&& final(self).name == old(self).name
                &&& final(self).symbol == old(self).symbol
                &&& final(self).decimals == old(self).decimals
            },
    {
        let b = self.balance_of(src);
        if b < amount {
            return Err(Error::InsufficientBalance);
        }
        if src != caller {
            let alw = self.allowance_of(src, caller);
            if alw < amount {
                return Err(Error::InsufficientAllowance);
            }
            if src != to {
                let tb = self.balance_of(to);
                if amount > u128::MAX - tb {
                    return Err(Error::InsufficientAmount);
                }
            }
            let key: u128 = (src as u128) * 0x10000000000000000u128 + (caller as u128);
            self.allowances.insert(key, alw - amount);
            proof {
                assert forall|o: ActorId, s: ActorId| !(o == src && s == caller) implies self
                    .allowance(o, s) == old(self).allowance(o, s) by {
                    if spec_allowance_key(o, s) == spec_allowance_key(src, caller) {
                        lemma_allowance_key_injective(o, s, src, caller);
                    }
                }
            }
        } else {
            if src != to {
                let tb = self.balance_of(to);
                if amount > u128::MAX - tb {
                    return Err(Error::InsufficientAmount);
                }
            }
        }
        if src != to {
            self.balances.insert(src, b - amount);
            let tb = self.balance_of(to);
            self.balances.insert(to, tb + amount);
        }
        Ok(Event::Transfer { from: src, to, amount })
    }

    /// Moves the caller's own balance to `to`.
    pub fn transfer(&mut self, caller: ActorId, to: ActorId, amount: u128) -> (r: Result<
        Event,
        Error,
    >)
        ensures
            old(self).balance(caller) < amount ==> {
                &&& r == Err::<Event, Error>(Error::InsufficientBalance)
                &&& *final(self) == *old(self)
            },
            old(self).balance(caller) >= amount && caller != to && old(self).balance(to) + amount
                > u128::MAX ==> {
                &&& r == Err::<Event, Error>(Error::InsufficientAmount)
                &&& *final(self) == *old(self)
            },
            old(self).balance(caller) >= amount && (caller == to || old(self).balance(to) + amount
                <= u128::MAX) ==> {
                &&& r == Ok::<Event, Error>(Event::Transfer { from: caller, to, amount })
                &&& (if caller == to {
                    final(self).balance(caller) == old(self).balance(caller)
                } else {
                    final(self).balance(caller) == old(self).balance(caller) - amount
                        && final(self).balance(to) == old(self).balance(to) + amount
                })
                &&& forall|a: ActorId|
                    a != caller && a != to ==> final(self).balance(a) == old(self).balance(a)
                &&& final(self).total_supply == old(self).total_supply
                &&& final(self).allowances == old(self).allowances
                &&& final(self).name == old(self).name
                &&& final(self).symbol == old(self).symbol
                &&& final(self).decimals == old(self).decimals
            },
    {
        self.transfer_from(caller, caller, to, amount)
    }

    /// Sets the allowance of `spender` over the caller's balance.
    pub fn approve(&mut self, caller: ActorId, spender: ActorId, amount: u128) -> (r: Result<
        Event,
        Error,
    >)
        ensures
            r == Ok::<Event, Error>(Event::Approve { owner: caller, spender, amount }),
            final(self).allowance(caller, spender) == amount,
            forall|o: ActorId, s: ActorId|
                !(o == caller && s == spender) ==> final(self).allowance(o, s) == old(
                    self,
                ).allowance(o, s),
            final(self).balances == old(self).balances,
            final(self).total_supply == old(self).total_supply,
            final(self).name == old(self).name,
            final(self).symbol == old(self).symbol,
            final(self).decimals == old(self).decimals,
    {
        let key: u128 = (caller as u128) * 0x10000000000000000u128 + (spender as u128);
        self.allowances.insert(key, amount);
        proof {
            assert forall|o: ActorId, s: ActorId| !(o == caller && s == spender) implies self
                .allowance(o, s) == old(self).allowance(o, s) by {
                if spec_allowance_key(o, s) == spec_allowance_key(caller, spender) {
                    lemma_allowance_key_injective(o, s, caller, spender);
                }
            }
        }
        Ok(Event::Approve { owner: caller, spender, amount })
    }

    pub fn name(&self) -> (r: &String)
        ensures
            r@ == self.name@,
    {
        &self.name
    }

    pub fn symbol(&self) -> (r: &String)
        ensures
            r@ == self.symbol@,
    {
        &self.symbol
    }

    pub fn decimals(&self) -> (r: u64)
        ensures
            r == self.decimals,
    {
        self.decimals
    }

    pub fn total_supply(&self) -> (r: u128)
        ensures
            r == self.total_supply,
    {
        self.total_supply
    }
}

} // verus!
