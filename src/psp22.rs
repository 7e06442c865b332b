use vstd::prelude::*;

use crate::errors::PSP22Error;
use crate::sum::{
    lemma_element_le_sum, lemma_sum_push, lemma_sum_update, lemma_two_elements_le_sum, sum_by,
};
use crate::table::Table;
use crate::types::AccountId;

verus! {

/// What a fungible-ledger operation reports for the outside world to publish.
#[derive(Debug, Clone, Copy, PartialEq, Eq)]
pub enum PSP22Event {
    Transfer { from: Option<AccountId>, to: Option<AccountId>, value: u128 },
    Approval { owner: AccountId, spender: AccountId, amount: u128 },
}

/// The state of the fungible ledger as mathematics sees it.
pub struct PSP22Model {
    pub balances: Map<AccountId, u128>,
    pub allowances: Map<(AccountId, AccountId), u128>,
    pub total_supply: u128,
    pub cap: u128,
}

impl PSP22Model {
    /// The balance of `a`; an account never credited holds 0.
    pub open spec fn balance(self, a: AccountId) -> u128 {
        if self.balances.contains_key(a) {
            self.balances[a]
        } else {
            0
        }
    }

    /// What `spender` may still move out of `owner`'s balance; 0 if never set.
    pub open spec fn allowance(self, owner: AccountId, spender: AccountId) -> u128 {
        if self.allowances.contains_key((owner, spender)) {
            self.allowances[(owner, spender)]
        } else {
            0
        }
    }

    pub open spec fn with_balance(self, a: AccountId, v: u128) -> PSP22Model {
        PSP22Model { balances: self.balances.insert(a, v), ..self }
    }

    pub open spec fn with_allowance(self, owner: AccountId, spender: AccountId, v: u128) -> PSP22Model {
        PSP22Model { allowances: self.allowances.insert((owner, spender), v), ..self }
    }

    /// `value` moved from `from` to `to`: first debited, then credited.
    pub open spec fn moved(self, from: AccountId, to: AccountId, value: u128) -> PSP22Model {
        let debited = self.with_balance(from, (self.balance(from) - value) as u128);
        debited.with_balance(to, (debited.balance(to) + value) as u128)
    }
}

/// An amount as a natural number.
pub open spec fn amount(v: u128) -> nat {
    v as nat
}

/// The fungible ledger: balances, allowances, the total supply and its cap.
pub struct PSP22Data {
    total_supply: u128,
    cap: u128,
    balances: Table<AccountId, u128>,
    allowances: Table<(AccountId, AccountId), u128>,
}

impl View for PSP22Data {
    type V = PSP22Model;

    closed spec fn view(&self) -> PSP22Model {
        PSP22Model {
            balances: self.balances@,
            allowances: self.allowances@,
            total_supply: self.total_supply,
            cap: self.cap,
        }
    }
}

impl PSP22Data {
    /// The sum of the balances of all accounts, each counted once.
    pub closed spec fn balances_sum(&self) -> nat {
        sum_by(self.balances.values(), |v: u128| amount(v))
    }

    /// The ledger's invariant: the balances add up to the total supply, which
    /// does not exceed the cap.
    pub closed spec fn wf(&self) -> bool {
        &&& self.balances.wf()
        &&& self.allowances.wf()
        &&& self.balances_sum() == self.total_supply
        &&& self.total_supply <= self.cap
    }

    /// Whatever operations brought a well-formed ledger about, its balances
    /// add up to its total supply, and the total supply is within the cap.
    pub proof fn lemma_supply_conserved(&self)
        requires
            self.wf(),
        ensures
            self.balances_sum() == self@.total_supply,
            self@.total_supply <= self@.cap,
    {
    }

    /// In a well-formed ledger no balance exceeds the total supply, and
    /// neither do the balances of two different accounts together. So the
    /// sums in `moved`, and the new supply of a `mint` within the cap, fit.
    pub proof fn lemma_balances_within_supply(&self, a: AccountId, b: AccountId)
        requires
            self.wf(),
        ensures
            self@.balance(a) <= self@.total_supply,
            a != b ==> self@.balance(a) + self@.balance(b) <= self@.total_supply,
    {
        self.lemma_balance_le_supply(a);
        if a != b && self.balances@.contains_key(a) && self.balances@.contains_key(b) {
            self.balances.lemma_two_values_listed(a, b);
            let (i, j) = choose|i: int, j: int|
                0 <= i < self.balances.values().len() && 0 <= j < self.balances.values().len() && i
                    != j && self.balances.values()[i] == self.balances@[a]
                    && self.balances.values()[j] == self.balances@[b];
            lemma_two_elements_le_sum(self.balances.values(), |v: u128| amount(v), i, j);
        } else {
            self.lemma_balance_le_supply(b);
        }
    }

    proof fn lemma_balance_le_supply(&self, a: AccountId)
        requires
            self.balances.wf(),
        ensures
            self@.balance(a) <= self.balances_sum(),
    {
        if self.balances@.contains_key(a) {
            self.balances.lemma_value_listed(a);
            let i = choose|i: int|
                0 <= i < self.balances.values().len() && self.balances.values()[i]
                    == self.balances@[a];
            lemma_element_le_sum(self.balances.values(), |v: u128| amount(v), i);
        }
    }

    /// Sets the balance of `a`, keeping track of the sum.
    fn set_balance(&mut self, a: AccountId, v: u128)
        requires
            old(self).balances.wf(),
        ensures
            final(self).balances.wf(),
            final(self).allowances == old(self).allowances,
            final(self).total_supply == old(self).total_supply,
            final(self).cap == old(self).cap,
            final(self)@ == old(self)@.with_balance(a, v),
            final(self).balances_sum() == old(self).balances_sum() - old(self)@.balance(a) + v,
    {
        self.balances.insert(a, v);
        proof {
            let s = old(self).balances.values();
            if old(self).balances@.contains_key(a) {
                let i = choose|i: int|
                    0 <= i < s.len() && s[i] == old(self).balances@[a]
                        && self.balances.values() == s.update(i, v);
                lemma_sum_update(s, |v: u128| amount(v), i, v);
            } else {
                lemma_sum_push(s, |v: u128| amount(v), v);
            }
        }
    }

    fn stored_balance(&self, a: AccountId) -> (r: u128)
        requires
            self.balances.wf(),
        ensures
            r == self@.balance(a),
    {
        match self.balances.get(&a) {
            Some(v) => *v,
            None => 0,
        }
    }

    fn set_allowance(&mut self, owner: AccountId, spender: AccountId, v: u128)
        requires
            old(self).wf(),
        ensures
            final(self).wf(),
            final(self)@ == old(self)@.with_allowance(owner, spender, v),
    {
        self.allowances.insert((owner, spender), v);
    }

    /// An empty ledger whose supply may never exceed `cap`.
    pub fn new(cap: u128) -> (r: PSP22Data)
        ensures
            r.wf(),
            r@.balances == Map::<AccountId, u128>::empty(),
            r@.allowances == Map::<(AccountId, AccountId), u128>::empty(),
            r@.total_supply == 0,
            r@.cap == cap,
    {
        PSP22Data { total_supply: 0, cap, balances: Table::new(), allowances: Table::new() }
    }

    pub fn total_supply(&self) -> (r: u128)
        ensures
            r == self@.total_supply,
    {
        self.total_supply
    }

    pub fn cap(&self) -> (r: u128)
        ensures
            r == self@.cap,
    {
        self.cap
    }

    pub fn balance_of(&self, owner: AccountId) -> (r: u128)
        requires
            self.wf(),
        ensures
            r == self@.balance(owner),
    {
        match self.balances.get(&owner) {
            Some(v) => *v,
            None => 0,
        }
    }

    pub fn allowance(&self, owner: AccountId, spender: AccountId) -> (r: u128)
        requires
            self.wf(),
        ensures
            r == self@.allowance(owner, spender),
    {
        match self.allowances.get(&(owner, spender)) {
            Some(v) => *v,
            None => 0,
        }
    }

    /// Lets `spender` move up to `value` out of `caller`'s balance, replacing
    /// any earlier allowance.
    pub fn approve(&mut self, caller: AccountId, spender: AccountId, value: u128) -> (r: Result<
        Vec<PSP22Event>,
        PSP22Error,
    >)
        requires
            old(self).wf(),
        ensures
            final(self).wf(),
            r is Ok,
            r matches Ok(ev) && ev@ == seq![
                PSP22Event::Approval { owner: caller, spender, amount: value },
            ],
            final(self)@ == old(self)@.with_allowance(caller, spender, value),
    {
        self.set_allowance(caller, spender, value);
        Ok(vec![PSP22Event::Approval { owner: caller, spender, amount: value }])
    }

    /// Raises `caller`'s allowance for `spender` by `delta_value`; refused if
    /// the sum does not fit.
    pub fn increase_allowance(&mut self, caller: AccountId, spender: AccountId, delta_value: u128) -> (r:
        Result<Vec<PSP22Event>, PSP22Error>)
        requires
            old(self).wf(),
        ensures
            final(self).wf(),
            ({
                let cur = old(self)@.allowance(caller, spender);
                if cur + delta_value > u128::MAX {
                    r matches Err(PSP22Error::Custom(_)) && final(self)@ == old(self)@
                } else {
                    let new_amount = (cur + delta_value) as u128;
                    &&& r matches Ok(ev) && ev@ == seq![
                        PSP22Event::Approval { owner: caller, spender, amount: new_amount },
                    ]
                    &&& final(self)@ == old(self)@.with_allowance(caller, spender, new_amount)
                }
            }),
    {
        let cur = self.allowance(caller, spender);
        match cur.checked_add(delta_value) {
            None => Err(PSP22Error::Custom(String::from_str("allowance overflow"))),
            Some(new_amount) => {
                self.set_allowance(caller, spender, new_amount);
                Ok(vec![PSP22Event::Approval { owner: caller, spender, amount: new_amount }])
            },
        }
    }

    /// Lowers `caller`'s allowance for `spender` by `delta_value`; refused
    /// with `InsufficientAllowance` if it would go below zero.
    pub fn decrease_allowance(&mut self, caller: AccountId, spender: AccountId, delta_value: u128) -> (r:
        Result<Vec<PSP22Event>, PSP22Error>)
        requires
            old(self).wf(),
        ensures
            final(self).wf(),
            ({
                let cur = old(self)@.allowance(caller, spender);
                if delta_value > cur {
                    r == Err::<Vec<PSP22Event>, PSP22Error>(PSP22Error::InsufficientAllowance)
                        && final(self)@ == old(self)@
                } else {
                    let new_amount = (cur - delta_value) as u128;
                    &&& r matches Ok(ev) && ev@ == seq![
                        PSP22Event::Approval { owner: caller, spender, amount: new_amount },
                    ]
                    &&& final(self)@ == old(self)@.with_allowance(caller, spender, new_amount)
                }
            }),
    {
        let cur = self.allowance(caller, spender);
        if delta_value > cur {
            return Err(PSP22Error::InsufficientAllowance);
        }
        let new_amount = cur - delta_value;
        self.set_allowance(caller, spender, new_amount);
        Ok(vec![PSP22Event::Approval { owner: caller, spender, amount: new_amount }])
    }

    /// Moves `value` from `from` to `to` once the checks have passed.
    fn move_balance(&mut self, from: AccountId, to: AccountId, value: u128)
        requires
            old(self).wf(),
            value <= old(self)@.balance(from),
        ensures
            final(self).wf(),
            final(self)@ == old(self)@.moved(from, to, value),
    {
        let from_balance = self.balance_of(from);
        self.set_balance(from, from_balance - value);
        proof {
            self.lemma_balance_le_supply(to);
        }
        let to_balance = self.stored_balance(to);
        self.set_balance(to, to_balance + value);
    }

    /// Moves `value` from `caller` to `to`; refused with
    /// `InsufficientBalance` if `caller` holds less.
    pub fn transfer(&mut self, caller: AccountId, to: AccountId, value: u128) -> (r: Result<
        Vec<PSP22Event>,
        PSP22Error,
    >)
        requires
            old(self).wf(),
        ensures
            final(self).wf(),
            value > old(self)@.balance(caller) ==> r == Err::<Vec<PSP22Event>, PSP22Error>(
                PSP22Error::InsufficientBalance,
            ) && final(self)@ == old(self)@,
            value <= old(self)@.balance(caller) ==> {
                &&& r matches Ok(ev) && ev@ == seq![
                    PSP22Event::Transfer { from: Some(caller), to: Some(to), value },
                ]
                &&& final(self)@ == old(self)@.moved(caller, to, value)
            },
    {
        let from_balance = self.balance_of(caller);
        if from_balance < value {
            return Err(PSP22Error::InsufficientBalance);
        }
        self.move_balance(caller, to, value);
        Ok(vec![PSP22Event::Transfer { from: Some(caller), to: Some(to), value }])
    }

    /// Moves `value` from `from` to `to` on behalf of `caller`, spending
    /// `caller`'s allowance from `from` first.
    pub fn transfer_from(&mut self, caller: AccountId, from: AccountId, to: AccountId, value: u128) -> (r:
        Result<Vec<PSP22Event>, PSP22Error>)
        requires
            old(self).wf(),
        ensures
            final(self).wf(),
            value > old(self)@.allowance(from, caller) ==> r == Err::<Vec<PSP22Event>, PSP22Error>(
                PSP22Error::InsufficientAllowance,
            ) && final(self)@ == old(self)@,
            value <= old(self)@.allowance(from, caller) && value > old(self)@.balance(from) ==> r
                == Err::<Vec<PSP22Event>, PSP22Error>(PSP22Error::InsufficientBalance)
                && final(self)@ == old(self)@,
            value <= old(self)@.allowance(from, caller) && value <= old(self)@.balance(from) ==> {
                let left = (old(self)@.allowance(from, caller) - value) as u128;
                &&& r matches Ok(ev) && ev@ == seq![
                    PSP22Event::Approval { owner: from, spender: caller, amount: left },
                    PSP22Event::Transfer { from: Some(from), to: Some(to), value },
                ]
                &&& final(self)@ == old(self)@.with_allowance(from, caller, left).moved(
                    from,
                    to,
                    value,
                )
            },
    {
        let allowance = self.allowance(from, caller);
        if allowance < value {
            return Err(PSP22Error::InsufficientAllowance);
        }
        let from_balance = self.balance_of(from);
        if from_balance < value {
            return Err(PSP22Error::InsufficientBalance);
        }
        let left = allowance - value;
        self.set_allowance(from, caller, left);
        self.move_balance(from, to, value);
        Ok(
            vec![
                PSP22Event::Approval { owner: from, spender: caller, amount: left },
                PSP22Event::Transfer { from: Some(from), to: Some(to), value },
            ],
        )
    }

    /// Creates `value` new units for `to`; refused with `CapExceeded` if the
    /// total supply would pass the cap.
    pub fn mint(&mut self, to: AccountId, value: u128) -> (r: Result<Vec<PSP22Event>, PSP22Error>)
        requires
            old(self).wf(),
        ensures
            final(self).wf(),
            old(self)@.total_supply + value > old(self)@.cap ==> r == Err::<
                Vec<PSP22Event>,
                PSP22Error,
            >(PSP22Error::CapExceeded) && final(self)@ == old(self)@,
            old(self)@.total_supply + value <= old(self)@.cap ==> {
                &&& r matches Ok(ev) && ev@ == seq![
                    PSP22Event::Transfer { from: None, to: Some(to), value },
                ]
                &&& final(self)@ == PSP22Model {
                    total_supply: (old(self)@.total_supply + value) as u128,
                    ..old(self)@.with_balance(to, (old(self)@.balance(to) + value) as u128)
                }
            },
    {
        if value > self.cap - self.total_supply {
            return Err(PSP22Error::CapExceeded);
        }
        proof {
            self.lemma_balance_le_supply(to);
        }
        let to_balance = self.balance_of(to);
        self.set_balance(to, to_balance + value);
        self.total_supply = self.total_supply + value;
        Ok(vec![PSP22Event::Transfer { from: None, to: Some(to), value }])
    }

    /// Destroys `value` units held by `from`; refused with
    /// `InsufficientBalance` if `from` holds less.
    pub fn burn(&mut self, from: AccountId, value: u128) -> (r: Result<Vec<PSP22Event>, PSP22Error>)
        requires
            old(self).wf(),
        ensures
            final(self).wf(),
            value > old(self)@.balance(from) ==> r == Err::<Vec<PSP22Event>, PSP22Error>(
                PSP22Error::InsufficientBalance,
            ) && final(self)@ == old(self)@,
            value <= old(self)@.balance(from) ==> {
                &&& r matches Ok(ev) && ev@ == seq![
                    PSP22Event::Transfer { from: Some(from), to: None, value },
                ]
                &&& final(self)@ == PSP22Model {
                    total_supply: (old(self)@.total_supply - value) as u128,
                    ..old(self)@.with_balance(from, (old(self)@.balance(from) - value) as u128)
                }
            },
    {
        let from_balance = self.balance_of(from);
        if from_balance < value {
            return Err(PSP22Error::InsufficientBalance);
        }
        proof {
            self.lemma_balance_le_supply(from);
        }
        self.set_balance(from, from_balance - value);
        self.total_supply = self.total_supply - value;
        Ok(vec![PSP22Event::Transfer { from: Some(from), to: None, value }])
    }
}

/// After `approve(o, s, v)` the allowance of `s` from `o` is exactly `v`,
/// and a second `approve(o, s, v2)` replaces it by `v2` rather than adding.
pub proof fn lemma_approve_round_trip(
    m: PSP22Model,
    owner: AccountId,
    spender: AccountId,
    v: u128,
    v2: u128,
)
    ensures
        m.with_allowance(owner, spender, v).allowance(owner, spender) == v,
        m.with_allowance(owner, spender, v).with_allowance(owner, spender, v2).allowance(
            owner,
            spender,
        ) == v2,
{
}

/// Raising an allowance by `delta` and then lowering it by `delta` brings it
/// back to what it was, and every other allowance is left as it was.
pub proof fn lemma_increase_then_decrease(
    m: PSP22Model,
    owner: AccountId,
    spender: AccountId,
    delta: u128,
)
    requires
        m.allowance(owner, spender) + delta <= u128::MAX,
    ensures
        ({
            let raised = (m.allowance(owner, spender) + delta) as u128;
            let m1 = m.with_allowance(owner, spender, raised);
            let m2 = m1.with_allowance(owner, spender, (m1.allowance(owner, spender) - delta) as u128);
            &&& m2.allowance(owner, spender) == m.allowance(owner, spender)
            &&& forall|o: AccountId, s: AccountId| m2.allowance(o, s) == m.allowance(o, s)
            &&& m2.balances == m.balances
            &&& m2.total_supply == m.total_supply
        }),
{
}

} // verus!
