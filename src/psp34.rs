use vstd::prelude::*;

use crate::errors::PSP34Error;
use crate::sum::{lemma_sum_push, lemma_sum_update, sum_by};
use crate::table::{Table, TableKey};
use crate::types::{AccountId, Id, IdModel};

verus! {

/// What a non-fungible-ledger operation reports for the outside world to
/// publish.
#[derive(Debug)]
#[allow(inconsistent_fields)]
pub enum PSP34Event {
    Transfer { from: Option<AccountId>, to: Option<AccountId>, id: Id },
    Approval { owner: AccountId, operator: AccountId, id: Option<Id>, approved: bool },
    AttributeSet { id: Id, key: Vec<u8>, data: Vec<u8> },
}

/// The mathematical value of a [`PSP34Event`].
#[allow(inconsistent_fields)]
pub enum PSP34EventModel {
    Transfer { from: Option<AccountId>, to: Option<AccountId>, id: IdModel },
    Approval { owner: AccountId, operator: AccountId, id: Option<IdModel>, approved: bool },
    AttributeSet { id: IdModel, key: Seq<u8>, data: Seq<u8> },
}

impl View for PSP34Event {
    type V = PSP34EventModel;

    open spec fn view(&self) -> PSP34EventModel {
        match self {
            PSP34Event::Transfer { from, to, id } => PSP34EventModel::Transfer {
                from: *from,
                to: *to,
                id: id@,
            },
            PSP34Event::Approval { owner, operator, id, approved } => PSP34EventModel::Approval {
                owner: *owner,
                operator: *operator,
                id: id.model(),
                approved: *approved,
            },
            PSP34Event::AttributeSet { id, key, data } => PSP34EventModel::AttributeSet {
                id: id@,
                key: key@,
                data: data@,
            },
        }
    }
}

/// The models of a list of events.
pub open spec fn events_model(s: Seq<PSP34Event>) -> Seq<PSP34EventModel> {
    s.map_values(|e: PSP34Event| e@)
}

/// The state of the non-fungible ledger as mathematics sees it.
pub struct PSP34Model {
    /// Who owns each token that exists.
    pub owners: Map<IdModel, AccountId>,
    /// Approvals `(owner, operator, id)`; an id of `None` covers all of the
    /// owner's tokens.
    pub approvals: Set<(AccountId, AccountId, Option<IdModel>)>,
    /// How many tokens each account holds.
    pub counts: Map<AccountId, u32>,
    pub total_supply: u128,
    pub last_token_id: u64,
    pub locked: Map<IdModel, bool>,
    pub locked_count: u64,
}

impl PSP34Model {
    pub open spec fn count(self, a: AccountId) -> u32 {
        if self.counts.contains_key(a) {
            self.counts[a]
        } else {
            0
        }
    }

    /// Whether `operator` may act for `owner` on token `id`, or on all of its
    /// tokens when `id` is `None`.
    pub open spec fn allowed(self, owner: AccountId, operator: AccountId, id: Option<IdModel>) -> bool {
        self.approvals.contains((owner, operator, None)) || (id is Some && self.approvals.contains(
            (owner, operator, id),
        ))
    }

    /// The tokens that `a` owns.
    pub open spec fn tokens_of(self, a: AccountId) -> Set<IdModel> {
        owned_by(self.owners, a)
    }

    pub open spec fn with_count(self, a: AccountId, v: u32) -> PSP34Model {
        PSP34Model { counts: self.counts.insert(a, v), ..self }
    }
}

/// The tokens that `owners` assigns to `a`.
pub open spec fn owned_by(owners: Map<IdModel, AccountId>, a: AccountId) -> Set<IdModel> {
    owners.dom().filter(|x: IdModel| owners[x] == a)
}

/// How the tokens of `a` change when token `id` is given to `to`.
proof fn lemma_owned_after_insert(owners: Map<IdModel, AccountId>, id: IdModel, to: AccountId, a: AccountId)
    requires
        owners.dom().finite(),
    ensures
        owned_by(owners, a).finite(),
        a == to ==> owned_by(owners.insert(id, to), a) == owned_by(owners, a).insert(id),
        a != to && owners.contains_key(id) && owners[id] == a ==> owned_by(owners.insert(id, to), a)
            == owned_by(owners, a).remove(id),
        a != to && !(owners.contains_key(id) && owners[id] == a) ==> owned_by(
            owners.insert(id, to),
            a,
        ) == owned_by(owners, a),
{
    owners.dom().lemma_len_filter(|x: IdModel| owners[x] == a);
    let n = owners.insert(id, to);
    if a == to {
        assert(owned_by(n, a) =~= owned_by(owners, a).insert(id));
    } else if owners.contains_key(id) && owners[id] == a {
        assert(owned_by(n, a) =~= owned_by(owners, a).remove(id));
    } else {
        assert(owned_by(n, a) =~= owned_by(owners, a));
    }
}

/// How the tokens of `a` change when token `id` stops existing.
proof fn lemma_owned_after_remove(owners: Map<IdModel, AccountId>, id: IdModel, a: AccountId)
    requires
        owners.dom().finite(),
    ensures
        owned_by(owners, a).finite(),
        owners.contains_key(id) && owners[id] == a ==> owned_by(owners.remove(id), a) == owned_by(
            owners,
            a,
        ).remove(id),
        !(owners.contains_key(id) && owners[id] == a) ==> owned_by(owners.remove(id), a)
            == owned_by(owners, a),
{
    owners.dom().lemma_len_filter(|x: IdModel| owners[x] == a);
    let n = owners.remove(id);
    if owners.contains_key(id) && owners[id] == a {
        assert(owned_by(n, a) =~= owned_by(owners, a).remove(id));
    } else {
        assert(owned_by(n, a) =~= owned_by(owners, a));
    }
}

/// The approvals left once those that `owner` gave for token `id` alone are
/// withdrawn; approvals for all of its tokens stay.
pub open spec fn without_token_approvals(
    approvals: Set<(AccountId, AccountId, Option<IdModel>)>,
    owner: AccountId,
    id: IdModel,
) -> Set<(AccountId, AccountId, Option<IdModel>)> {
    approvals.filter(|k: (AccountId, AccountId, Option<IdModel>)| !(k.0 == owner && k.2 == Some(id)))
}

/// The non-fungible ledger: who owns which token, approvals, per-account
/// counts and locks.
pub struct PSP34Data {
    token_owner: Table<Id, AccountId>,
    operator_approvals: Table<(AccountId, AccountId, Option<Id>), ()>,
    owned_count: Table<AccountId, u32>,
    supply: u128,
    last_token_id: u64,
    locked_tokens: Table<Id, bool>,
    locked_token_count: u64,
}

impl View for PSP34Data {
    type V = PSP34Model;

    closed spec fn view(&self) -> PSP34Model {
        PSP34Model {
            owners: self.token_owner@,
            approvals: self.operator_approvals@.dom(),
            counts: self.owned_count@,
            total_supply: self.supply,
            last_token_id: self.last_token_id,
            locked: self.locked_tokens@,
            locked_count: self.locked_token_count,
        }
    }
}

impl PSP34Data {
    /// The sum of the per-account token counts, each account counted once.
    pub closed spec fn counts_sum(&self) -> nat {
        sum_by(self.owned_count.values(), |v: u32| v as nat)
    }

    /// The ledger's invariant: its tables are well formed, and the total
    /// supply is both the number of tokens that exist and the sum of the
    /// per-account counts.
    pub closed spec fn wf(&self) -> bool {
        &&& self.token_owner.wf()
        &&& self.operator_approvals.wf()
        &&& self.owned_count.wf()
        &&& self.locked_tokens.wf()
        &&& self.supply == self.token_owner@.dom().len()
        &&& self.counts_sum() == self.supply
        &&& forall|a: AccountId| #[trigger] self@.count(a) == self@.tokens_of(a).len()
    }

    /// In a well-formed ledger each account's count is the number of tokens
    /// it owns, the counts add up to the total supply, and the total supply
    /// is the number of tokens that exist.
    pub proof fn lemma_supply_counts_tokens(&self)
        requires
            self.wf(),
        ensures
            self@.owners.dom().finite(),
            self@.total_supply == self@.owners.dom().len(),
            self.counts_sum() == self@.total_supply,
            forall|a: AccountId| #[trigger] self@.count(a) == self@.tokens_of(a).len(),
    {
        self.token_owner.lemma_finite();
    }

    /// Withdraws every approval that `owner` gave for token `id` alone.
    fn clear_token_approvals(&mut self, owner: AccountId, id: &Id)
        requires
            old(self).operator_approvals.wf(),
        ensures
            final(self).operator_approvals.wf(),
            final(self).token_owner == old(self).token_owner,
            final(self).owned_count == old(self).owned_count,
            final(self).locked_tokens == old(self).locked_tokens,
            final(self).supply == old(self).supply,
            final(self).last_token_id == old(self).last_token_id,
            final(self).locked_token_count == old(self).locked_token_count,
            (final(self)@ == PSP34Model {
                approvals: without_token_approvals(old(self)@.approvals, owner, id@),
                ..old(self)@
            }),
    {
        let keys = self.operator_approvals.keys();
        let target: Option<Id> = Some(id.clone());
        let ghost old_map = old(self).operator_approvals@;
        let mut i: usize = 0;
        while i < keys.len()
            invariant
                self.operator_approvals.wf(),
                self.token_owner == old(self).token_owner,
                self.owned_count == old(self).owned_count,
                self.locked_tokens == old(self).locked_tokens,
                self.supply == old(self).supply,
                self.last_token_id == old(self).last_token_id,
                self.locked_token_count == old(self).locked_token_count,
                target.model() == Some(id@),
                0 <= i <= keys@.len(),
                (forall|k: (AccountId, AccountId, Option<IdModel>)|
                    #[trigger] old_map.contains_key(k) ==> (exists|j: int|
                        0 <= j < keys@.len() && #[trigger] keys@[j].model() == k)),
                (forall|k: (AccountId, AccountId, Option<IdModel>)|
                    #[trigger] self.operator_approvals@.contains_key(k) <==> (old_map.contains_key(k)
                        && !(k.0 == owner && k.2 == Some(id@) && (exists|j: int|
                        0 <= j < i && #[trigger] keys@[j].model() == k)))),
            decreases keys@.len() - i,
        {
            let ghost before = self.operator_approvals@;
            let key = &keys[i];
            let hit = key.0.key_eq(&owner) && key.2.key_eq(&target);
            if hit {
                self.operator_approvals.remove(key);
            }
            proof {
                let ki = keys@[i as int].model();
                assert forall|k: (AccountId, AccountId, Option<IdModel>)|
                    #[trigger] self.operator_approvals@.contains_key(k) <==> (old_map.contains_key(k)
                        && !(k.0 == owner && k.2 == Some(id@) && exists|j: int|
                        0 <= j < i + 1 && #[trigger] keys@[j].model() == k)) by {
                    if k == ki {
                        assert(keys@[i as int].model() == k);
                    } else {
                        if exists|j: int| 0 <= j < i + 1 && #[trigger] keys@[j].model() == k {
                            let j = choose|j: int| 0 <= j < i + 1 && #[trigger] keys@[j].model() == k;
                            assert(j < i);
                        }
                        assert(before.contains_key(k) == self.operator_approvals@.contains_key(k));
                    }
                }
            }
            i = i + 1;
        }
        assert(self@.approvals =~= without_token_approvals(old(self)@.approvals, owner, id@));
    }

    /// Sets the token count of `a`, keeping track of the sum.
    fn set_count(&mut self, a: AccountId, v: u32)
        requires
            old(self).owned_count.wf(),
        ensures
            final(self).owned_count.wf(),
            final(self).token_owner == old(self).token_owner,
            final(self).operator_approvals == old(self).operator_approvals,
            final(self).locked_tokens == old(self).locked_tokens,
            final(self).supply == old(self).supply,
            final(self).last_token_id == old(self).last_token_id,
            final(self).locked_token_count == old(self).locked_token_count,
            final(self)@ == old(self)@.with_count(a, v),
            final(self).counts_sum() == old(self).counts_sum() - old(self)@.count(a) + v,
    {
        self.owned_count.insert(a, v);
        proof {
            let s = old(self).owned_count.values();
            if old(self).owned_count@.contains_key(a) {
                let i = choose|i: int|
                    0 <= i < s.len() && s[i] == old(self).owned_count@[a]
                        && self.owned_count.values() == s.update(i, v);
                lemma_sum_update(s, |v: u32| v as nat, i, v);
            } else {
                lemma_sum_push(s, |v: u32| v as nat, v);
            }
        }
    }

    pub fn new() -> (r: PSP34Data)
        ensures
            r.wf(),
            r@.owners == Map::<IdModel, AccountId>::empty(),
            r@.approvals == Set::<(AccountId, AccountId, Option<IdModel>)>::empty(),
            r@.counts == Map::<AccountId, u32>::empty(),
            r@.total_supply == 0,
            r@.last_token_id == 0,
            r@.locked == Map::<IdModel, bool>::empty(),
            r@.locked_count == 0,
    {
        let r = PSP34Data {
            token_owner: Table::new(),
            operator_approvals: Table::new(),
            owned_count: Table::new(),
            supply: 0,
            last_token_id: 0,
            locked_tokens: Table::new(),
            locked_token_count: 0,
        };
        assert(r@.approvals =~= Set::<(AccountId, AccountId, Option<IdModel>)>::empty());
        assert forall|a: AccountId| #[trigger] r@.count(a) == r@.tokens_of(a).len() by {
            assert(r@.tokens_of(a) =~= Set::<IdModel>::empty());
        }
        r
    }

    pub fn total_supply(&self) -> (r: u128)
        ensures
            r == self@.total_supply,
    {
        self.supply
    }

    pub fn balance_of(&self, owner: AccountId) -> (r: u32)
        requires
            self.wf(),
        ensures
            r == self@.count(owner),
    {
        match self.owned_count.get(&owner) {
            Some(c) => *c,
            None => 0,
        }
    }

    pub fn owner_of(&self, id: &Id) -> (r: Option<AccountId>)
        requires
            self.wf(),
        ensures
            r == (if self@.owners.contains_key(id@) {
                Some(self@.owners[id@])
            } else {
                None
            }),
    {
        match self.token_owner.get(id) {
            Some(a) => Some(*a),
            None => None,
        }
    }

    /// Whether `operator` holds an approval for all of `owner`'s tokens, or,
    /// when `id` is given, for that token.
    pub fn allowance(&self, owner: AccountId, operator: AccountId, id: Option<&Id>) -> (r: bool)
        requires
            self.wf(),
        ensures
            r == self@.allowed(
                owner,
                operator,
                match id {
                    Some(i) => Some(i@),
                    None => None,
                },
            ),
    {
        if self.operator_approvals.contains(&(owner, operator, None)) {
            return true;
        }
        match id {
            Some(i) => self.operator_approvals.contains(&(owner, operator, Some(i.clone()))),
            None => false,
        }
    }

    /// The id of the collection that the ledger at `account_id` keeps: the
    /// account's bytes.
    pub fn collection_id(&self, account_id: AccountId) -> (r: Id)
        ensures
            r@ == IdModel::Bytes(account_id.0@),
    {
        Id::Bytes(account_id.to_bytes())
    }

    /// Grants (`approved`) or withdraws an approval of `operator`. With an id,
    /// the approval is for that token and is recorded under its owner; the
    /// caller must be the owner or hold the owner's approval for all tokens.
    /// Without an id, it is the caller's approval for all of its tokens.
    pub fn approve(&mut self, caller: AccountId, operator: AccountId, id: Option<Id>, approved: bool) -> (r:
        Result<Vec<PSP34Event>, PSP34Error>)
        requires
            old(self).wf(),
        ensures
            final(self).wf(),
            r is Err ==> final(self)@ == old(self)@,
            match id {
                None => {
                    &&& r is Ok
                    &&& r matches Ok(ev) && events_model(ev@) == seq![
                        PSP34EventModel::Approval { owner: caller, operator, id: None, approved },
                    ]
                    &&& final(self)@ == PSP34Model {
                        approvals: if approved {
                            old(self)@.approvals.insert((caller, operator, None))
                        } else {
                            old(self)@.approvals.remove((caller, operator, None))
                        },
                        ..old(self)@
                    }
                },
                Some(i) => {
                    let m = old(self)@;
                    let owner = m.owners[i@];
                    if !m.owners.contains_key(i@) {
                        r == Err::<Vec<PSP34Event>, PSP34Error>(PSP34Error::TokenNotExists)
                    } else if approved && owner == operator {
                        r == Err::<Vec<PSP34Event>, PSP34Error>(PSP34Error::SelfApprove)
                    } else if owner != caller && !m.allowed(owner, caller, None) {
                        r == Err::<Vec<PSP34Event>, PSP34Error>(PSP34Error::NotApproved)
                    } else if !approved && m.allowed(owner, operator, None) {
                        r matches Err(PSP34Error::Custom(_))
                    } else {
                        &&& r matches Ok(ev) && events_model(ev@) == seq![
                            PSP34EventModel::Approval {
                                owner,
                                operator,
                                id: Some(i@),
                                approved,
                            },
                        ]
                        &&& final(self)@ == PSP34Model {
                            approvals: if approved {
                                m.approvals.insert((owner, operator, Some(i@)))
                            } else {
                                m.approvals.remove((owner, operator, Some(i@)))
                            },
                            ..m
                        }
                    }
                },
            },
    {
        let mut caller = caller;
        if let Some(token) = &id {
            let owner = match self.owner_of(token) {
                Some(o) => o,
                None => return Err(PSP34Error::TokenNotExists),
            };
            if approved && owner.key_eq(&operator) {
                return Err(PSP34Error::SelfApprove);
            }
            if !owner.key_eq(&caller) && !self.allowance(owner, caller, None) {
                return Err(PSP34Error::NotApproved);
            }
            if !approved && self.allowance(owner, operator, None) {
                return Err(
                    PSP34Error::Custom(
                        String::from_str(
                            "Cannot revoke approval for a single token, when the operator has approval for all tokens.",
                        ),
                    ),
                );
            }
            caller = owner;
        }
        let key = (caller, operator, id.key_clone());
        if approved {
            self.operator_approvals.insert(key, ());
        } else {
            self.operator_approvals.remove(&key);
        }
        let ghost m = old(self)@;
        let ghost k = (caller, operator, id.model());
        assert(self@.approvals =~= (if approved {
            m.approvals.insert(k)
        } else {
            m.approvals.remove(k)
        }));
        proof {
            assert forall|a: AccountId| #[trigger] self@.count(a) == self@.tokens_of(a).len() by {
                assert(old(self)@.count(a) == old(self)@.tokens_of(a).len());
            }
        }
        let ev = vec![PSP34Event::Approval { owner: caller, operator, id, approved }];
        assert(events_model(ev@) =~= seq![
            PSP34EventModel::Approval { owner: caller, operator, id: k.2, approved },
        ]);
        Ok(ev)
    }
    /// Moves token `id` to `to`. The caller must be the owner or hold an
    /// approval for the token or for all of the owner's tokens. A transfer to
    /// the owner itself changes nothing. Every approval that the owner gave
    /// for this token alone is withdrawn.
    pub fn transfer(&mut self, caller: AccountId, to: AccountId, id: Id, data: Vec<u8>) -> (r: Result<
        Vec<PSP34Event>,
        PSP34Error,
    >)
        requires
            old(self).wf(),
        ensures
            final(self).wf(),
            r is Err ==> final(self)@ == old(self)@,
            ({
                let m = old(self)@;
                let owner = m.owners[id@];
                if !m.owners.contains_key(id@) {
                    r == Err::<Vec<PSP34Event>, PSP34Error>(PSP34Error::TokenNotExists)
                } else if owner == to {
                    r matches Ok(ev) && ev@.len() == 0 && final(self)@ == m
                } else if owner != caller && !m.allowed(owner, caller, Some(id@)) {
                    r == Err::<Vec<PSP34Event>, PSP34Error>(PSP34Error::NotApproved)
                } else if m.count(to) == u32::MAX {
                    r matches Err(PSP34Error::Custom(_))
                } else {
                    &&& r matches Ok(ev) && events_model(ev@) == seq![
                        PSP34EventModel::Transfer { from: Some(caller), to: Some(to), id: id@ },
                    ]
                    &&& final(self)@ == PSP34Model {
                        owners: m.owners.insert(id@, to),
                        approvals: without_token_approvals(m.approvals, owner, id@),
                        ..m.with_count(owner, (m.count(owner) - 1) as u32).with_count(
                            to,
                            (m.count(to) + 1) as u32,
                        )
                    }
                    &&& m.count(owner) >= 1
                }
            }),
    {
        let owner = match self.owner_of(&id) {
            Some(o) => o,
            None => return Err(PSP34Error::TokenNotExists),
        };
        if owner.key_eq(&to) {
            return Ok(Vec::new());
        }
        if !owner.key_eq(&caller) && !self.allowance(owner, caller, Some(&id)) {
            return Err(PSP34Error::NotApproved);
        }
        let to_count = self.balance_of(to);
        if to_count == u32::MAX {
            return Err(PSP34Error::Custom(String::from_str("Max PSP34 balance exceeded")));
        }
        let owner_count = self.balance_of(owner);
        let ghost m = old(self)@;
        let ghost im = id@;
        proof {
            self.token_owner.lemma_finite();
            lemma_owned_after_insert(m.owners, im, to, owner);
            assert(m.count(owner) == m.tokens_of(owner).len());
            assert(m.tokens_of(owner).contains(im));
        }
        self.set_count(owner, owner_count - 1);
        self.set_count(to, to_count + 1);
        self.clear_token_approvals(owner, &id);
        self.token_owner.insert(id.clone(), to);
        assert(self.token_owner@.dom() =~= old(self).token_owner@.dom());
        proof {
            assert forall|a: AccountId| #[trigger] self@.count(a) == self@.tokens_of(a).len() by {
                lemma_owned_after_insert(m.owners, im, to, a);
                assert(m.count(a) == m.tokens_of(a).len());
            }
        }
        let ev = vec![PSP34Event::Transfer { from: Some(caller), to: Some(to), id }];
        assert(events_model(ev@) =~= seq![
            PSP34EventModel::Transfer { from: Some(caller), to: Some(to), id: ev@[0]->Transfer_id@ },
        ]);
        Ok(ev)
    }

    /// Creates token `id` for `account`; refused with `TokenExists` if the
    /// token exists already.
    pub fn mint(&mut self, account: AccountId, id: Id) -> (r: Result<Vec<PSP34Event>, PSP34Error>)
        requires
            old(self).wf(),
        ensures
            final(self).wf(),
            r is Err ==> final(self)@ == old(self)@,
            ({
                let m = old(self)@;
                if m.owners.contains_key(id@) {
                    r == Err::<Vec<PSP34Event>, PSP34Error>(PSP34Error::TokenExists)
                } else if m.count(account) == u32::MAX || m.total_supply == u128::MAX {
                    r matches Err(PSP34Error::Custom(_))
                } else {
                    &&& r matches Ok(ev) && events_model(ev@) == seq![
                        PSP34EventModel::Transfer { from: None, to: Some(account), id: id@ },
                    ]
                    &&& final(self)@ == PSP34Model {
                        owners: m.owners.insert(id@, account),
                        total_supply: (m.total_supply + 1) as u128,
                        ..m.with_count(account, (m.count(account) + 1) as u32)
                    }
                }
            }),
    {
        if self.owner_of(&id).is_some() {
            return Err(PSP34Error::TokenExists);
        }
        let count = self.balance_of(account);
        if count == u32::MAX {
            return Err(PSP34Error::Custom(String::from_str("Max PSP34 balance exceeded")));
        }
        if self.supply == u128::MAX {
            return Err(PSP34Error::Custom(String::from_str("Max PSP34 supply exceeded")));
        }
        let ghost m = old(self)@;
        let ghost im = id@;
        proof {
            self.token_owner.lemma_finite();
        }
        self.set_count(account, count + 1);
        self.supply = self.supply + 1;
        self.token_owner.insert(id.clone(), account);
        assert(self.token_owner@.dom() =~= old(self).token_owner@.dom().insert(id@));
        proof {
            assert forall|a: AccountId| #[trigger] self@.count(a) == self@.tokens_of(a).len() by {
                lemma_owned_after_insert(m.owners, im, account, a);
                assert(m.count(a) == m.tokens_of(a).len());
            }
        }
        let ev = vec![PSP34Event::Transfer { from: None, to: Some(account), id }];
        assert(events_model(ev@) =~= seq![
            PSP34EventModel::Transfer { from: None, to: Some(account), id: ev@[0]->Transfer_id@ },
        ]);
        Ok(ev)
    }

    /// Destroys token `id`, which `account` must own. The caller must be
    /// `account` or hold `account`'s approval for all of its tokens.
    /// Approvals given for this very token are not swept: they stay in the
    /// approval set, and one comes back into force only if a token of the
    /// same id is minted to the same owner again.
    pub fn burn(&mut self, caller: AccountId, account: AccountId, id: Id) -> (r: Result<
        Vec<PSP34Event>,
        PSP34Error,
    >)
        requires
            old(self).wf(),
        ensures
            final(self).wf(),
            r is Err ==> final(self)@ == old(self)@,
            ({
                let m = old(self)@;
                if !m.owners.contains_key(id@) {
                    r == Err::<Vec<PSP34Event>, PSP34Error>(PSP34Error::TokenNotExists)
                } else if account != caller && !m.allowed(account, caller, None) {
                    r == Err::<Vec<PSP34Event>, PSP34Error>(PSP34Error::NotApproved)
                } else if m.owners[id@] != account {
                    r == Err::<Vec<PSP34Event>, PSP34Error>(PSP34Error::NotTokenOwner)
                } else {
                    &&& r matches Ok(ev) && events_model(ev@) == seq![
                        PSP34EventModel::Transfer { from: Some(account), to: None, id: id@ },
                    ]
                    &&& final(self)@ == PSP34Model {
                        owners: m.owners.remove(id@),
                        total_supply: (m.total_supply - 1) as u128,
                        ..m.with_count(account, (m.count(account) - 1) as u32)
                    }
                    &&& m.count(account) >= 1
                    &&& m.total_supply >= 1
                }
            }),
    {
        let owner = match self.owner_of(&id) {
            Some(o) => o,
            None => return Err(PSP34Error::TokenNotExists),
        };
        if !account.key_eq(&caller) && !self.allowance(account, caller, None) {
            return Err(PSP34Error::NotApproved);
        }
        if !owner.key_eq(&account) {
            return Err(PSP34Error::NotTokenOwner);
        }
        let count = self.balance_of(account);
        let ghost m = old(self)@;
        let ghost im = id@;
        proof {
            self.token_owner.lemma_finite();
            assert(self.token_owner@.dom().contains(im));
            lemma_owned_after_remove(m.owners, im, account);
            assert(m.count(account) == m.tokens_of(account).len());
            assert(m.tokens_of(account).contains(im));
        }
        self.set_count(account, count - 1);
        self.supply = self.supply - 1;
        self.token_owner.remove(&id);
        assert(self.token_owner@.dom() =~= old(self).token_owner@.dom().remove(id@));
        proof {
            assert forall|a: AccountId| #[trigger] self@.count(a) == self@.tokens_of(a).len() by {
                lemma_owned_after_remove(m.owners, im, a);
                assert(m.count(a) == m.tokens_of(a).len());
            }
        }
        let ev = vec![PSP34Event::Transfer { from: Some(account), to: None, id }];
        assert(events_model(ev@) =~= seq![
            PSP34EventModel::Transfer { from: Some(account), to: None, id: ev@[0]->Transfer_id@ },
        ]);
        Ok(ev)
    }

    pub fn get_last_token_id(&self) -> (r: u64)
        ensures
            r == self@.last_token_id,
    {
        self.last_token_id
    }

    /// Marks `token_id` as locked and counts the lock, also when the token was
    /// locked already; refused if the count would overflow.
    pub fn lock(&mut self, token_id: Id) -> (r: Result<(), PSP34Error>)
        requires
            old(self).wf(),
        ensures
            final(self).wf(),
            old(self)@.locked_count == u64::MAX ==> (r matches Err(PSP34Error::Custom(_)))
                && final(self)@ == old(self)@,
            old(self)@.locked_count < u64::MAX ==> (r is Ok) && (final(self)@ == PSP34Model {
                locked: old(self)@.locked.insert(token_id@, true),
                locked_count: (old(self)@.locked_count + 1) as u64,
                ..old(self)@
            }),
    {
        if self.locked_token_count == u64::MAX {
            return Err(PSP34Error::Custom(String::from_str("Cannot increase locked token count")));
        }
        self.locked_token_count = self.locked_token_count + 1;
        self.locked_tokens.insert(token_id, true);
        proof {
            assert forall|a: AccountId| #[trigger] self@.count(a) == self@.tokens_of(a).len() by {
                assert(old(self)@.count(a) == old(self)@.tokens_of(a).len());
            }
        }
        Ok(())
    }

    pub fn is_locked_nft(&self, token_id: Id) -> (r: bool)
        requires
            self.wf(),
        ensures
            r == self@.locked.contains_key(token_id@),
    {
        self.locked_tokens.contains(&token_id)
    }

    pub fn get_locked_token_count(&self) -> (r: u64)
        ensures
            r == self@.locked_count,
    {
        self.locked_token_count
    }
}

/// In the owners that a successful `mint(a, id)` leaves, token `id` exists
/// and is owned by `a`. That existence is the condition on which `mint`
/// refuses a second `mint(_, id)` with `TokenExists`.
pub proof fn lemma_mint_owns(m: PSP34Model, a: AccountId, id: IdModel)
    ensures
        m.owners.insert(id, a).contains_key(id),
        m.owners.insert(id, a)[id] == a,
{
}

/// After a successful transfer of `id` out of `owner`'s hands, no approval
/// that `owner` gave for that token alone is left: every operator may act for
/// `owner` on the token only through an approval for all of `owner`'s
/// tokens.
pub proof fn lemma_transfer_clears_token_approval(m: PSP34Model, owner: AccountId, id: IdModel)
    ensures
        ({
            let after = without_token_approvals(m.approvals, owner, id);
            &&& forall|x: AccountId| !#[trigger] after.contains((owner, x, Some(id)))
            &&& forall|x: AccountId|
                #[trigger] after.contains((owner, x, None)) <==> m.approvals.contains(
                    (owner, x, None),
                )
        }),
{
}

} // verus!
