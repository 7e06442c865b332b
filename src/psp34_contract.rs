use vstd::prelude::*;

use crate::errors::PSP34Error;
use crate::metadata::Data;
use crate::ownable::OwnableData;
use crate::psp34::{PSP34Data, PSP34Model};
use crate::table::TableKey;
use crate::types::{AccountId, Id, IdModel};

verus! {

/// The non-fungible token: its ledger, its attribute store and its owner,
/// with the checks that guard the privileged operations. Each operation takes
/// the caller's identity as resolved by the host.
pub struct Token {
    pub data: PSP34Data,
    pub metadata: Data,
    pub ownable_data: OwnableData,
}

impl Token {
    pub open spec fn wf(&self) -> bool {
        self.data.wf() && self.metadata.wf()
    }

    /// A token with an empty ledger and store, owned by `contract_owner`.
    pub fn new(contract_owner: AccountId) -> (r: Token)
        ensures
            r.wf(),
            r.data@.owners.is_empty(),
            r.data@.approvals.is_empty(),
            r.data@.counts.is_empty(),
            r.data@.total_supply == 0,
            r.data@.locked.is_empty(),
            r.data@.locked_count == 0,
            r.metadata@.attributes.is_empty(),
            r.metadata@.attribute_count == 0,
            r.ownable_data@ == Some(contract_owner),
    {
        Token {
            data: PSP34Data::new(),
            metadata: Data::new(),
            ownable_data: OwnableData::new(Some(contract_owner)),
        }
    }

    /// The collection's id, made from the account that the token lives at.
    pub fn collection_id(&self, account_id: AccountId) -> (r: Id)
        ensures
            r@ == IdModel::Bytes(account_id.0@),
    {
        self.data.collection_id(account_id)
    }

    pub fn owner_of(&self, id: Id) -> (r: Option<AccountId>)
        requires
            self.wf(),
        ensures
            r == (if self.data@.owners.contains_key(id@) {
                Some(self.data@.owners[id@])
            } else {
                None
            }),
    {
        self.data.owner_of(&id)
    }

    /// The owner, which must not have been renounced.
    pub fn get_owner(&self) -> (r: AccountId)
        requires
            self.ownable_data@ is Some,
        ensures
            Some(r) == self.ownable_data@,
    {
        self.ownable_data.owner().unwrap()
    }

    pub fn get_last_token_id(&self) -> (r: u64)
        ensures
            r == self.data@.last_token_id,
    {
        self.data.get_last_token_id()
    }

    /// Locks `token_id`; only its owner may.
    pub fn lock(&mut self, caller: AccountId, token_id: Id) -> (r: Result<(), PSP34Error>)
        requires
            old(self).wf(),
        ensures
            final(self).wf(),
            final(self).metadata == old(self).metadata,
            final(self).ownable_data == old(self).ownable_data,
            ({
                let m = old(self).data@;
                if !(m.owners.contains_key(token_id@) && m.owners[token_id@] == caller) {
                    r == Err::<(), PSP34Error>(PSP34Error::NotTokenOwner) && final(self).data@ == m
                } else if m.locked_count == u64::MAX {
                    (r matches Err(PSP34Error::Custom(_))) && final(self).data@ == m
                } else {
                    (r is Ok) && (final(self).data@ == PSP34Model {
                        locked: m.locked.insert(token_id@, true),
                        locked_count: (m.locked_count + 1) as u64,
                        ..m
                    })
                }
            }),
    {
        let owner = self.data.owner_of(&token_id);
        if !Some(caller).key_eq(&owner) {
            return Err(PSP34Error::NotTokenOwner);
        }
        self.data.lock(token_id)
    }

    pub fn is_locked_nft(&self, token_id: Id) -> (r: bool)
        requires
            self.wf(),
        ensures
            r == self.data@.locked.contains_key(token_id@),
    {
        self.data.is_locked_nft(token_id)
    }

    pub fn get_locked_token_count(&self) -> (r: u64)
        ensures
            r == self.data@.locked_count,
    {
        self.data.get_locked_token_count()
    }

    pub fn get_attribute(&self, id: Id, key: Vec<u8>) -> (r: Option<Vec<u8>>)
        requires
            self.wf(),
        ensures
            match r {
                Some(v) => self.metadata@.attribute(id@, key@) == Some(v@),
                None => self.metadata@.attribute(id@, key@) is None,
            },
    {
        self.metadata.get_attribute(id, key)
    }

    pub fn owner(&self) -> (r: Option<AccountId>)
        ensures
            r == self.ownable_data@,
    {
        self.ownable_data.owner()
    }

    /// Hands ownership on; only the owner may, and `new_owner` must be set.
    pub fn transfer_ownership(&mut self, caller: AccountId, new_owner: Option<AccountId>) -> (r: Result<
        (),
        PSP34Error,
    >)
        requires
            old(self).wf(),
        ensures
            final(self).wf(),
            final(self).data == old(self).data,
            final(self).metadata == old(self).metadata,
            old(self).ownable_data@ != Some(caller) ==> r == Err::<(), PSP34Error>(
                PSP34Error::CallerIsNotOwner,
            ) && final(self).ownable_data@ == old(self).ownable_data@,
            old(self).ownable_data@ == Some(caller) && new_owner is None ==> r == Err::<
                (),
                PSP34Error,
            >(PSP34Error::NewOwnerIsNotSet) && final(self).ownable_data@ == old(self).ownable_data@,
            old(self).ownable_data@ == Some(caller) && new_owner is Some ==> r is Ok && final(
                self).ownable_data@ == new_owner,
    {
        if !self.ownable_data.is_owner(caller) {
            return Err(PSP34Error::CallerIsNotOwner);
        }
        if new_owner.is_none() {
            return Err(PSP34Error::NewOwnerIsNotSet);
        }
        let _ = self.ownable_data.transfer_ownership(new_owner);
        Ok(())
    }

    /// Gives ownership up for good; only the owner may.
    pub fn renounce_ownership(&mut self, caller: AccountId) -> (r: Result<(), PSP34Error>)
        requires
            old(self).wf(),
        ensures
            final(self).wf(),
            final(self).data == old(self).data,
            final(self).metadata == old(self).metadata,
            old(self).ownable_data@ != Some(caller) ==> r == Err::<(), PSP34Error>(
                PSP34Error::CallerIsNotOwner,
            ) && final(self).ownable_data@ == old(self).ownable_data@,
            old(self).ownable_data@ == Some(caller) ==> r is Ok && final(self).ownable_data@ is None,
    {
        if !self.ownable_data.is_owner(caller) {
            return Err(PSP34Error::CallerIsNotOwner);
        }
        let _ = self.ownable_data.renounce_ownership();
        Ok(())
    }
}

} // verus!
