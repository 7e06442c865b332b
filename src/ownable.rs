use vstd::prelude::*;

use crate::errors::PSP22Error;
use crate::table::TableKey;
use crate::types::AccountId;

verus! {

/// The single-owner registry. `None` means the owner role was renounced.
pub struct OwnableData {
    owner: Option<AccountId>,
}

impl View for OwnableData {
    type V = Option<AccountId>;

    closed spec fn view(&self) -> Option<AccountId> {
        self.owner
    }
}

impl OwnableData {
    pub fn new(owner: Option<AccountId>) -> (r: OwnableData)
        ensures
            r@ == owner,
    {
        OwnableData { owner }
    }

    /// Clears the owner for good.
    pub fn renounce_ownership(&mut self) -> (r: Result<(), PSP22Error>)
        ensures
            r is Ok,
            final(self)@ is None,
    {
        self.owner = None;
        Ok(())
    }

    /// Hands ownership to `new_owner`; refused with `NewOwnerIsNotSet` when it
    /// is `None`.
    pub fn transfer_ownership(&mut self, new_owner: Option<AccountId>) -> (r: Result<(), PSP22Error>)
        ensures
            new_owner is None ==> r == Err::<(), PSP22Error>(PSP22Error::NewOwnerIsNotSet)
                && final(self)@ == old(self)@,
            new_owner is Some ==> r is Ok && final(self)@ == new_owner,
    {
        if new_owner.is_none() {
            return Err(PSP22Error::NewOwnerIsNotSet);
        }
        self.owner = new_owner;
        Ok(())
    }

    /// Whether `caller` is the owner: the check in front of every owner-only
    /// operation.
    pub fn is_owner(&self, caller: AccountId) -> (r: bool)
        ensures
            r == (self@ == Some(caller)),
    {
        self.owner.key_eq(&Some(caller))
    }

    pub fn owner(&self) -> (r: Option<AccountId>)
        ensures
            r == self@,
    {
        self.owner
    }
}

} // verus!
