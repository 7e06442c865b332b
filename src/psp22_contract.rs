use vstd::prelude::*;

use crate::access_control::{AccessControlData, AccessControlModel, RoleType, DEFAULT_ADMIN_ROLE};
use crate::errors::PSP22Error;
use crate::ownable::OwnableData;
use crate::psp22::{PSP22Data, PSP22Event, PSP22Model};
use crate::table::TableKey;
use crate::types::AccountId;

verus! {

/// A ledger that reports its supply cap.
pub trait PSP22Capped: Sized {
    spec fn spec_cap(&self) -> u128;

    fn cap(&mut self) -> (r: u128)
        ensures
            r == old(self).spec_cap(),
            *final(self) == *old(self),
    ;
}

/// The fungible token: its ledger, its owner and its roles, with the checks
/// that guard the privileged operations. Each operation takes the caller's
/// identity as resolved by the host.
pub struct Token {
    pub data: PSP22Data,
    pub ownable_data: OwnableData,
    pub access_control_data: AccessControlData,
    pub name: Option<String>,
    pub symbol: Option<String>,
    pub decimals: u8,
}

impl Token {
    pub open spec fn wf(&self) -> bool {
        self.data.wf() && self.access_control_data.wf()
    }

    /// A token with an empty ledger capped at `cap`, owned by `caller`.
    pub fn new(caller: AccountId, cap: u128, name: Option<String>, symbol: Option<String>, decimals: u8) -> (r:
        Token)
        ensures
            r.wf(),
            r.data@.balances.is_empty(),
            r.data@.allowances.is_empty(),
            r.data@.total_supply == 0,
            r.data@.cap == cap,
            r.ownable_data@ == Some(caller),
            r.access_control_data@.admin_roles.is_empty(),
            r.access_control_data@.members.is_empty(),
            r.name == name,
            r.symbol == symbol,
            r.decimals == decimals,
    {
        Token {
            data: PSP22Data::new(cap),
            ownable_data: OwnableData::new(Some(caller)),
            access_control_data: AccessControlData::new(),
            name,
            symbol,
            decimals,
        }
    }

    pub fn token_name(&self) -> (r: Option<String>)
        ensures
            r == self.name,
    {
        match &self.name {
            Some(n) => Some(n.clone()),
            None => None,
        }
    }

    pub fn token_symbol(&self) -> (r: Option<String>)
        ensures
            r == self.symbol,
    {
        match &self.symbol {
            Some(s) => Some(s.clone()),
            None => None,
        }
    }

    pub fn token_decimals(&self) -> (r: u8)
        ensures
            r == self.decimals,
    {
        self.decimals
    }

    pub fn owner(&self) -> (r: Option<AccountId>)
        ensures
            r == self.ownable_data@,
    {
        self.ownable_data.owner()
    }

    /// Refused with `CallerIsNotOwner` unless `caller` is the owner.
    fn only_owner(&self, caller: AccountId) -> (r: Result<(), PSP22Error>)
        ensures
            self.ownable_data@ == Some(caller) ==> r is Ok,
            self.ownable_data@ != Some(caller) ==> r == Err::<(), PSP22Error>(
                PSP22Error::CallerIsNotOwner,
            ),
    {
        if !self.ownable_data.is_owner(caller) {
            return Err(PSP22Error::CallerIsNotOwner);
        }
        Ok(())
    }

    /// Whether `caller` holds the admin role of `role`.
    fn is_role_admin(&self, role: RoleType, caller: AccountId) -> (r: bool)
        requires
            self.wf(),
        ensures
            r == self.access_control_data@.members.contains(
                (self.access_control_data@.admin_of(role), Some(caller)),
            ),
    {
        let admin = self.access_control_data.get_role_admin(role);
        self.access_control_data.only_role(admin, Some(caller))
    }

    /// Creates `value` new units for `to`; only the owner may. Past the
    /// check it is the ledger's `mint`: refused with `CapExceeded` if the
    /// total supply would pass the cap.
    pub fn mint(&mut self, caller: AccountId, to: AccountId, value: u128) -> (r: Result<
        Vec<PSP22Event>,
        PSP22Error,
    >)
        requires
            old(self).wf(),
        ensures
            final(self).wf(),
            final(self).name == old(self).name,
            final(self).symbol == old(self).symbol,
            final(self).decimals == old(self).decimals,
            final(self).ownable_data == old(self).ownable_data,
            final(self).access_control_data == old(self).access_control_data,
            ({
                let m = old(self).data@;
                if old(self).ownable_data@ != Some(caller) {
                    r == Err::<Vec<PSP22Event>, PSP22Error>(PSP22Error::CallerIsNotOwner)
                        && final(self).data@ == m
                } else if m.total_supply + value > m.cap {
                    r == Err::<Vec<PSP22Event>, PSP22Error>(PSP22Error::CapExceeded)
                        && final(self).data@ == m
                } else {
                    &&& r matches Ok(ev) && ev@ == seq![
                        PSP22Event::Transfer { from: None, to: Some(to), value },
                    ]
                    &&& final(self).data@ == PSP22Model {
                        total_supply: (m.total_supply + value) as u128,
                        ..m.with_balance(to, (m.balance(to) + value) as u128)
                    }
                }
            }),
    {
        if !self.ownable_data.is_owner(caller) {
            return Err(PSP22Error::CallerIsNotOwner);
        }
        self.data.mint(to, value)
    }

    /// Destroys `value` units held by `from`; only the owner may. Past the
    /// check it is the ledger's `burn`: refused with `InsufficientBalance` if
    /// `from` holds less.
    pub fn burn(&mut self, caller: AccountId, from: AccountId, value: u128) -> (r: Result<
        Vec<PSP22Event>,
        PSP22Error,
    >)
        requires
            old(self).wf(),
        ensures
            final(self).wf(),
            final(self).name == old(self).name,
            final(self).symbol == old(self).symbol,
            final(self).decimals == old(self).decimals,
            final(self).ownable_data == old(self).ownable_data,
            final(self).access_control_data == old(self).access_control_data,
            ({
                let m = old(self).data@;
                if old(self).ownable_data@ != Some(caller) {
                    r == Err::<Vec<PSP22Event>, PSP22Error>(PSP22Error::CallerIsNotOwner)
                        && final(self).data@ == m
                } else if value > m.balance(from) {
                    r == Err::<Vec<PSP22Event>, PSP22Error>(PSP22Error::InsufficientBalance)
                        && final(self).data@ == m
                } else {
                    &&& r matches Ok(ev) && ev@ == seq![
                        PSP22Event::Transfer { from: Some(from), to: None, value },
                    ]
                    &&& final(self).data@ == PSP22Model {
                        total_supply: (m.total_supply - value) as u128,
                        ..m.with_balance(from, (m.balance(from) - value) as u128)
                    }
                }
            }),
    {
        if !self.ownable_data.is_owner(caller) {
            return Err(PSP22Error::CallerIsNotOwner);
        }
        self.data.burn(from, value)
    }

    /// The check in front of a code upgrade: only the owner may replace the
    /// code.
    pub fn set_code(&self, caller: AccountId, code_hash: [u8; 32]) -> (r: Result<(), PSP22Error>)
        ensures
            self.ownable_data@ == Some(caller) ==> r is Ok,
            self.ownable_data@ != Some(caller) ==> r == Err::<(), PSP22Error>(
                PSP22Error::CallerIsNotOwner,
            ),
    {
        self.only_owner(caller)
    }

    /// Hands ownership on; only the owner may, and `new_owner` must be set.
    pub fn transfer_ownership(&mut self, caller: AccountId, new_owner: Option<AccountId>) -> (r: Result<
        (),
        PSP22Error,
    >)
        requires
            old(self).wf(),
        ensures
            final(self).wf(),
            final(self).name == old(self).name,
            final(self).symbol == old(self).symbol,
            final(self).decimals == old(self).decimals,
            final(self).data == old(self).data,
            final(self).access_control_data == old(self).access_control_data,
            old(self).ownable_data@ != Some(caller) ==> r == Err::<(), PSP22Error>(
                PSP22Error::CallerIsNotOwner,
            ) && final(self).ownable_data@ == old(self).ownable_data@,
            old(self).ownable_data@ == Some(caller) && new_owner is None ==> r == Err::<
                (),
                PSP22Error,
            >(PSP22Error::NewOwnerIsNotSet) && final(self).ownable_data@ == old(self).ownable_data@,
            old(self).ownable_data@ == Some(caller) && new_owner is Some ==> r is Ok && final(self).ownable_data@ == new_owner,
    {
        if !self.ownable_data.is_owner(caller) {
            return Err(PSP22Error::CallerIsNotOwner);
        }
        self.ownable_data.transfer_ownership(new_owner)
    }

    /// Gives ownership up for good; only the owner may.
    pub fn renounce_ownership(&mut self, caller: AccountId) -> (r: Result<(), PSP22Error>)
        requires
            old(self).wf(),
        ensures
            final(self).wf(),
            final(self).name == old(self).name,
            final(self).symbol == old(self).symbol,
            final(self).decimals == old(self).decimals,
            final(self).data == old(self).data,
            final(self).access_control_data == old(self).access_control_data,
            old(self).ownable_data@ != Some(caller) ==> r == Err::<(), PSP22Error>(
                PSP22Error::CallerIsNotOwner,
            ) && final(self).ownable_data@ == old(self).ownable_data@,
            old(self).ownable_data@ == Some(caller) ==> r is Ok && final(self).ownable_data@ is None,
    {
        if !self.ownable_data.is_owner(caller) {
            return Err(PSP22Error::CallerIsNotOwner);
        }
        self.ownable_data.renounce_ownership()
    }

    pub fn has_role(&self, role: RoleType, address: Option<AccountId>) -> (r: bool)
        requires
            self.wf(),
        ensures
            r == self.access_control_data@.members.contains((role, address)),
    {
        self.access_control_data.has_role(role, address)
    }

    pub fn get_role_admin(&self, role: RoleType) -> (r: RoleType)
        requires
            self.wf(),
        ensures
            r == self.access_control_data@.admin_of(role),
    {
        self.access_control_data.get_role_admin(role)
    }

    /// Makes the owner a member of the default admin role; only the owner may.
    pub fn init_admin_role(&mut self, caller: AccountId) -> (r: Result<(), PSP22Error>)
        requires
            old(self).wf(),
        ensures
            final(self).wf(),
            final(self).name == old(self).name,
            final(self).symbol == old(self).symbol,
            final(self).decimals == old(self).decimals,
            final(self).data == old(self).data,
            final(self).ownable_data == old(self).ownable_data,
            final(self).access_control_data@.admin_roles == old(self).access_control_data@.admin_roles,
            ({
                let m = old(self).access_control_data@.members;
                if old(self).ownable_data@ != Some(caller) {
                    r == Err::<(), PSP22Error>(PSP22Error::CallerIsNotOwner)
                        && final(self).access_control_data@.members == m
                } else if m.contains((DEFAULT_ADMIN_ROLE, Some(caller))) {
                    r == Err::<(), PSP22Error>(PSP22Error::RoleRedundant)
                        && final(self).access_control_data@.members == m
                } else {
                    r is Ok && final(self).access_control_data@.members == m.insert(
                        (DEFAULT_ADMIN_ROLE, Some(caller)),
                    )
                }
            }),
    {
        if !self.ownable_data.is_owner(caller) {
            return Err(PSP22Error::CallerIsNotOwner);
        }
        self.access_control_data.grant_role(DEFAULT_ADMIN_ROLE, Some(caller))
    }

    /// Makes `account` a member of `role`; only a member of the role's admin
    /// role may.
    pub fn grant_role(&mut self, caller: AccountId, role: RoleType, account: Option<AccountId>) -> (r:
        Result<(), PSP22Error>)
        requires
            old(self).wf(),
        ensures
            final(self).wf(),
            final(self).name == old(self).name,
            final(self).symbol == old(self).symbol,
            final(self).decimals == old(self).decimals,
            final(self).data == old(self).data,
            final(self).ownable_data == old(self).ownable_data,
            final(self).access_control_data@.admin_roles == old(self).access_control_data@.admin_roles,
            ({
                let ac = old(self).access_control_data@;
                if !ac.members.contains((ac.admin_of(role), Some(caller))) {
                    r == Err::<(), PSP22Error>(PSP22Error::MissingRole)
                        && final(self).access_control_data@.members == ac.members
                } else if ac.members.contains((role, account)) {
                    r == Err::<(), PSP22Error>(PSP22Error::RoleRedundant)
                        && final(self).access_control_data@.members == ac.members
                } else {
                    r is Ok && final(self).access_control_data@.members == ac.members.insert(
                        (role, account),
                    )
                }
            }),
    {
        if !self.is_role_admin(role, caller) {
            return Err(PSP22Error::MissingRole);
        }
        self.access_control_data.grant_role(role, account)
    }

    /// Takes `account` out of `role`; only a member of the role's admin role
    /// may.
    pub fn revoke_role(&mut self, caller: AccountId, role: RoleType, account: Option<AccountId>) -> (r:
        Result<(), PSP22Error>)
        requires
            old(self).wf(),
        ensures
            final(self).wf(),
            final(self).name == old(self).name,
            final(self).symbol == old(self).symbol,
            final(self).decimals == old(self).decimals,
            final(self).data == old(self).data,
            final(self).ownable_data == old(self).ownable_data,
            final(self).access_control_data@.admin_roles == old(self).access_control_data@.admin_roles,
            ({
                let ac = old(self).access_control_data@;
                if !ac.members.contains((ac.admin_of(role), Some(caller))) {
                    r == Err::<(), PSP22Error>(PSP22Error::MissingRole)
                        && final(self).access_control_data@.members == ac.members
                } else if !ac.members.contains((role, account)) {
                    r == Err::<(), PSP22Error>(PSP22Error::MissingRole)
                        && final(self).access_control_data@.members == ac.members
                } else {
                    r is Ok && final(self).access_control_data@.members == ac.members.remove(
                        (role, account),
                    )
                }
            }),
    {
        if !self.is_role_admin(role, caller) {
            return Err(PSP22Error::MissingRole);
        }
        self.access_control_data.revoke_role(role, account)
    }

    /// Gives up one's own membership of `role`: `account` must be the caller.
    pub fn renounce_role(&mut self, caller: AccountId, role: RoleType, account: Option<AccountId>) -> (r:
        Result<(), PSP22Error>)
        requires
            old(self).wf(),
        ensures
            final(self).wf(),
            final(self).name == old(self).name,
            final(self).symbol == old(self).symbol,
            final(self).decimals == old(self).decimals,
            final(self).data == old(self).data,
            final(self).ownable_data == old(self).ownable_data,
            final(self).access_control_data@.admin_roles == old(self).access_control_data@.admin_roles,
            ({
                let ac = old(self).access_control_data@;
                if account != Some(caller) {
                    r == Err::<(), PSP22Error>(PSP22Error::InvalidCaller)
                        && final(self).access_control_data@.members == ac.members
                } else if !ac.members.contains((role, account)) {
                    r == Err::<(), PSP22Error>(PSP22Error::MissingRole)
                        && final(self).access_control_data@.members == ac.members
                } else {
                    r is Ok && final(self).access_control_data@.members == ac.members.remove(
                        (role, account),
                    )
                }
            }),
    {
        if !account.key_eq(&Some(caller)) {
            return Err(PSP22Error::InvalidCaller);
        }
        self.access_control_data.revoke_role(role, account)
    }

    /// The checks in front of a fee withdrawal of `value` when the token's
    /// own account holds `contract_balance`: only the owner may, and not more
    /// than there is.
    pub fn withdraw_fee(&self, caller: AccountId, value: u128, contract_balance: u128) -> (r: Result<
        (),
        PSP22Error,
    >)
        ensures
            self.ownable_data@ != Some(caller) ==> r == Err::<(), PSP22Error>(
                PSP22Error::CallerIsNotOwner,
            ),
            self.ownable_data@ == Some(caller) && value > contract_balance ==> r == Err::<
                (),
                PSP22Error,
            >(PSP22Error::NotEnoughBalance),
            self.ownable_data@ == Some(caller) && value <= contract_balance ==> r is Ok,
    {
        if !self.ownable_data.is_owner(caller) {
            return Err(PSP22Error::CallerIsNotOwner);
        }
        if value > contract_balance {
            return Err(PSP22Error::NotEnoughBalance);
        }
        Ok(())
    }
}

impl PSP22Capped for Token {
    open spec fn spec_cap(&self) -> u128 {
        self.data@.cap
    }

    fn cap(&mut self) -> (r: u128) {
        self.data.cap()
    }
}

} // verus!
