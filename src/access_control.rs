use vstd::prelude::*;

use crate::errors::PSP22Error;
use crate::table::Table;
use crate::types::AccountId;

verus! {

pub type RoleType = u32;

/// The role that administers every role whose admin was never set.
pub const DEFAULT_ADMIN_ROLE: RoleType = 0;

/// The role registry as mathematics sees it.
pub struct AccessControlModel {
    pub admin_roles: Map<RoleType, RoleType>,
    pub members: Set<(RoleType, Option<AccountId>)>,
}

impl AccessControlModel {
    /// The admin role of `role`: the one recorded, else the default admin role.
    pub open spec fn admin_of(self, role: RoleType) -> RoleType {
        if self.admin_roles.contains_key(role) {
            self.admin_roles[role]
        } else {
            DEFAULT_ADMIN_ROLE
        }
    }
}

/// The role registry: role membership and each role's admin role.
pub struct AccessControlData {
    admin_roles: Table<RoleType, RoleType>,
    members: Table<(RoleType, Option<AccountId>), ()>,
}

impl View for AccessControlData {
    type V = AccessControlModel;

    closed spec fn view(&self) -> AccessControlModel {
        AccessControlModel { admin_roles: self.admin_roles@, members: self.members@.dom() }
    }
}

impl AccessControlData {
    pub closed spec fn wf(&self) -> bool {
        self.admin_roles.wf() && self.members.wf()
    }

    pub fn new() -> (r: AccessControlData)
        ensures
            r.wf(),
            r@.admin_roles == Map::<RoleType, RoleType>::empty(),
            r@.members == Set::<(RoleType, Option<AccountId>)>::empty(),
    {
        let r = AccessControlData { admin_roles: Table::new(), members: Table::new() };
        assert(r@.members =~= Set::<(RoleType, Option<AccountId>)>::empty());
        r
    }

    pub fn has_role(&self, role: RoleType, address: Option<AccountId>) -> (r: bool)
        requires
            self.wf(),
        ensures
            r == self@.members.contains((role, address)),
    {
        self.members.contains(&(role, address))
    }

    pub fn get_role_admin(&self, role: RoleType) -> (r: RoleType)
        requires
            self.wf(),
        ensures
            r == self@.admin_of(role),
    {
        match self.admin_roles.get(&role) {
            Some(admin) => *admin,
            None => DEFAULT_ADMIN_ROLE,
        }
    }

    /// Whether `account` holds `role`.
    pub fn only_role(&self, role: RoleType, account: Option<AccountId>) -> (r: bool)
        requires
            self.wf(),
        ensures
            r == self@.members.contains((role, account)),
    {
        if !self.has_role(role, account) {
            return false;
        }
        true
    }

    /// Makes `account` a member of `role`; refused with `RoleRedundant` if it
    /// is one already.
    pub fn grant_role(&mut self, role: RoleType, account: Option<AccountId>) -> (r: Result<(), PSP22Error>)
        requires
            old(self).wf(),
        ensures
            final(self).wf(),
            final(self)@.admin_roles == old(self)@.admin_roles,
            old(self)@.members.contains((role, account)) ==> r == Err::<(), PSP22Error>(
                PSP22Error::RoleRedundant,
            ) && final(self)@.members == old(self)@.members,
            !old(self)@.members.contains((role, account)) ==> r == Ok::<(), PSP22Error>(())
                && final(self)@.members == old(self)@.members.insert((role, account)),
    {
        if self.has_role(role, account) {
            return Err(PSP22Error::RoleRedundant);
        }
        self.members.insert((role, account), ());
        Ok(())
    }

    /// Takes `account` out of `role`; refused with `MissingRole` if it is not
    /// a member.
    pub fn revoke_role(&mut self, role: RoleType, account: Option<AccountId>) -> (r: Result<(), PSP22Error>)
        requires
            old(self).wf(),
        ensures
            final(self).wf(),
            final(self)@.admin_roles == old(self)@.admin_roles,
            !old(self)@.members.contains((role, account)) ==> r == Err::<(), PSP22Error>(
                PSP22Error::MissingRole,
            ) && final(self)@.members == old(self)@.members,
            old(self)@.members.contains((role, account)) ==> r == Ok::<(), PSP22Error>(())
                && final(self)@.members == old(self)@.members.remove((role, account)),
    {
        if !self.has_role(role, account) {
            return Err(PSP22Error::MissingRole);
        }
        self.members.remove(&(role, account));
        assert(self@.members =~= old(self)@.members.remove((role, account)));
        Ok(())
    }
}

/// Whatever came of `grant_role(role, account)` (the pair added, or the
/// call refused because the pair was there), the pair is a member afterwards,
/// so granting it again is refused with `RoleRedundant`.
pub proof fn lemma_grant_twice_refused(
    before: Set<(RoleType, Option<AccountId>)>,
    after: Set<(RoleType, Option<AccountId>)>,
    role: RoleType,
    account: Option<AccountId>,
)
    requires
        after == before.insert((role, account)) || (before.contains((role, account)) && after
            == before),
    ensures
        after.contains((role, account)),
{
}

/// Whatever came of `revoke_role(role, account)`, the pair is not a member
/// afterwards, so revoking it again is refused with `MissingRole`.
pub proof fn lemma_revoke_twice_refused(
    before: Set<(RoleType, Option<AccountId>)>,
    after: Set<(RoleType, Option<AccountId>)>,
    role: RoleType,
    account: Option<AccountId>,
)
    requires
        after == before.remove((role, account)) || (!before.contains((role, account)) && after
            == before),
    ensures
        !after.contains((role, account)),
{
}

/// A role whose admin was never set is administered by the default admin role.
pub proof fn lemma_default_admin(d: AccessControlModel, role: RoleType)
    requires
        !d.admin_roles.contains_key(role),
    ensures
        d.admin_of(role) == DEFAULT_ADMIN_ROLE,
{
}

} // verus!
