//! Verified accounting and permission core of a fungible-token ledger
//! (balances, allowances, a supply cap) and a non-fungible-token ledger
//! (ownership, approvals, locks, attributes), with a single-owner registry
//! and a role registry that guard the privileged operations.

use vstd::prelude::*;

pub mod access_control;
pub mod errors;
pub mod metadata;
pub mod ownable;
pub mod psp22;
pub mod psp22_contract;
pub mod psp34;
pub mod psp34_contract;
pub mod sum;
pub mod table;
pub mod types;

pub use access_control::{AccessControlData, AccessControlModel, RoleType, DEFAULT_ADMIN_ROLE};
pub use errors::{PSP22Error, PSP34Error};
pub use ownable::OwnableData;
pub use psp22_contract::PSP22Capped;
pub use psp22::{PSP22Data, PSP22Event, PSP22Model};
pub use psp34::{PSP34Data, PSP34Event, PSP34EventModel, PSP34Model};
pub use types::{AccountId, Id, IdModel};

verus! {

} // verus!
