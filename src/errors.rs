use vstd::prelude::*;

verus! {

/// The ways in which an operation on the fungible ledger, the ownership
/// registry or the role registry can be refused.
#[derive(Debug, PartialEq, Eq)]
pub enum PSP22Error {
    Custom(String),
    InsufficientBalance,
    InsufficientAllowance,
    ZeroRecipientAddress,
    ZeroSenderAddress,
    SafeTransferCheckFailed(String),
    CapExceeded,
    NewOwnerIsNotSet,
    CallerIsNotOwner,
    RoleRedundant,
    MissingRole,
    InvalidCaller,
    NotEnoughBalance,
    WithdrawFeeError,
}

/// The ways in which an operation on the non-fungible ledger or its
/// attribute store can be refused.
#[derive(Debug, PartialEq, Eq)]
pub enum PSP34Error {
    Custom(String),
    SelfApprove,
    NotApproved,
    TokenExists,
    TokenNotExists,
    SafeTransferCheckFailed(String),
    InvalidInput,
    NotTokenOwner,
    CallerIsNotOwner,
    NewOwnerIsNotSet,
}

} // verus!
