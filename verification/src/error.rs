//! The error kinds a call can end with. Every failure is terminal for the
//! call: the caller sees exactly one of these and no partial state change.

use vstd::prelude::*;

verus! {

/// Tagged error returned by every operation of the module.
#[derive(Debug, PartialEq)]
pub enum ContractError {
    /// One or more request fields failed validation; carries the offending
    /// field names, in the order the fields are checked.
    InvalidFields { fields: Vec<String> },
    /// The caller is not the administrator of an admin-only operation.
    Unauthorized { error: String },
    /// Funds were attached to an administrative (add or cancel) call.
    SentFundsUnsupported,
    /// The funds attached to a pay call do not exactly match the invoice.
    SentFundsInvoiceMismatch,
    /// The referenced invoice identifier does not exist in the store.
    LoadInvoiceFailed { error: String },
    /// The asset class named at initialization does not permit free transfer.
    UnsupportedMarkerType,
    /// A generic host-level failure, such as a missing configuration record.
    Std { error: String },
}

/// Builds the generic error variant from a message.
pub fn contract_err(msg: &str) -> (e: ContractError)
    ensures
        e matches ContractError::Std { error } && error@ == msg@,
{
    ContractError::Std { error: msg.to_owned() }
}

} // verus!
