//! Plain-value models of what the host hands to a call and takes back from
//! it: the caller's identity with any attached funds, and the structured
//! outcome — event attributes plus at most one settlement instruction. The
//! hosting shell converts these to and from its own wire types.

use vstd::prelude::*;

verus! {

/// One (asset, quantity) entry of attached or transferred funds.
#[derive(Debug, PartialEq)]
pub struct Coin {
    /// Asset identifier.
    pub denom: String,
    /// Quantity of the asset.
    pub amount: u128,
}

impl Clone for Coin {
    fn clone(&self) -> (r: Coin)
        ensures
            r == *self,
    {
        Coin { denom: self.denom.clone(), amount: self.amount }
    }
}

/// What the host attributes to an incoming call: the calling principal and
/// the funds attached to the call.
#[derive(Debug, PartialEq)]
pub struct MessageInfo {
    /// Identity of the caller.
    pub sender: String,
    /// Funds attached to the call, as an ordered list of entries.
    pub funds: Vec<Coin>,
}

/// One structured string-keyed attribute of a successful outcome.
#[derive(Debug, PartialEq)]
pub struct Attribute {
    /// Attribute name.
    pub key: String,
    /// Attribute value.
    pub value: String,
}

/// A settlement instruction for the host to execute; this module only emits
/// it, the host moves the tokens.
#[derive(Debug, PartialEq)]
pub enum BankMsg {
    /// Direct the host to transfer `amount` to `to_address`.
    Send { to_address: String, amount: Vec<Coin> },
}

/// The successful outcome of a mutating call: event attributes and zero or
/// one settlement instruction.
#[derive(Debug, PartialEq)]
pub struct Response {
    /// Event attributes, in emission order.
    pub attributes: Vec<Attribute>,
    /// Settlement instructions, empty or a single transfer.
    pub messages: Vec<BankMsg>,
}

/// The attribute carries exactly this key and value.
pub open spec fn attr_is(a: Attribute, key: Seq<char>, value: Seq<char>) -> bool {
    a.key@ == key && a.value@ == value
}

} // verus!
