//! Incoming request shapes and their syntactic validation.
//!
//! Validation is pure and exhaustive: every rule is checked independently and
//! all violated field names are reported together, never short-circuited.

use vstd::prelude::*;
use vstd::utf8::encode_utf8;

use crate::error::ContractError;

verus! {

/// Whether `uuid::Uuid::parse_str` accepts the characters as a UUID.
pub uninterp spec fn uuid_valid(s: Seq<char>) -> bool;

/// Relies on uuid::Uuid::parse_str: acceptance depends on the characters
/// alone, and the parser returns a result for every input.
#[verifier::external_body]
fn parse_uuid_is_ok(s: &str) -> (r: bool)
    ensures
        r == uuid_valid(s@),
{
    uuid::Uuid::parse_str(s).is_ok()
}

/// The field names of `fields` are exactly `names`, in order.
pub open spec fn fields_match(fields: Seq<String>, names: Seq<Seq<char>>) -> bool {
    fields.len() == names.len() && (forall|i: int| 0 <= i < names.len() ==> fields[i]@ == names[i])
}

/// The error reports invalid fields named exactly `names`, in order.
pub open spec fn is_invalid_fields(e: ContractError, names: Seq<Seq<char>>) -> bool {
    match e {
        ContractError::InvalidFields { fields } => fields_match(fields@, names),
        _ => false,
    }
}

/// Syntactic validation of a request: `Ok` exactly when no field fails, else
/// the full set of offending field names in the order the fields are checked.
pub trait Validate: Sized {
    /// Names of the fields that fail validation, in the order checked.
    spec fn bad_fields(&self) -> Seq<Seq<char>>;

    /// Checks every rule independently and reports all violations together.
    fn validate(&self) -> (r: Result<(), ContractError>)
        ensures
            match r {
                Ok(()) => self.bad_fields().len() == 0,
                Err(e) => self.bad_fields().len() > 0 && is_invalid_fields(e, self.bad_fields()),
            },
    ;
}

/// The initialization request, run once before any other call is legal.
#[derive(Debug, PartialEq)]
pub struct InstantiateMsg {
    /// The single asset identifier the instance will accept.
    pub denom: String,
    /// Identity that receives settled funds on payment.
    pub recipient: String,
    /// Descriptive label, carried for display only.
    pub business_name: String,
}

impl Clone for InstantiateMsg {
    fn clone(&self) -> (r: InstantiateMsg)
        ensures
            r == *self,
    {
        InstantiateMsg {
            denom: self.denom.clone(),
            recipient: self.recipient.clone(),
            business_name: self.business_name.clone(),
        }
    }
}

impl Validate for InstantiateMsg {
    open spec fn bad_fields(&self) -> Seq<Seq<char>> {
        (if self.denom@.len() == 0 {
            seq!["denom"@]
        } else {
            Seq::<Seq<char>>::empty()
        }) + (if self.business_name@.len() == 0 {
            seq!["business_name"@]
        } else {
            Seq::<Seq<char>>::empty()
        })
    }

    fn validate(&self) -> (r: Result<(), ContractError>) {
        let mut invalid_fields: Vec<String> = Vec::new();
        if self.denom.as_str().is_empty() {
            invalid_fields.push("denom".to_owned());
        }
        if self.business_name.as_str().is_empty() {
            invalid_fields.push("business_name".to_owned());
        }
        proof {
            assert(fields_match(invalid_fields@, self.bad_fields()));
        }
        if invalid_fields.len() == 0 {
            Ok(())
        } else {
            Err(ContractError::InvalidFields { fields: invalid_fields })
        }
    }
}

/// The migration request. The module carries no state that migration would
/// change, so the request has no fields.
#[derive(Clone, Copy, Debug, PartialEq)]
pub struct MigrateMsg {}

/// A mutating request. The caller's identity and any attached funds arrive
/// beside it, supplied by the host.
#[derive(Debug, PartialEq)]
pub enum ExecuteMsg {
    /// Register an invoice under a fresh identifier.
    AddInvoice { id: String, amount: u128, description: Option<String> },
    /// Settle an invoice by matching its amount and asset exactly.
    PayInvoice { id: String },
    /// Remove an unpaid invoice; permitted to the administrator alone.
    CancelInvoice { id: String },
}

impl Clone for ExecuteMsg {
    fn clone(&self) -> (r: ExecuteMsg)
        ensures
            r == *self,
    {
        match self {
            ExecuteMsg::AddInvoice { id, amount, description } => ExecuteMsg::AddInvoice {
                id: id.clone(),
                amount: *amount,
                description: match description {
                    Some(d) => Some(d.clone()),
                    None => None,
                },
            },
            ExecuteMsg::PayInvoice { id } => ExecuteMsg::PayInvoice { id: id.clone() },
            ExecuteMsg::CancelInvoice { id } => ExecuteMsg::CancelInvoice { id: id.clone() },
        }
    }
}

impl Validate for ExecuteMsg {
    open spec fn bad_fields(&self) -> Seq<Seq<char>> {
        match self {
            ExecuteMsg::AddInvoice { id, amount, description } => (if !uuid_valid(id@) {
                seq!["id"@]
            } else {
                Seq::<Seq<char>>::empty()
            }) + (if *amount < 1 {
                seq!["amount"@]
            } else {
                Seq::<Seq<char>>::empty()
            }) + (match description {
                Some(d) => if d@.len() == 0 || encode_utf8(d@).len() > 64 {
                    seq!["description"@]
                } else {
                    Seq::<Seq<char>>::empty()
                },
                None => Seq::<Seq<char>>::empty(),
            }),
            ExecuteMsg::PayInvoice { id } => if !uuid_valid(id@) {
                seq!["id"@]
            } else {
                Seq::<Seq<char>>::empty()
            },
            ExecuteMsg::CancelInvoice { id } => if !uuid_valid(id@) {
                seq!["id"@]
            } else {
                Seq::<Seq<char>>::empty()
            },
        }
    }

    fn validate(&self) -> (r: Result<(), ContractError>) {
        let mut invalid_fields: Vec<String> = Vec::new();
        match self {
            ExecuteMsg::AddInvoice { id, amount, description } => {
                let ghost mut names: Seq<Seq<char>> = Seq::empty();
                if !parse_uuid_is_ok(id.as_str()) {
                    invalid_fields.push("id".to_owned());
                    proof {
                        names = names.push("id"@);
                    }
                }
                if *amount < 1 {
                    invalid_fields.push("amount".to_owned());
                    proof {
                        names = names.push("amount"@);
                    }
                }
                match description {
                    Some(d) => {
                        if d.as_str().is_empty() || d.as_str().as_bytes().len() > 64 {
                            invalid_fields.push("description".to_owned());
                            proof {
                                names = names.push("description"@);
                            }
                        }
                    },
                    None => {},
                }
                proof {
                    assert(fields_match(invalid_fields@, names));
                    assert(names =~= self.bad_fields());
                }
            },
            ExecuteMsg::PayInvoice { id } => {
                if !parse_uuid_is_ok(id.as_str()) {
                    invalid_fields.push("id".to_owned());
                }
            },
            ExecuteMsg::CancelInvoice { id } => {
                if !parse_uuid_is_ok(id.as_str()) {
                    invalid_fields.push("id".to_owned());
                }
            },
        }
        proof {
            assert(fields_match(invalid_fields@, self.bad_fields()));
        }
        if invalid_fields.len() == 0 {
            Ok(())
        } else {
            Err(ContractError::InvalidFields { fields: invalid_fields })
        }
    }
}

/// A read-only request.
#[derive(Debug, PartialEq)]
pub enum QueryMsg {
    /// Project a single invoice by identifier.
    GetInvoice { id: String },
    /// Project the configuration record.
    GetContractInfo {},
    /// Project the version record.
    GetVersionInfo {},
}

impl Clone for QueryMsg {
    fn clone(&self) -> (r: QueryMsg)
        ensures
            r == *self,
    {
        match self {
            QueryMsg::GetInvoice { id } => QueryMsg::GetInvoice { id: id.clone() },
            QueryMsg::GetContractInfo {  } => QueryMsg::GetContractInfo {  },
            QueryMsg::GetVersionInfo {  } => QueryMsg::GetVersionInfo {  },
        }
    }
}

impl Validate for QueryMsg {
    open spec fn bad_fields(&self) -> Seq<Seq<char>> {
        match self {
            QueryMsg::GetInvoice { id } => if !uuid_valid(id@) {
                seq!["id"@]
            } else {
                Seq::<Seq<char>>::empty()
            },
            QueryMsg::GetContractInfo {  } => Seq::<Seq<char>>::empty(),
            QueryMsg::GetVersionInfo {  } => Seq::<Seq<char>>::empty(),
        }
    }

    fn validate(&self) -> (r: Result<(), ContractError>) {
        let mut invalid_fields: Vec<String> = Vec::new();
        match self {
            QueryMsg::GetInvoice { id } => {
                if !parse_uuid_is_ok(id.as_str()) {
                    invalid_fields.push("id".to_owned());
                }
            },
            QueryMsg::GetContractInfo {  } => {},
            QueryMsg::GetVersionInfo {  } => {},
        }
        proof {
            assert(fields_match(invalid_fields@, self.bad_fields()));
        }
        if invalid_fields.len() == 0 {
            Ok(())
        } else {
            Err(ContractError::InvalidFields { fields: invalid_fields })
        }
    }
}

} // verus!
