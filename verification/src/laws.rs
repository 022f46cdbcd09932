//! Laws of the invoice lifecycle, proved from the operation contracts.
//!
//! Each proof function states one property the module guarantees across
//! calls: what a successful add makes queryable, how duplicates and missing
//! identifiers are rejected, when a payment settles, and that validation
//! reports every failing field together.

use vstd::prelude::*;

use crate::contract::{
    add_invoice_spec, cancel_invoice_spec, execute_spec, funds_match, pay_invoice_spec,
    query_spec, QueryResponse,
};
use crate::error::ContractError;
use crate::host::{BankMsg, Coin, MessageInfo, Response};
use crate::msg::{is_invalid_fields, uuid_valid, ExecuteMsg, QueryMsg, Validate};
use crate::state::{Invoice, Store};

verus! {

/// After a valid add of a fresh identifier succeeds, querying that
/// identifier returns an invoice with exactly the submitted amount and
/// description.
pub proof fn lemma_added_invoice_is_queryable(
    pre: Store,
    post: Store,
    info: MessageInfo,
    id: String,
    amount: u128,
    description: Option<String>,
    resp: Response,
    q: Result<QueryResponse, ContractError>,
)
    requires
        execute_spec(pre, post, info, ExecuteMsg::AddInvoice { id, amount, description }, Ok(resp)),
        query_spec(post, QueryMsg::GetInvoice { id }, q),
    ensures
        q == Ok::<QueryResponse, ContractError>(
            QueryResponse::Invoice(Invoice { id, amount, description }),
        ),
{
}

/// Adding the same identifier twice — even with a different amount — is
/// rejected the second time with the identifier as the invalid field, and
/// the original invoice is unchanged.
pub proof fn lemma_duplicate_add_rejected(
    pre: Store,
    mid: Store,
    post: Store,
    first: MessageInfo,
    second: MessageInfo,
    id: String,
    amount: u128,
    description: Option<String>,
    id2: String,
    amount2: u128,
    description2: Option<String>,
    resp: Response,
    r2: Result<Response, ContractError>,
)
    requires
        add_invoice_spec(pre, mid, first.sender, first.funds@, id, amount, description, Ok(resp)),
        add_invoice_spec(mid, post, second.sender, second.funds@, id2, amount2, description2, r2),
        id2@ == id@,
        second.sender@ == mid.spec_config()->Some_0.admin@,
        second.funds@.len() == 0,
    ensures
        r2 matches Err(e) && is_invalid_fields(e, seq!["id"@]),
        post == mid,
        post.spec_has_invoice(id@),
        post.spec_invoice(id@) == (Invoice { id, amount, description }),
{
}

/// Cancelling a nonexistent identifier fails with a load failure and leaves
/// the store unchanged.
pub proof fn lemma_cancel_missing_invoice(
    pre: Store,
    post: Store,
    info: MessageInfo,
    id: String,
    r: Result<Response, ContractError>,
)
    requires
        pre.spec_config() is Some,
        info.sender@ == pre.spec_config()->Some_0.admin@,
        info.funds@.len() == 0,
        !pre.spec_has_invoice(id@),
        cancel_invoice_spec(pre, post, info.sender, info.funds@, id, r),
    ensures
        post == pre,
        r matches Err(ContractError::LoadInvoiceFailed { .. }),
{
}

/// Paying a nonexistent identifier fails with a load failure and leaves the
/// store unchanged, whatever funds were attached.
pub proof fn lemma_pay_missing_invoice(
    pre: Store,
    post: Store,
    info: MessageInfo,
    id: String,
    r: Result<Response, ContractError>,
)
    requires
        pre.spec_config() is Some,
        !pre.spec_has_invoice(id@),
        pay_invoice_spec(pre, post, info.sender, info.funds@, id, r),
    ensures
        post == pre,
        r matches Err(ContractError::LoadInvoiceFailed { .. }),
{
}

/// A payment succeeds exactly when the attached funds are a single entry of
/// the configured asset in the invoice's amount; on any other combination
/// the store is unchanged and the mismatch is reported.
pub proof fn lemma_pay_settles_exactly_on_match(
    pre: Store,
    post: Store,
    info: MessageInfo,
    id: String,
    r: Result<Response, ContractError>,
)
    requires
        pre.spec_config() is Some,
        pre.spec_has_invoice(id@),
        pay_invoice_spec(pre, post, info.sender, info.funds@, id, r),
    ensures
        r is Ok <==> funds_match(
            info.funds@,
            pre.spec_config()->Some_0,
            pre.spec_invoice(id@).amount,
        ),
        !funds_match(info.funds@, pre.spec_config()->Some_0, pre.spec_invoice(id@).amount) ==> post
            == pre && r matches Err(ContractError::SentFundsInvoiceMismatch),
{
}

/// After a successful payment the invoice is absent and exactly one
/// settlement instruction directs the matched quantity and asset to the
/// configured recipient.
pub proof fn lemma_pay_emits_one_settlement(
    pre: Store,
    post: Store,
    info: MessageInfo,
    id: String,
    resp: Response,
)
    requires
        pay_invoice_spec(pre, post, info.sender, info.funds@, id, Ok(resp)),
    ensures
        !post.spec_has_invoice(id@),
        resp.messages@.len() == 1,
        resp.messages@[0] matches BankMsg::Send { to_address, amount } && to_address@
            == pre.spec_config()->Some_0.recipient@ && amount@.len() == 1 && amount@[0].denom@
            == pre.spec_config()->Some_0.denom@ && amount@[0].amount == pre.spec_invoice(
            id@,
        ).amount,
{
}

/// An add by any caller other than the administrator is rejected as
/// unauthorized, whatever the other fields hold, and changes nothing.
pub proof fn lemma_add_requires_admin(
    pre: Store,
    post: Store,
    sender: String,
    funds: Seq<Coin>,
    id: String,
    amount: u128,
    description: Option<String>,
    r: Result<Response, ContractError>,
)
    requires
        pre.spec_config() is Some,
        sender@ != pre.spec_config()->Some_0.admin@,
        add_invoice_spec(pre, post, sender, funds, id, amount, description, r),
    ensures
        post == pre,
        r matches Err(ContractError::Unauthorized { .. }),
{
}

/// A cancel by any caller other than the administrator is rejected as
/// unauthorized, whatever the other fields hold, and changes nothing.
pub proof fn lemma_cancel_requires_admin(
    pre: Store,
    post: Store,
    sender: String,
    funds: Seq<Coin>,
    id: String,
    r: Result<Response, ContractError>,
)
    requires
        pre.spec_config() is Some,
        sender@ != pre.spec_config()->Some_0.admin@,
        cancel_invoice_spec(pre, post, sender, funds, id, r),
    ensures
        post == pre,
        r matches Err(ContractError::Unauthorized { .. }),
{
}

/// An add with any funds attached is rejected even when the caller is the
/// administrator, and changes nothing.
pub proof fn lemma_add_refuses_funds(
    pre: Store,
    post: Store,
    sender: String,
    funds: Seq<Coin>,
    id: String,
    amount: u128,
    description: Option<String>,
    r: Result<Response, ContractError>,
)
    requires
        pre.spec_config() is Some,
        sender@ == pre.spec_config()->Some_0.admin@,
        funds.len() != 0,
        add_invoice_spec(pre, post, sender, funds, id, amount, description, r),
    ensures
        post == pre,
        r matches Err(ContractError::SentFundsUnsupported),
{
}

/// A cancel with any funds attached is rejected even when the caller is the
/// administrator, and changes nothing.
pub proof fn lemma_cancel_refuses_funds(
    pre: Store,
    post: Store,
    sender: String,
    funds: Seq<Coin>,
    id: String,
    r: Result<Response, ContractError>,
)
    requires
        pre.spec_config() is Some,
        sender@ == pre.spec_config()->Some_0.admin@,
        funds.len() != 0,
        cancel_invoice_spec(pre, post, sender, funds, id, r),
    ensures
        post == pre,
        r matches Err(ContractError::SentFundsUnsupported),
{
}

/// Validation is exhaustive, not short-circuited: an add whose amount and
/// description both fail reports both names, and when the identifier fails
/// too, all three names are reported together.
pub proof fn lemma_validation_is_exhaustive(id: String, amount: u128, description: String)
    requires
        amount < 1,
        description@.len() == 0,
    ensures
        !uuid_valid(id@) ==> (ExecuteMsg::AddInvoice {
            id,
            amount,
            description: Some(description),
        }).bad_fields() =~= seq!["id"@, "amount"@, "description"@],
        uuid_valid(id@) ==> (ExecuteMsg::AddInvoice {
            id,
            amount,
            description: Some(description),
        }).bad_fields() =~= seq!["amount"@, "description"@],
{
}

} // verus!
