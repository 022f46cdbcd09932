//! The invoice lifecycle manager and the query service.
//!
//! Each operation's outcome is characterized by a single spec predicate over
//! the store before the call, the store after it, the caller's identity and
//! funds, and the result. The predicates pin the error returned on every
//! rejected input and the exact effects and emitted attributes on success.

use vstd::prelude::*;
use vstd::string::StringExecFns;

use crate::error::ContractError;
use crate::host::{attr_is, Attribute, BankMsg, Coin, MessageInfo, Response};
use crate::msg::{is_invalid_fields, ExecuteMsg, QueryMsg, Validate};
use crate::render::{spec_decimal, u128_to_string};
use crate::state::{ContractVersion, Invoice, State, Store};

verus! {

/// Name recorded in the version metadata at initialization.
pub const CRATE_NAME: &'static str = "invoice";

/// Version recorded in the version metadata at initialization.
pub const PACKAGE_VERSION: &'static str = "0.1.0";

/// The lifecycle transition an event announces.
enum Action {
    Add,
    Cancel,
    Pay,
}

impl Action {
    /// The attribute value announcing the action.
    spec fn spec_label(self) -> Seq<char> {
        match self {
            Action::Add => "add_invoice"@,
            Action::Cancel => "cancel_invoice"@,
            Action::Pay => "pay_invoice"@,
        }
    }

    /// Renders the action for the `action` event attribute.
    fn label(&self) -> (s: String)
        ensures
            s@ == self.spec_label(),
    {
        match self {
            Action::Add => "add_invoice".to_owned(),
            Action::Cancel => "cancel_invoice".to_owned(),
            Action::Pay => "pay_invoice".to_owned(),
        }
    }
}

/// The five attributes every add or cancel event carries, in order.
pub open spec fn invoice_attrs(
    resp: Response,
    action: Seq<char>,
    id: Seq<char>,
    cfg: State,
    amount: u128,
) -> bool {
    &&& resp.attributes@.len() == 5
    &&& attr_is(resp.attributes@[0], "action"@, action)
    &&& attr_is(resp.attributes@[1], "id"@, id)
    &&& attr_is(resp.attributes@[2], "denom"@, cfg.denom@)
    &&& attr_is(resp.attributes@[3], "amount"@, spec_decimal(amount as nat))
    &&& attr_is(resp.attributes@[4], "recipient"@, cfg.recipient@)
}

/// The six attributes a pay event carries, in order.
pub open spec fn pay_attrs(
    resp: Response,
    id: Seq<char>,
    cfg: State,
    amount: u128,
    sender: Seq<char>,
) -> bool {
    &&& resp.attributes@.len() == 6
    &&& attr_is(resp.attributes@[0], "action"@, "pay_invoice"@)
    &&& attr_is(resp.attributes@[1], "id"@, id)
    &&& attr_is(resp.attributes@[2], "denom"@, cfg.denom@)
    &&& attr_is(resp.attributes@[3], "amount"@, spec_decimal(amount as nat))
    &&& attr_is(resp.attributes@[4], "sender"@, sender)
    &&& attr_is(resp.attributes@[5], "recipient"@, cfg.recipient@)
}

/// Invoices other than `id` are untouched between `pre` and `post`.
pub open spec fn others_unchanged(pre: Store, post: Store, id: Seq<char>) -> bool {
    &&& forall|k: Seq<char>| k != id ==> post.spec_has_invoice(k) == pre.spec_has_invoice(k)
    &&& forall|k: Seq<char>|
        k != id && pre.spec_has_invoice(k) ==> post.spec_invoice(k) == pre.spec_invoice(k)
}

/// Full outcome of adding an invoice whose fields already passed validation:
/// configuration must exist, the caller must be the administrator, no funds
/// may be attached, and the identifier must be fresh; then the invoice is
/// persisted exactly as given and the add event is emitted.
pub open spec fn add_invoice_spec(
    pre: Store,
    post: Store,
    sender: String,
    funds: Seq<Coin>,
    id: String,
    amount: u128,
    description: Option<String>,
    r: Result<Response, ContractError>,
) -> bool {
    match pre.spec_config() {
        None => post == pre && r matches Err(ContractError::Std { .. }),
        Some(cfg) => if sender@ != cfg.admin@ {
            post == pre && r matches Err(ContractError::Unauthorized { .. })
        } else if funds.len() != 0 {
            post == pre && r matches Err(ContractError::SentFundsUnsupported)
        } else if pre.spec_has_invoice(id@) {
            post == pre && (r matches Err(e) && is_invalid_fields(e, seq!["id"@]))
        } else {
            &&& post.spec_config() == pre.spec_config()
            &&& post.spec_version() == pre.spec_version()
            &&& post.spec_has_invoice(id@)
            &&& post.spec_invoice(id@) == (Invoice { id, amount, description })
            &&& others_unchanged(pre, post, id@)
            &&& r matches Ok(resp) && invoice_attrs(resp, "add_invoice"@, id@, cfg, amount)
                && resp.messages@.len() == 0
        },
    }
}

/// Full outcome of cancelling an invoice whose identifier already passed
/// validation: configuration must exist, the caller must be the
/// administrator, no funds may be attached, and the invoice must exist; then
/// it is removed and the cancel event is emitted with its stored amount.
pub open spec fn cancel_invoice_spec(
    pre: Store,
    post: Store,
    sender: String,
    funds: Seq<Coin>,
    id: String,
    r: Result<Response, ContractError>,
) -> bool {
    match pre.spec_config() {
        None => post == pre && r matches Err(ContractError::Std { .. }),
        Some(cfg) => if sender@ != cfg.admin@ {
            post == pre && r matches Err(ContractError::Unauthorized { .. })
        } else if funds.len() != 0 {
            post == pre && r matches Err(ContractError::SentFundsUnsupported)
        } else if !pre.spec_has_invoice(id@) {
            post == pre && r matches Err(ContractError::LoadInvoiceFailed { .. })
        } else {
            &&& post.spec_config() == pre.spec_config()
            &&& post.spec_version() == pre.spec_version()
            &&& !post.spec_has_invoice(id@)
            &&& others_unchanged(pre, post, id@)
            &&& r matches Ok(resp) && invoice_attrs(
                resp,
                "cancel_invoice"@,
                id@,
                cfg,
                pre.spec_invoice(id@).amount,
            ) && resp.messages@.len() == 0
        },
    }
}

/// The attached funds are exactly one entry whose asset is the configured
/// denom and whose quantity is the invoice's amount.
pub open spec fn funds_match(funds: Seq<Coin>, cfg: State, amount: u128) -> bool {
    funds.len() == 1 && funds[0].denom@ == cfg.denom@ && funds[0].amount == amount
}

/// Full outcome of paying an invoice whose identifier already passed
/// validation: configuration and invoice must exist and the attached funds
/// must match the invoice exactly; any caller may pay. On success the
/// invoice is removed and a single settlement instruction directs the
/// matched funds to the configured recipient.
pub open spec fn pay_invoice_spec(
    pre: Store,
    post: Store,
    sender: String,
    funds: Seq<Coin>,
    id: String,
    r: Result<Response, ContractError>,
) -> bool {
    match pre.spec_config() {
        None => post == pre && r matches Err(ContractError::Std { .. }),
        Some(cfg) => if !pre.spec_has_invoice(id@) {
            post == pre && r matches Err(ContractError::LoadInvoiceFailed { .. })
        } else if !funds_match(funds, cfg, pre.spec_invoice(id@).amount) {
            post == pre && r matches Err(ContractError::SentFundsInvoiceMismatch)
        } else {
            &&& post.spec_config() == pre.spec_config()
            &&& post.spec_version() == pre.spec_version()
            &&& !post.spec_has_invoice(id@)
            &&& others_unchanged(pre, post, id@)
            &&& r matches Ok(resp) && pay_attrs(
                resp,
                id@,
                cfg,
                pre.spec_invoice(id@).amount,
                sender@,
            ) && resp.messages@.len() == 1 && (resp.messages@[0] matches BankMsg::Send {
                to_address,
                amount,
            } && to_address@ == cfg.recipient@ && amount@.len() == 1 && amount@[0].denom@
                == cfg.denom@ && amount@[0].amount == pre.spec_invoice(id@).amount)
        },
    }
}

/// Full outcome of a mutating call: an invalid request is rejected with all
/// offending field names and no state change; a valid one is dispatched to
/// its lifecycle transition.
pub open spec fn execute_spec(
    pre: Store,
    post: Store,
    info: MessageInfo,
    msg: ExecuteMsg,
    r: Result<Response, ContractError>,
) -> bool {
    if msg.bad_fields().len() > 0 {
        post == pre && (r matches Err(e) && is_invalid_fields(e, msg.bad_fields()))
    } else {
        match msg {
            ExecuteMsg::AddInvoice { id, amount, description } => add_invoice_spec(
                pre,
                post,
                info.sender,
                info.funds@,
                id,
                amount,
                description,
                r,
            ),
            ExecuteMsg::PayInvoice { id } => pay_invoice_spec(
                pre,
                post,
                info.sender,
                info.funds@,
                id,
                r,
            ),
            ExecuteMsg::CancelInvoice { id } => cancel_invoice_spec(
                pre,
                post,
                info.sender,
                info.funds@,
                id,
                r,
            ),
        }
    }
}

/// Validates a mutating request and runs its lifecycle transition.
pub fn execute(store: &mut Store, info: &MessageInfo, msg: ExecuteMsg) -> (r: Result<
    Response,
    ContractError,
>)
    requires
        old(store).wf(),
    ensures
        final(store).wf(),
        execute_spec(*old(store), *final(store), *info, msg, r),
{
    match msg.validate() {
        Ok(()) => (),
        Err(e) => {
            return Err(e);
        },
    }
    match msg {
        ExecuteMsg::AddInvoice { id, amount, description } => add_invoice(
            store,
            info,
            id,
            amount,
            description,
        ),
        ExecuteMsg::PayInvoice { id } => pay_invoice(store, info, id),
        ExecuteMsg::CancelInvoice { id } => cancel_invoice(store, info, id),
    }
}

/// Creates and persists an invoice exactly as given.
fn add_invoice(
    store: &mut Store,
    info: &MessageInfo,
    id: String,
    amount: u128,
    description: Option<String>,
) -> (r: Result<Response, ContractError>)
    requires
        old(store).wf(),
    ensures
        final(store).wf(),
        add_invoice_spec(
            *old(store),
            *final(store),
            info.sender,
            info.funds@,
            id,
            amount,
            description,
            r,
        ),
{
    let cfg = match store.load_config() {
        Some(c) => c.clone(),
        None => {
            return Err(ContractError::Std { error: "contract information not found".to_owned() });
        },
    };
    if info.sender != cfg.admin {
        return Err(
            ContractError::Unauthorized { error: "Only admin can add invoice".to_owned() },
        );
    }
    if info.funds.len() != 0 {
        return Err(ContractError::SentFundsUnsupported);
    }
    if store.may_load_invoice(&id).is_some() {
        let mut fields: Vec<String> = Vec::new();
        fields.push("id".to_owned());
        return Err(ContractError::InvalidFields { fields });
    }
    let mut attributes: Vec<Attribute> = Vec::new();
    attributes.push(Attribute { key: "action".to_owned(), value: Action::Add.label() });
    attributes.push(Attribute { key: "id".to_owned(), value: id.clone() });
    attributes.push(Attribute { key: "denom".to_owned(), value: cfg.denom.clone() });
    attributes.push(Attribute { key: "amount".to_owned(), value: u128_to_string(amount) });
    attributes.push(Attribute { key: "recipient".to_owned(), value: cfg.recipient.clone() });
    store.save_invoice(Invoice { id, amount, description });
    Ok(Response { attributes, messages: Vec::new() })
}

/// Removes an unpaid invoice at the administrator's request.
fn cancel_invoice(store: &mut Store, info: &MessageInfo, id: String) -> (r: Result<
    Response,
    ContractError,
>)
    requires
        old(store).wf(),
    ensures
        final(store).wf(),
        cancel_invoice_spec(
            *old(store),
            *final(store),
            info.sender,
            info.funds@,
            id,
            r,
        ),
{
    let cfg = match store.load_config() {
        Some(c) => c.clone(),
        None => {
            return Err(ContractError::Std { error: "contract information not found".to_owned() });
        },
    };
    if info.sender != cfg.admin {
        return Err(
            ContractError::Unauthorized { error: "Only admin can cancel invoice".to_owned() },
        );
    }
    if info.funds.len() != 0 {
        return Err(ContractError::SentFundsUnsupported);
    }
    let invoice = match store.may_load_invoice(&id) {
        Some(inv) => inv.clone(),
        None => {
            return Err(
                ContractError::LoadInvoiceFailed {
                    error: "invoice was not found in storage".to_owned(),
                },
            );
        },
    };
    let mut attributes: Vec<Attribute> = Vec::new();
    attributes.push(Attribute { key: "action".to_owned(), value: Action::Cancel.label() });
    attributes.push(Attribute { key: "id".to_owned(), value: invoice.id.clone() });
    attributes.push(Attribute { key: "denom".to_owned(), value: cfg.denom.clone() });
    attributes.push(Attribute { key: "amount".to_owned(), value: u128_to_string(invoice.amount) });
    attributes.push(Attribute { key: "recipient".to_owned(), value: cfg.recipient.clone() });
    store.remove_invoice(&id);
    Ok(Response { attributes, messages: Vec::new() })
}

/// Settles an invoice: any caller, but the attached funds must match the
/// invoice exactly; emits the single settlement instruction.
fn pay_invoice(store: &mut Store, info: &MessageInfo, id: String) -> (r: Result<
    Response,
    ContractError,
>)
    requires
        old(store).wf(),
    ensures
        final(store).wf(),
        pay_invoice_spec(
            *old(store),
            *final(store),
            info.sender,
            info.funds@,
            id,
            r,
        ),
{
    let cfg = match store.load_config() {
        Some(c) => c.clone(),
        None => {
            return Err(ContractError::Std { error: "contract information not found".to_owned() });
        },
    };
    let invoice = match store.may_load_invoice(&id) {
        Some(inv) => inv.clone(),
        None => {
            return Err(
                ContractError::LoadInvoiceFailed {
                    error: "invoice was not found in storage".to_owned(),
                },
            );
        },
    };
    let funds_ok: bool = if info.funds.len() != 1 {
        false
    } else {
        let entry = &info.funds[0];
        entry.denom == cfg.denom && entry.amount == invoice.amount
    };
    if !funds_ok {
        return Err(ContractError::SentFundsInvoiceMismatch);
    }
    let mut attributes: Vec<Attribute> = Vec::new();
    attributes.push(Attribute { key: "action".to_owned(), value: Action::Pay.label() });
    attributes.push(Attribute { key: "id".to_owned(), value: invoice.id.clone() });
    attributes.push(Attribute { key: "denom".to_owned(), value: cfg.denom.clone() });
    attributes.push(Attribute { key: "amount".to_owned(), value: u128_to_string(invoice.amount) });
    attributes.push(Attribute { key: "sender".to_owned(), value: info.sender.clone() });
    attributes.push(Attribute { key: "recipient".to_owned(), value: cfg.recipient.clone() });
    let mut settlement: Vec<Coin> = Vec::new();
    settlement.push(Coin { denom: cfg.denom.clone(), amount: invoice.amount });
    let mut messages: Vec<BankMsg> = Vec::new();
    messages.push(BankMsg::Send { to_address: cfg.recipient.clone(), amount: settlement });
    store.remove_invoice(&id);
    Ok(Response { attributes, messages })
}

/// A read-only projection of one stored record.
#[derive(Debug, PartialEq)]
pub enum QueryResponse {
    /// The configuration record.
    ContractInfo(State),
    /// The version record.
    VersionInfo(ContractVersion),
    /// A single invoice.
    Invoice(Invoice),
}

/// Full outcome of a query: an invalid request is rejected with the
/// offending field names; otherwise the projected record is returned, or a
/// not-found failure if it is absent.
pub open spec fn query_spec(
    store: Store,
    msg: QueryMsg,
    r: Result<QueryResponse, ContractError>,
) -> bool {
    if msg.bad_fields().len() > 0 {
        r matches Err(e) && is_invalid_fields(e, msg.bad_fields())
    } else {
        match msg {
            QueryMsg::GetContractInfo {  } => match store.spec_config() {
                Some(cfg) => r == Ok::<QueryResponse, ContractError>(
                    QueryResponse::ContractInfo(cfg),
                ),
                None => r matches Err(ContractError::Std { .. }),
            },
            QueryMsg::GetVersionInfo {  } => match store.spec_version() {
                Some(v) => r == Ok::<QueryResponse, ContractError>(QueryResponse::VersionInfo(v)),
                None => r matches Err(ContractError::Std { .. }),
            },
            QueryMsg::GetInvoice { id } => if store.spec_has_invoice(id@) {
                r == Ok::<QueryResponse, ContractError>(
                    QueryResponse::Invoice(store.spec_invoice(id@)),
                )
            } else {
                r matches Err(ContractError::Std { .. })
            },
        }
    }
}

/// Validates a read-only request and projects the record it names.
pub fn query(store: &Store, msg: QueryMsg) -> (r: Result<QueryResponse, ContractError>)
    requires
        store.wf(),
    ensures
        query_spec(*store, msg, r),
{
    match msg.validate() {
        Ok(()) => (),
        Err(e) => {
            return Err(e);
        },
    }
    match msg {
        QueryMsg::GetContractInfo {  } => match store.load_config() {
            Some(cfg) => Ok(QueryResponse::ContractInfo(cfg.clone())),
            None => Err(ContractError::Std { error: "contract information not found".to_owned() }),
        },
        QueryMsg::GetVersionInfo {  } => match store.load_version() {
            Some(v) => Ok(QueryResponse::VersionInfo(v.clone())),
            None => Err(ContractError::Std { error: "version information not found".to_owned() }),
        },
        QueryMsg::GetInvoice { id } => match store.may_load_invoice(&id) {
            Some(inv) => Ok(QueryResponse::Invoice(inv.clone())),
            None => Err(ContractError::Std { error: "invoice not found".to_owned() }),
        },
    }
}

} // verus!
