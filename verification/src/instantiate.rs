//! Initialization of a module instance: creates the configuration record
//! once, records the version metadata, and emits the init event.
//!
//! Two facts only the host can settle arrive as arguments: whether the named
//! asset class permits free transfer (the "unrestricted" marker check) and
//! whether the recipient is a well-formed address. The hosting shell asks
//! the host and passes the answers in; this function decides everything
//! else and is verified for every answer.

use vstd::prelude::*;
use vstd::string::StringExecFns;

use crate::contract::{CRATE_NAME, PACKAGE_VERSION};
use crate::error::{contract_err, ContractError};
use crate::host::{attr_is, Attribute, MessageInfo, Response};
use crate::msg::{is_invalid_fields, InstantiateMsg, Validate};
use crate::render::{contract_info_string, spec_contract_info};
use crate::state::{ContractVersion, State, Store};

verus! {

/// Full outcome of initialization: the request must validate, no funds may
/// be attached, the asset class must be unrestricted and the recipient
/// well-formed; then the configuration and version records are written and
/// the init event is emitted.
pub open spec fn instantiate_spec(
    pre: Store,
    post: Store,
    info: MessageInfo,
    msg: InstantiateMsg,
    marker_unrestricted: bool,
    recipient_valid: bool,
    r: Result<Response, ContractError>,
) -> bool {
    if msg.bad_fields().len() > 0 {
        post == pre && (r matches Err(e) && is_invalid_fields(e, msg.bad_fields()))
    } else if info.funds@.len() != 0 {
        post == pre && r matches Err(ContractError::Std { .. })
    } else if !marker_unrestricted {
        post == pre && r matches Err(ContractError::UnsupportedMarkerType)
    } else if !recipient_valid {
        post == pre && r matches Err(ContractError::Std { .. })
    } else {
        let cfg = State {
            admin: info.sender,
            recipient: msg.recipient,
            denom: msg.denom,
            business_name: msg.business_name,
        };
        &&& post.spec_config() == Some(cfg)
        &&& post.spec_version() matches Some(v) && v.contract@ == CRATE_NAME@ && v.version@
            == PACKAGE_VERSION@
        &&& post.spec_invoices() == pre.spec_invoices()
        &&& r matches Ok(resp) && resp.messages@.len() == 0 && resp.attributes@.len() == 2
            && attr_is(resp.attributes@[0], "contract_info"@, spec_contract_info(cfg)) && attr_is(
            resp.attributes@[1],
            "action"@,
            "init"@,
        )
    }
}

/// Creates the initial configuration state.
pub fn instantiate(
    store: &mut Store,
    info: &MessageInfo,
    msg: InstantiateMsg,
    marker_unrestricted: bool,
    recipient_valid: bool,
) -> (r: Result<Response, ContractError>)
    requires
        old(store).wf(),
    ensures
        final(store).wf(),
        instantiate_spec(
            *old(store),
            *final(store),
            *info,
            msg,
            marker_unrestricted,
            recipient_valid,
            r,
        ),
{
    match msg.validate() {
        Ok(()) => (),
        Err(e) => {
            return Err(e);
        },
    }
    if info.funds.len() != 0 {
        return Err(contract_err("no funds should be sent during instantiate"));
    }
    // only unrestricted markers are supported
    if !marker_unrestricted {
        return Err(ContractError::UnsupportedMarkerType);
    }
    if !recipient_valid {
        return Err(contract_err("recipient is not a valid address"));
    }
    let cfg = State {
        admin: info.sender.clone(),
        recipient: msg.recipient,
        denom: msg.denom,
        business_name: msg.business_name,
    };
    let rendered = contract_info_string(&cfg);
    store.save_config(cfg);
    store.set_version(
        ContractVersion { contract: CRATE_NAME.to_owned(), version: PACKAGE_VERSION.to_owned() },
    );
    let mut attributes: Vec<Attribute> = Vec::new();
    attributes.push(Attribute { key: "contract_info".to_owned(), value: rendered });
    attributes.push(Attribute { key: "action".to_owned(), value: "init".to_owned() });
    Ok(Response { attributes, messages: Vec::new() })
}

} // verus!
