use invoice::contract::{CRATE_NAME, PACKAGE_VERSION};
use invoice::host::{Attribute, Coin, MessageInfo};
use invoice::instantiate::instantiate;
use invoice::msg::InstantiateMsg;
use invoice::state::{State, Store};
use invoice::ContractError;

fn attr(key: &str, value: &str) -> Attribute {
    Attribute { key: key.to_string(), value: value.to_string() }
}

#[test]
fn proper_initialization() {
    let mut store = Store::new();
    let info = MessageInfo { sender: "contract_admin".to_string(), funds: vec![] };

    let denom = "unrestricted";
    let recipient_address = "recipient";
    let business_name = "please transfer me";

    let init_msg = InstantiateMsg {
        denom: denom.to_string(),
        recipient: recipient_address.to_string(),
        business_name: business_name.to_string(),
    };

    // the host reports the denom as an unrestricted marker and the
    // recipient as a well-formed address
    let init_response = instantiate(&mut store, &info, init_msg, true, true);

    // verify initialize response
    match init_response {
        Ok(init_response) => {
            assert_eq!(init_response.messages.len(), 0);

            assert_eq!(init_response.attributes.len(), 2);

            let expected_state = State {
                admin: info.sender,
                recipient: recipient_address.to_string(),
                denom: denom.to_string(),
                business_name: business_name.to_string(),
            };

            assert_eq!(
                init_response.attributes[0],
                attr("contract_info", &format!("{:?}", expected_state))
            );
            assert_eq!(init_response.attributes[1], attr("action", "init"));

            let version_info = store.load_version().expect("version info should be stored");

            assert_eq!(PACKAGE_VERSION, version_info.version);
            assert_eq!(CRATE_NAME, version_info.contract);
        }
        error => panic!("failed to initialize: {:?}", error),
    }
}

#[test]
fn initialization_with_funds_throws_error() {
    let mut store = Store::new();
    let info = MessageInfo {
        sender: "contract_admin".to_string(),
        funds: vec![Coin { denom: "unrestricted".to_string(), amount: 100 }],
    };

    let init_msg = InstantiateMsg {
        denom: "unrestricted".to_string(),
        recipient: "recipient".to_string(),
        business_name: "please transfer me".to_string(),
    };

    match instantiate(&mut store, &info, init_msg, true, true) {
        Ok(..) => panic!("expected error, but ok"),
        Err(ContractError::Std { .. }) => {}
        Err(error) => panic!("unexpected error: {:?}", error),
    }
    assert!(store.load_config().is_none());
}

#[test]
fn initialization_with_restricted_marker_throws_error() {
    let mut store = Store::new();
    let info = MessageInfo { sender: "contract_admin".to_string(), funds: vec![] };

    let init_msg = InstantiateMsg {
        denom: "restricted".to_string(),
        recipient: "recipient".to_string(),
        business_name: "please transfer me".to_string(),
    };

    match instantiate(&mut store, &info, init_msg, false, true) {
        Ok(..) => panic!("expected error, but ok"),
        Err(ContractError::UnsupportedMarkerType) => {}
        Err(error) => panic!("unexpected error: {:?}", error),
    }
    assert!(store.load_config().is_none());
}

#[test]
fn initialization_with_invalid_fields_throws_error() {
    let mut store = Store::new();
    let info = MessageInfo { sender: "contract_admin".to_string(), funds: vec![] };

    let init_msg = InstantiateMsg {
        denom: "".to_string(),
        recipient: "recipient".to_string(),
        business_name: "".to_string(),
    };

    match instantiate(&mut store, &info, init_msg, true, true) {
        Ok(..) => panic!("expected error, but ok"),
        Err(ContractError::InvalidFields { fields }) => {
            assert_eq!(fields, vec!["denom".to_string(), "business_name".to_string()]);
        }
        Err(error) => panic!("unexpected error: {:?}", error),
    }
    assert!(store.load_config().is_none());
}

#[test]
fn initialization_with_invalid_recipient_throws_error() {
    let mut store = Store::new();
    let info = MessageInfo { sender: "contract_admin".to_string(), funds: vec![] };

    let init_msg = InstantiateMsg {
        denom: "unrestricted".to_string(),
        recipient: "not an address".to_string(),
        business_name: "please transfer me".to_string(),
    };

    match instantiate(&mut store, &info, init_msg, true, false) {
        Ok(..) => panic!("expected error, but ok"),
        Err(ContractError::Std { .. }) => {}
        Err(error) => panic!("unexpected error: {:?}", error),
    }
    assert!(store.load_config().is_none());
}
