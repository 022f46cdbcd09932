use invoice::contract::{execute, query, QueryResponse};
use invoice::host::{BankMsg, Coin, MessageInfo};
use invoice::msg::{ExecuteMsg, QueryMsg};
use invoice::state::{Invoice, State, Store};
use invoice::ContractError;

const INVOICE_ID: &str = "63069195-bc51-41bd-80d7-0ab84b98e283";

fn configured_store(admin: &str, recipient: &str, denom: &str, business_name: &str) -> Store {
    let mut store = Store::new();
    store.save_config(State {
        admin: admin.to_string(),
        recipient: recipient.to_string(),
        denom: denom.to_string(),
        business_name: business_name.to_string(),
    });
    store
}

#[test]
fn add_pay_query_scenario() {
    let mut store = configured_store("A", "R", "d", "B");

    // Add{id, amount=100, description="x"} by A with no funds succeeds
    let admin_info = MessageInfo { sender: "A".to_string(), funds: vec![] };
    let add_msg = ExecuteMsg::AddInvoice {
        id: INVOICE_ID.to_string(),
        amount: 100,
        description: Some("x".to_string()),
    };
    let add_response = execute(&mut store, &admin_info, add_msg).expect("add should succeed");
    assert_eq!(add_response.messages.len(), 0);

    let stored = store
        .may_load_invoice(&INVOICE_ID.to_string())
        .expect("invoice should be stored");
    assert_eq!(
        *stored,
        Invoice { id: INVOICE_ID.to_string(), amount: 100, description: Some("x".to_string()) }
    );

    // Pay{id} by any caller with funds [100 d] succeeds and emits the
    // transfer instruction [100 d -> R]
    let payer_info = MessageInfo {
        sender: "anyone".to_string(),
        funds: vec![Coin { denom: "d".to_string(), amount: 100 }],
    };
    let pay_msg = ExecuteMsg::PayInvoice { id: INVOICE_ID.to_string() };
    let pay_response = execute(&mut store, &payer_info, pay_msg).expect("pay should succeed");
    assert_eq!(pay_response.messages.len(), 1);
    assert_eq!(
        pay_response.messages[0],
        BankMsg::Send {
            to_address: "R".to_string(),
            amount: vec![Coin { denom: "d".to_string(), amount: 100 }],
        }
    );

    // a subsequent query for the identifier reports not-found
    let query_msg = QueryMsg::GetInvoice { id: INVOICE_ID.to_string() };
    match query(&store, query_msg) {
        Ok(response) => panic!("expected not-found, but got {:?}", response),
        Err(ContractError::Std { .. }) => {}
        Err(error) => panic!("unexpected error: {:?}", error),
    }
}

#[test]
fn pay_rejects_zero_and_multiple_fund_entries() {
    let mut store = configured_store("A", "R", "d", "B");
    store.save_invoice(Invoice { id: INVOICE_ID.to_string(), amount: 100, description: None });

    // zero entries
    let no_funds = MessageInfo { sender: "payer".to_string(), funds: vec![] };
    let pay_msg = ExecuteMsg::PayInvoice { id: INVOICE_ID.to_string() };
    match execute(&mut store, &no_funds, pay_msg.clone()) {
        Err(ContractError::SentFundsInvoiceMismatch) => {}
        other => panic!("unexpected outcome: {:?}", other),
    }

    // two entries, even when one matches exactly
    let two_entries = MessageInfo {
        sender: "payer".to_string(),
        funds: vec![
            Coin { denom: "d".to_string(), amount: 100 },
            Coin { denom: "other".to_string(), amount: 1 },
        ],
    };
    match execute(&mut store, &two_entries, pay_msg) {
        Err(ContractError::SentFundsInvoiceMismatch) => {}
        other => panic!("unexpected outcome: {:?}", other),
    }

    // the invoice is still present
    assert!(store.may_load_invoice(&INVOICE_ID.to_string()).is_some());
}

#[test]
fn add_after_removal_is_permitted() {
    let mut store = configured_store("A", "R", "d", "B");
    let admin_info = MessageInfo { sender: "A".to_string(), funds: vec![] };

    let first_add = ExecuteMsg::AddInvoice {
        id: INVOICE_ID.to_string(),
        amount: 10,
        description: None,
    };
    execute(&mut store, &admin_info, first_add).expect("first add should succeed");

    let cancel = ExecuteMsg::CancelInvoice { id: INVOICE_ID.to_string() };
    execute(&mut store, &admin_info, cancel).expect("cancel should succeed");

    // re-adding a removed identifier is explicitly permitted
    let second_add = ExecuteMsg::AddInvoice {
        id: INVOICE_ID.to_string(),
        amount: 20,
        description: None,
    };
    execute(&mut store, &admin_info, second_add).expect("second add should succeed");

    let stored = store
        .may_load_invoice(&INVOICE_ID.to_string())
        .expect("invoice should be stored again");
    assert_eq!(stored.amount, 20);
}

#[test]
fn query_contract_info_and_version() {
    let store = configured_store("A", "R", "d", "B");

    match query(&store, QueryMsg::GetContractInfo {}) {
        Ok(QueryResponse::ContractInfo(state)) => {
            assert_eq!(state.admin, "A");
            assert_eq!(state.recipient, "R");
            assert_eq!(state.denom, "d");
            assert_eq!(state.business_name, "B");
        }
        other => panic!("unexpected outcome: {:?}", other),
    }

    // no version record was written in this store
    match query(&store, QueryMsg::GetVersionInfo {}) {
        Err(ContractError::Std { .. }) => {}
        other => panic!("unexpected outcome: {:?}", other),
    }

    // an empty store has no configuration either
    let empty = Store::new();
    match query(&empty, QueryMsg::GetContractInfo {}) {
        Err(ContractError::Std { .. }) => {}
        other => panic!("unexpected outcome: {:?}", other),
    }
}

#[test]
fn execute_without_configuration_fails() {
    let mut store = Store::new();
    let info = MessageInfo { sender: "A".to_string(), funds: vec![] };
    let add_msg = ExecuteMsg::AddInvoice {
        id: INVOICE_ID.to_string(),
        amount: 100,
        description: None,
    };

    match execute(&mut store, &info, add_msg) {
        Err(ContractError::Std { .. }) => {}
        other => panic!("unexpected outcome: {:?}", other),
    }
}

#[test]
fn amount_attribute_renders_exact_decimal() {
    let mut store = configured_store("A", "R", "d", "B");
    let admin_info = MessageInfo { sender: "A".to_string(), funds: vec![] };

    let add_msg = ExecuteMsg::AddInvoice {
        id: INVOICE_ID.to_string(),
        amount: 340282366920938463463374607431768211455,
        description: None,
    };
    let response = execute(&mut store, &admin_info, add_msg).expect("add should succeed");
    assert_eq!(response.attributes[3].key, "amount");
    assert_eq!(response.attributes[3].value, "340282366920938463463374607431768211455");
}
