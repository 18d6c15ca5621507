use sbanken_cli::entities::{
    AccountObj, Accounts, AddressObj, Customer, CustomerObj, PhoneNumberObj, Render, SingleItem,
    TransactionObj, Transactions, TransferResponse,
};
use sbanken_cli::error::Error;
use sbanken_cli::interactive::{pick_account, picker_input, remove_account};

fn account(id: &str, number: &str, name: &str) -> AccountObj {
    AccountObj {
        account_id: id.to_string(),
        account_number: number.to_string(),
        owner_customer_id: "01017012345".to_string(),
        name: name.to_string(),
        account_type: "Standard account".to_string(),
        available: "500".to_string(),
        balance: "500".to_string(),
        credit_limit: "0".to_string(),
    }
}

fn accounts(items: Vec<AccountObj>, is_error: bool, message: Option<&str>) -> Accounts {
    Accounts {
        available_items: items.len() as i32,
        items,
        error_type: None,
        is_error,
        error_message: message.map(|m| m.to_string()),
        trace_id: None,
    }
}

fn address() -> AddressObj {
    AddressObj {
        address_line1: None,
        address_line2: None,
        address_line3: None,
        address_line4: None,
        country: Some("NO".to_string()),
        zip_code: None,
        city: None,
    }
}

fn transaction(specified: bool, reserved: bool) -> TransactionObj {
    TransactionObj {
        accounting_date: "2020-01-02T00:00:00".to_string(),
        interest_date: "2020-01-03T00:00:00".to_string(),
        other_account_number_specified: specified,
        other_account_number: Some("97104133219".to_string()),
        amount: "-49.9".to_string(),
        text: "Groceries".to_string(),
        transaction_type: "VISA".to_string(),
        transaction_type_code: 714,
        transaction_type_text: "Card".to_string(),
        is_reservation: reserved,
        reservation_type: None,
        card_details_specified: false,
        card_details: None,
        transaction_id: "tx-1".to_string(),
    }
}

#[test]
fn account_list_with_one_account() {
    let env = accounts(vec![account("a1", "123", "Savings")], false, None);
    let env = env.checked().unwrap();
    assert_eq!(env.items.len(), 1);
    assert_eq!(env.items[0].account_number, "123");
    let text = env.items[0].render();
    assert!(text.contains("123"));
    assert!(text.contains("Savings"));
    assert!(text.contains("Standard account"));
    assert!(text.contains("Available:\t500"));
    assert!(text.contains("Balance:\t500"));
}

#[test]
fn account_render_exact() {
    let a = account("a1", "123", "Savings");
    assert_eq!(
        a.render(),
        "Account Id:\ta1\nAccount Nr:\t123\nName:\t\tSavings\nType:\t\tStandard account\nAvailable:\t500\nBalance:\t500"
    );
}

#[test]
fn account_list_render_separates_items() {
    let env = accounts(vec![account("a1", "1", "X"), account("a2", "2", "Y")], false, None);
    let expected = format!("{}\n\n{}\n\n", env.items[0].render(), env.items[1].render());
    assert_eq!(env.render(), expected);
    assert_eq!(accounts(vec![], false, None).render(), "");
}

#[test]
fn single_account_render_is_item_render() {
    let a = SingleItem {
        item: account("a1", "123", "Savings"),
        error_type: None,
        error_message: None,
        is_error: false,
        trace_id: None,
    };
    assert_eq!(a.render(), a.item.render());
    assert!(a.checked().is_ok());
}

#[test]
fn envelope_error_is_remote_failure() {
    let env = accounts(vec![], true, Some("Customer not found"));
    match env.checked() {
        Err(Error::RemoteOperation(m)) => assert_eq!(m, "Customer not found"),
        other => panic!("unexpected {:?}", other),
    }
    let env = accounts(vec![], true, None);
    match env.checked() {
        Err(Error::RemoteOperation(m)) => assert_eq!(m, "the server reported an error"),
        other => panic!("unexpected {:?}", other),
    }
}

#[test]
fn transfer_failure_keeps_server_message() {
    let r = TransferResponse {
        error_type: Some("Validation".to_string()),
        is_error: true,
        error_message: Some("Insufficient funds".to_string()),
    };
    match r.outcome() {
        Err(Error::RemoteOperation(m)) => assert_eq!(m, "Insufficient funds"),
        other => panic!("unexpected {:?}", other),
    }
}

#[test]
fn transfer_failure_without_message() {
    for message in [None, Some(String::new())] {
        let r = TransferResponse { error_type: None, is_error: true, error_message: message };
        match r.outcome() {
            Err(Error::RemoteOperation(m)) => assert_eq!(m, "couldn't perform your transfer"),
            other => panic!("unexpected {:?}", other),
        }
    }
}

#[test]
fn transfer_success() {
    let r = TransferResponse { error_type: None, is_error: false, error_message: None };
    assert!(r.outcome().is_ok());
}

#[test]
fn transaction_render_with_other_account() {
    let t = transaction(true, true);
    assert_eq!(
        t.render(),
        "Accounting date:\t2020-01-02T00:00:00\nInterest date:\t\t2020-01-03T00:00:00\n\
         Other account number:\tSome(\"97104133219\")\nAmount:\t\t\t-49.9\n\
         Description:\t\tGroceries\nReserved:\t\tYes\nTransaction id:\t\ttx-1\n"
    );
}

#[test]
fn transaction_render_without_other_account() {
    let t = transaction(false, false);
    assert_eq!(
        t.render(),
        "Accounting date:\t2020-01-02T00:00:00\nInterest date:\t\t2020-01-03T00:00:00\n\
         Amount:\t\t\t-49.9\nDescription:\t\tGroceries\nReserved:\t\tNo\nTransaction id:\t\ttx-1\n"
    );
    let list = Transactions {
        available_items: 1,
        items: vec![t],
        error_type: None,
        is_error: false,
        error_message: None,
        trace_id: None,
    };
    assert!(list.render().ends_with("tx-1\n\n\n"));
}

#[test]
fn customer_render() {
    let c: Customer = SingleItem {
        item: CustomerObj {
            customer_id: "01017012345".to_string(),
            first_name: "Ola".to_string(),
            last_name: "Nordmann".to_string(),
            email_address: "ola@example.org".to_string(),
            date_of_birth: "1970-01-01".to_string(),
            postal_address: address(),
            street_address: address(),
            phone_numbers: vec![
                PhoneNumberObj { country_code: "47".to_string(), number: "12345678".to_string() },
                PhoneNumberObj { country_code: "46".to_string(), number: "87654321".to_string() },
            ],
        },
        error_type: None,
        error_message: None,
        is_error: false,
        trace_id: None,
    };
    assert_eq!(
        c.render(),
        "First name:\tOla\nLast name:\tNordmann\nEmail:\t\tola@example.org\nPhone numbers:\n\
         \t\t+47 12345678\n\t\t+46 87654321\n"
    );
}

#[test]
fn picker_input_lists_accounts() {
    let list = vec![account("a1", "123", "Savings"), account("a2", "456", "Spending")];
    assert_eq!(picker_input(&list), "Savings\t\t[nr: 123]\nSpending\t\t[nr: 456]\n");
    assert_eq!(picker_input(&vec![]), "");
}

#[test]
fn pick_account_by_number() {
    let list = vec![account("a1", "123", "Savings"), account("a2", "456", "Spending")];
    let a = pick_account(&list, "Spending\t\t[nr: 456]\n").unwrap();
    assert_eq!(a.account_id, "a2");
    let a = pick_account(&list, "Savings\t\t[nr: 123]").unwrap();
    assert_eq!(a.account_id, "a1");
}

#[test]
fn pick_account_failures() {
    let list = vec![account("a1", "123", "Savings")];
    assert!(matches!(pick_account(&list, "Other\t\t[nr: 999]\n"), Err(Error::NoAccountFound(_))));
    assert!(matches!(pick_account(&list, ""), Err(Error::Message(_))));
    assert!(matches!(pick_account(&list, "[nr: 123]"), Err(Error::Message(_))));
}

#[test]
fn remove_account_removes_first_match() {
    let mut list = vec![account("a1", "1", "X"), account("a2", "2", "Y"), account("a2", "3", "Z")];
    remove_account(&mut list, "a2");
    let numbers: Vec<&str> = list.iter().map(|a| a.account_number.as_str()).collect();
    assert_eq!(numbers, vec!["1", "3"]);
}

#[test]
fn remove_account_absent_leaves_list() {
    let mut list = vec![account("a1", "1", "X")];
    remove_account(&mut list, "zz");
    assert_eq!(list.len(), 1);
    let mut empty: Vec<AccountObj> = vec![];
    remove_account(&mut empty, "a1");
    assert!(empty.is_empty());
}
