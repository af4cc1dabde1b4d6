use std::cell::Cell;

use cbadv::account::{
    account_resource, find_by_id_step, find_by_predicate, Account, Balance, ListAccountsParams,
    ListedAccounts, LookupStep,
};
use cbadv::utils::CBAdvError;

fn balance(v: &str, c: &str) -> Balance {
    Balance { value: v.to_string(), currency: c.to_string() }
}

fn account(uuid: &str, currency: &str) -> Account {
    Account {
        uuid: uuid.to_string(),
        name: format!("{} Wallet", currency),
        currency: currency.to_string(),
        available_balance: balance("1.25", currency),
        default: false,
        active: true,
        created_at: "2021-05-31T09:59:59Z".to_string(),
        updated_at: "2021-05-31T10:00:00Z".to_string(),
        deleted_at: None,
        account_type: "ACCOUNT_TYPE_CRYPTO".to_string(),
        ready: true,
        hold: balance("0", currency),
    }
}

fn page(currencies: &[&str], has_next: bool, cursor: &str) -> ListedAccounts {
    ListedAccounts {
        accounts: currencies.iter().map(|c| account(&format!("uuid-{}", c), c)).collect(),
        has_next,
        cursor: cursor.to_string(),
        size: currencies.len() as i32,
    }
}

#[test]
fn to_params_empty() {
    let params = ListAccountsParams { limit: None, cursor: None };
    assert_eq!(params.to_params(), "");
}

#[test]
fn to_params_limit_only() {
    let params = ListAccountsParams { limit: Some(250), cursor: None };
    assert_eq!(params.to_params(), "limit=250");
}

#[test]
fn to_params_cursor_only() {
    let params = ListAccountsParams { limit: None, cursor: Some("abc123".to_string()) };
    assert_eq!(params.to_params(), "cursor=abc123");
}

#[test]
fn to_params_limit_and_cursor() {
    let params = ListAccountsParams { limit: Some(49), cursor: Some("abc123".to_string()) };
    assert_eq!(params.to_params(), "limit=49&cursor=abc123");
}

#[test]
fn to_params_negative_limit() {
    let params = ListAccountsParams { limit: Some(-7), cursor: None };
    assert_eq!(params.to_params(), "limit=-7");
}

#[test]
fn default_params_are_unset() {
    let params = ListAccountsParams::default();
    assert!(params.limit.is_none());
    assert!(params.cursor.is_none());
}

#[test]
fn account_resource_appends_uuid() {
    assert_eq!(
        account_resource("1a2b3c"),
        "/api/v3/brokerage/accounts/1a2b3c"
    );
}

#[test]
fn step_finds_first_match() {
    let listed = page(&["BTC", "ETH", "ETH"], true, "next");
    match find_by_id_step("ETH", Some(5), listed) {
        LookupStep::Found(a) => assert_eq!(a.uuid, "uuid-ETH"),
        _ => panic!("expected Found"),
    }
}

#[test]
fn step_requests_next_page_with_cursor() {
    let listed = page(&["BTC"], true, "CURSOR-2");
    match find_by_id_step("ETH", Some(49), listed) {
        LookupStep::NextPage(p) => {
            assert_eq!(p.limit, Some(49));
            assert_eq!(p.cursor.as_deref(), Some("CURSOR-2"));
        },
        _ => panic!("expected NextPage"),
    }
}

#[test]
fn step_exhausts_when_no_next_page() {
    let listed = page(&["BTC"], false, "");
    match find_by_id_step("ETH", None, listed) {
        LookupStep::Exhausted => {},
        _ => panic!("expected Exhausted"),
    }
}

#[test]
fn pagination_finds_target_on_second_page() {
    let calls = Cell::new(0u32);
    let list_fn = |p: ListAccountsParams| -> Result<ListedAccounts, CBAdvError> {
        calls.set(calls.get() + 1);
        match p.cursor.as_deref() {
            None => Ok(page(&["BTC", "USD"], true, "CURSOR-2")),
            Some("CURSOR-2") => Ok(page(&["SOL", "ETH"], false, "")),
            other => panic!("unexpected cursor: {:?}", other),
        }
    };
    let found = find_by_predicate(list_fn, "ETH", ListAccountsParams::default(), 100);
    assert_eq!(calls.get(), 2);
    match found {
        Ok(a) => {
            assert_eq!(a.uuid, "uuid-ETH");
            assert_eq!(a.currency, "ETH");
        },
        Err(_) => panic!("expected the account"),
    }
}

#[test]
fn pagination_reports_not_found_after_last_page() {
    let calls = Cell::new(0u32);
    let list_fn = |p: ListAccountsParams| -> Result<ListedAccounts, CBAdvError> {
        calls.set(calls.get() + 1);
        match p.cursor.as_deref() {
            None => Ok(page(&["BTC", "USD"], true, "CURSOR-2")),
            Some("CURSOR-2") => Ok(page(&["SOL"], false, "")),
            other => panic!("unexpected cursor: {:?}", other),
        }
    };
    let found = find_by_predicate(list_fn, "DOGE", ListAccountsParams::default(), 100);
    assert_eq!(calls.get(), 2);
    match found {
        Err(CBAdvError::NotFound(m)) => assert_eq!(m, "no matching ids"),
        _ => panic!("expected NotFound"),
    }
}

#[test]
fn pagination_finds_target_on_first_page() {
    let calls = Cell::new(0u32);
    let list_fn = |_p: ListAccountsParams| -> Result<ListedAccounts, CBAdvError> {
        calls.set(calls.get() + 1);
        Ok(page(&["BTC", "ETH"], true, "CURSOR-2"))
    };
    let found = find_by_predicate(list_fn, "BTC", ListAccountsParams::default(), 100);
    assert_eq!(calls.get(), 1);
    assert_eq!(found.unwrap().currency, "BTC");
}

#[test]
fn pagination_with_no_budget_requests_nothing() {
    let list_fn = |_p: ListAccountsParams| -> Result<ListedAccounts, CBAdvError> {
        panic!("no page may be requested");
    };
    match find_by_predicate(list_fn, "ETH", ListAccountsParams::default(), 0) {
        Err(CBAdvError::NotFound(m)) => assert_eq!(m, "no matching ids"),
        _ => panic!("expected NotFound"),
    }
}

#[test]
fn pagination_propagates_listing_errors() {
    let list_fn = |_p: ListAccountsParams| -> Result<ListedAccounts, CBAdvError> {
        Err(CBAdvError::BadParse("accounts vector".to_string()))
    };
    match find_by_predicate(list_fn, "ETH", ListAccountsParams::default(), 100) {
        Err(CBAdvError::BadParse(m)) => assert_eq!(m, "accounts vector"),
        _ => panic!("expected BadParse"),
    }
}

#[test]
fn pagination_stops_at_the_page_budget() {
    let calls = Cell::new(0u32);
    let list_fn = |_p: ListAccountsParams| -> Result<ListedAccounts, CBAdvError> {
        calls.set(calls.get() + 1);
        Ok(page(&["BTC"], true, "again"))
    };
    match find_by_predicate(list_fn, "ETH", ListAccountsParams::default(), 3) {
        Err(CBAdvError::NotFound(m)) => assert_eq!(m, "no matching ids"),
        _ => panic!("expected NotFound"),
    }
    assert_eq!(calls.get(), 3);
}
