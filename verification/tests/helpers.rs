use admin_registry::contract::{
    admin_list, attached_amount, greet, is_authorized, split, validate_all,
};
use admin_registry::error::ContractError;
use admin_registry::msg::Verdict;
use admin_registry::response::{decimal, Response};
use admin_registry::state::{Coin, State};

fn owned(addrs: &[&str]) -> Vec<String> {
    addrs.iter().map(|a| a.to_string()).collect()
}

#[test]
fn is_authorized_is_membership() {
    let admins = owned(&["a", "b"]);
    assert!(is_authorized(&admins, &"a".to_owned()));
    assert!(is_authorized(&admins, &"b".to_owned()));
    assert!(!is_authorized(&admins, &"c".to_owned()));
    assert!(!is_authorized(&admins, &"A".to_owned()));
    assert!(!is_authorized(&admins, &"".to_owned()));
    assert!(!is_authorized(&vec![], &"a".to_owned()));
}

#[test]
fn validate_all_gathers_in_order() {
    let verdicts: Vec<Verdict> = vec![Ok("x".to_owned()), Ok("y".to_owned())];
    assert_eq!(validate_all(&verdicts), Ok(owned(&["x", "y"])));
    assert_eq!(validate_all(&vec![]), Ok(vec![]));
}

#[test]
fn validate_all_reports_first_refusal() {
    let verdicts: Vec<Verdict> =
        vec![Ok("x".to_owned()), Err("first".to_owned()), Err("second".to_owned())];
    assert_eq!(
        validate_all(&verdicts),
        Err(ContractError::Validation { reason: "first".to_owned() })
    );
}

#[test]
fn split_exact_values() {
    assert_eq!(split(5, 2), Some((2, 1)));
    assert_eq!(split(6, 3), Some((2, 0)));
    assert_eq!(split(0, 4), Some((0, 0)));
    assert_eq!(split(3, 4), Some((0, 3)));
    assert_eq!(split(u128::MAX, 1), Some((u128::MAX, 0)));
    assert_eq!(split(u128::MAX, 2), Some((u128::MAX / 2, 1)));
    assert_eq!(split(5, 0), None);
    assert_eq!(split(0, 0), None);
}

#[test]
fn attached_amount_takes_first_of_denom() {
    let funds = vec![
        Coin { denom: "atom".to_owned(), amount: 9 },
        Coin { denom: "cosmos".to_owned(), amount: 5 },
        Coin { denom: "cosmos".to_owned(), amount: 100 },
    ];
    assert_eq!(attached_amount(&funds, &"cosmos".to_owned()), 5);
    assert_eq!(attached_amount(&funds, &"atom".to_owned()), 9);
    assert_eq!(attached_amount(&funds, &"osmo".to_owned()), 0);
    assert_eq!(attached_amount(&vec![], &"cosmos".to_owned()), 0);
}

#[test]
fn decimal_exact_values() {
    assert_eq!(decimal(0), "0");
    assert_eq!(decimal(1), "1");
    assert_eq!(decimal(9), "9");
    assert_eq!(decimal(10), "10");
    assert_eq!(decimal(101), "101");
    assert_eq!(decimal(1234567890), "1234567890");
    assert_eq!(decimal(usize::MAX), usize::MAX.to_string());
}

#[test]
fn greet_says_hello_world() {
    assert_eq!(greet().message, "Hello World");
}

#[test]
fn admin_list_is_registry_verbatim() {
    let state = State { admins: owned(&["b", "a", "b"]), donation_denom: "cosmos".to_owned() };
    assert_eq!(admin_list(&state).admins, owned(&["b", "a", "b"]));
    assert_eq!(state.admins, owned(&["b", "a", "b"]));
}

#[test]
fn new_response_is_empty() {
    let r = Response::new();
    assert!(r.messages.is_empty());
    assert!(r.attributes.is_empty());
    assert!(r.events.is_empty());
}
