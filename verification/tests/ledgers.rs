use nft::{AccountId, Action, CallContext, Contract, Error};

const MINIMUM_DEPOSIT: u128 = 10_000_000_000_000_000_000_000;
const TGAS: u64 = 1_000_000_000_000;

fn account(name: &str) -> AccountId {
    AccountId::parse(name).unwrap()
}

fn call(caller: &str, deposit: u128) -> CallContext {
    CallContext {
        predecessor: account(caller),
        current_account: account("nft.near"),
        attached_deposit: deposit,
    }
}

fn contract(currency: Option<&str>) -> Contract {
    Contract::new(
        account("owner.near"),
        100,
        currency.map(account),
        80,
        0,
        500,
        account("treasury.near"),
        250,
        vec![7u8; 10],
    )
}

#[test]
fn storage_deposit_below_the_minimum_fails() {
    let mut contract = contract(None);
    let result = contract.storage_deposit(&call("alice.near", MINIMUM_DEPOSIT - 1), None);
    assert_eq!(result.unwrap_err(), Error::BelowMinimumDeposit);
    assert_eq!(contract.storage_balance_of(account("alice.near")), 0);
    assert_eq!(contract.storage_deposits.len(), 0);
}

#[test]
fn storage_deposit_adds_up() {
    let mut contract = contract(None);
    contract.storage_deposit(&call("alice.near", MINIMUM_DEPOSIT), None).unwrap();
    assert_eq!(contract.storage_balance_of(account("alice.near")), MINIMUM_DEPOSIT);
    contract.storage_deposit(&call("alice.near", MINIMUM_DEPOSIT + 5), None).unwrap();
    assert_eq!(contract.storage_balance_of(account("alice.near")), 2 * MINIMUM_DEPOSIT + 5);
}

#[test]
fn storage_deposit_for_another_account() {
    let mut contract = contract(None);
    contract
        .storage_deposit(&call("alice.near", MINIMUM_DEPOSIT), Some(account("bob.near")))
        .unwrap();
    assert_eq!(contract.storage_balance_of(account("bob.near")), MINIMUM_DEPOSIT);
    assert_eq!(contract.storage_balance_of(account("alice.near")), 0);
}

#[test]
fn storage_deposit_fails_on_overflow() {
    let mut contract = contract(None);
    contract.storage_deposits.set(&account("alice.near"), u128::MAX - 1);
    let result = contract.storage_deposit(&call("alice.near", MINIMUM_DEPOSIT), None);
    assert_eq!(result.unwrap_err(), Error::Overflow);
    assert_eq!(contract.storage_balance_of(account("alice.near")), u128::MAX - 1);
}

#[test]
fn storage_deposit_touches_nothing_else() {
    let mut contract = contract(None);
    contract.storage_deposit(&call("alice.near", MINIMUM_DEPOSIT), None).unwrap();
    assert_eq!(contract.balance_of(account("alice.near")), 0);
    assert_eq!(contract.ft_deposits_of(account("alice.near")), 0);
    assert_eq!(contract.total_holders(), 0);
    assert_eq!(contract.index(), 0);
}

#[test]
fn withdraw_without_a_balance_does_nothing() {
    let mut contract = contract(None);
    assert!(contract.withdraw(&call("alice.near", 0)).is_none());
    assert_eq!(contract.balance_of(account("alice.near")), 0);
    assert_eq!(contract.balances_by_owner.len(), 0);
}

#[test]
fn withdraw_in_native_currency_transfers_the_balance() {
    let mut contract = contract(None);
    contract.balances_by_owner.set(&account("alice.near"), 1234);
    contract.balances_by_owner.set(&account("bob.near"), 5);
    let receipt = contract.withdraw(&call("alice.near", 0)).unwrap();
    assert_eq!(receipt.receiver.as_str(), "alice.near");
    assert_eq!(receipt.actions.len(), 1);
    match &receipt.actions[0] {
        Action::Transfer { amount } => assert_eq!(*amount, 1234),
        other => panic!("not a transfer: {:?}", other),
    }
    assert_eq!(contract.balance_of(account("alice.near")), 0);
    assert_eq!(contract.balance_of(account("bob.near")), 5);
}

#[test]
fn withdraw_in_another_currency_calls_its_contract() {
    let mut contract = contract(Some("usdc.near"));
    contract.balances_by_owner.set(&account("alice.near"), 1234);
    let receipt = contract.withdraw(&call("alice.near", 0)).unwrap();
    assert_eq!(receipt.receiver.as_str(), "usdc.near");
    assert_eq!(receipt.actions.len(), 1);
    match &receipt.actions[0] {
        Action::FunctionCall { method, args, deposit, gas } => {
            assert_eq!(method, "ft_transfer");
            assert_eq!(
                String::from_utf8(args.clone()).unwrap(),
                r#"{"receiver_id":"alice.near","amount":"1234"}"#
            );
            assert_eq!(*deposit, 1);
            assert_eq!(*gas, 20 * TGAS);
        }
        other => panic!("not a function call: {:?}", other),
    }
    assert_eq!(contract.balance_of(account("alice.near")), 0);
}

#[test]
fn second_withdraw_is_a_no_op() {
    let mut contract = contract(None);
    contract.balances_by_owner.set(&account("alice.near"), 1234);
    assert!(contract.withdraw(&call("alice.near", 0)).is_some());
    assert!(contract.withdraw(&call("alice.near", 0)).is_none());
    assert_eq!(contract.balance_of(account("alice.near")), 0);
}

#[test]
fn json_text_escapes_what_it_must() {
    let fields = vec![("a\"b".to_string(), "c\\d\n".to_string())];
    match Action::call("m", &fields, 3, 2) {
        Action::FunctionCall { method, args, deposit, gas } => {
            assert_eq!(method, "m");
            assert_eq!(String::from_utf8(args).unwrap(), r#"{"a\"b":"c\\d\n"}"#);
            assert_eq!(deposit, 3);
            assert_eq!(gas, 2 * TGAS);
        }
        other => panic!("not a function call: {:?}", other),
    }
}
