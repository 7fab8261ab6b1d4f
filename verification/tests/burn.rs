use nft::{AccountId, Action, BurnDividend, CallContext, Contract, Error};

const MINIMUM: u128 = 19_900_000_000_000_000_000_000;
const TGAS: u64 = 1_000_000_000_000;

fn account(name: &str) -> AccountId {
    AccountId::parse(name).unwrap()
}

fn call(caller: &str, deposit: u128) -> CallContext {
    CallContext {
        predecessor: account(caller),
        current_account: account("nft.near"),
        attached_deposit: deposit,
    }
}

// A pool of 1000 * 80 * 500 / 20000 = 2000 for every burn.
fn contract() -> Contract {
    Contract::new(
        account("owner.near"),
        1000,
        None,
        80,
        0,
        500,
        account("treasury.near"),
        250,
        vec![7u8; 10],
    )
}

fn mint(contract: &mut Contract, owner: &str, token: &str) {
    contract
        .nft_mint(&call(owner, 1000 + MINIMUM), token.to_string(), account(owner))
        .unwrap();
}

#[test]
fn burn_credits_the_other_holders() {
    let mut contract = contract();
    mint(&mut contract, "alice.near", "t1");
    mint(&mut contract, "bob.near", "t2");
    mint(&mut contract, "carol.near", "t3");
    let receipt = contract.burn(&call("alice.near", 1), "t1".to_string()).unwrap();

    assert!(contract.tokens.owner_of(&"t1".to_string()).is_none());
    assert_eq!(contract.tokens.len(), 2);
    assert!(!contract.holders.contains(&account("alice.near")));
    assert_eq!(contract.total_holders(), 2);
    assert_eq!(contract.balance_of(account("alice.near")), 0);
    assert_eq!(contract.balance_of(account("bob.near")), 1000);
    assert_eq!(contract.balance_of(account("carol.near")), 1000);
    assert_eq!(contract.index(), 3);

    assert_eq!(receipt.receiver.as_str(), "t1.nft.near");
    assert_eq!(receipt.actions.len(), 1);
    match &receipt.actions[0] {
        Action::FunctionCall { method, args, deposit, gas } => {
            assert_eq!(method, "withdraw");
            assert_eq!(
                String::from_utf8(args.clone()).unwrap(),
                r#"{"owner":"alice.near","burn_fee":"500"}"#
            );
            assert_eq!(*deposit, 1);
            assert_eq!(*gas, 100 * TGAS);
        }
        other => panic!("not a function call: {:?}", other),
    }
}

#[test]
fn burn_rounds_the_dividend_down() {
    let mut contract = contract();
    for (owner, token) in
        [("alice.near", "t1"), ("bob.near", "t2"), ("carol.near", "t3"), ("dave.near", "t4")]
    {
        mint(&mut contract, owner, token);
    }
    contract.burn(&call("alice.near", 1), "t1".to_string()).unwrap();
    for owner in ["bob.near", "carol.near", "dave.near"] {
        assert_eq!(contract.balance_of(account(owner)), 666);
    }
    assert!(3 * 666 <= 2000);
}

#[test]
fn burn_adds_to_what_a_holder_has() {
    let mut contract = contract();
    mint(&mut contract, "alice.near", "t1");
    mint(&mut contract, "alice.near", "t2");
    mint(&mut contract, "bob.near", "t3");
    contract.burn(&call("alice.near", 1), "t1".to_string()).unwrap();
    contract.burn(&call("alice.near", 1), "t2".to_string()).unwrap();
    // Half of the pool while alice was still a holder, then the whole of it.
    assert_eq!(contract.balance_of(account("bob.near")), 3000);
    assert_eq!(contract.balance_of(account("alice.near")), 0);
}

#[test]
fn burner_with_tokens_left_stays_a_holder_and_gets_nothing() {
    let mut contract = contract();
    mint(&mut contract, "alice.near", "t1");
    mint(&mut contract, "alice.near", "t2");
    mint(&mut contract, "bob.near", "t3");
    contract.burn(&call("alice.near", 1), "t1".to_string()).unwrap();
    assert!(contract.holders.contains(&account("alice.near")));
    assert_eq!(contract.total_holders(), 2);
    assert_eq!(contract.balance_of(account("alice.near")), 0);
    // The pool is divided by both holders; only bob is credited.
    assert_eq!(contract.balance_of(account("bob.near")), 1000);
    assert_eq!(contract.tokens.count_for(&account("alice.near")), 1);
}

#[test]
fn burner_with_tokens_left_counts_in_the_divisor() {
    let mut contract = Contract::new(
        account("owner.near"),
        1200,
        None,
        50,
        0,
        100,
        account("treasury.near"),
        0,
        vec![7u8; 10],
    );
    for (owner, token) in [("alice.near", "t1"), ("alice.near", "t2"), ("bob.near", "t3")] {
        contract
            .nft_mint(&call(owner, 1200 + MINIMUM), token.to_string(), account(owner))
            .unwrap();
    }
    contract.burn(&call("alice.near", 1), "t1".to_string()).unwrap();
    assert!(contract.holders.contains(&account("alice.near")));
    assert_eq!(contract.total_holders(), 2);
    assert_eq!(contract.balance_of(account("bob.near")), 150);
    assert_eq!(contract.balance_of(account("alice.near")), 0);
}

#[test]
fn burn_of_the_last_token_of_the_last_holder() {
    let mut contract = contract();
    mint(&mut contract, "alice.near", "t1");
    let receipt = contract.burn(&call("alice.near", 1), "t1".to_string()).unwrap();
    assert_eq!(contract.total_holders(), 0);
    assert!(!contract.holders.contains(&account("alice.near")));
    assert_eq!(contract.balances_by_owner.len(), 0);
    assert_eq!(contract.balance_of(account("alice.near")), 0);
    assert_eq!(contract.tokens.len(), 0);
    assert_eq!(receipt.receiver.as_str(), "t1.nft.near");
    assert!(matches!(&receipt.actions[0], Action::FunctionCall { method, .. } if method == "withdraw"));
}

#[test]
fn burn_by_another_account_fails() {
    let mut contract = contract();
    mint(&mut contract, "alice.near", "t1");
    mint(&mut contract, "bob.near", "t2");
    let result = contract.burn(&call("bob.near", 1), "t1".to_string());
    assert_eq!(result.unwrap_err(), Error::NotTokenOwner);
    assert_eq!(contract.tokens.owner_of(&"t1".to_string()).unwrap().as_str(), "alice.near");
    assert_eq!(contract.total_holders(), 2);
    assert_eq!(contract.balance_of(account("bob.near")), 0);
}

#[test]
fn burn_of_an_unknown_token_fails() {
    let mut contract = contract();
    mint(&mut contract, "alice.near", "t1");
    let result = contract.burn(&call("alice.near", 1), "t9".to_string());
    assert_eq!(result.unwrap_err(), Error::TokenNotFound);
    assert_eq!(contract.tokens.len(), 1);
}

#[test]
fn burn_fails_as_a_whole_where_one_credit_overflows() {
    let mut contract = contract();
    mint(&mut contract, "alice.near", "t1");
    mint(&mut contract, "bob.near", "t2");
    mint(&mut contract, "carol.near", "t3");
    contract.balances_by_owner.set(&account("carol.near"), u128::MAX - 999);
    let result = contract.burn(&call("alice.near", 1), "t1".to_string());
    assert_eq!(result.unwrap_err(), Error::Overflow);
    assert_eq!(contract.tokens.owner_of(&"t1".to_string()).unwrap().as_str(), "alice.near");
    assert!(contract.holders.contains(&account("alice.near")));
    assert_eq!(contract.balance_of(account("bob.near")), 0);
    assert_eq!(contract.balance_of(account("carol.near")), u128::MAX - 999);
}

#[test]
fn burn_fails_where_the_pool_overflows() {
    let mut contract = contract();
    mint(&mut contract, "alice.near", "t1");
    mint(&mut contract, "bob.near", "t2");
    contract.burn_fee = u128::MAX;
    let result = contract.burn(&call("alice.near", 1), "t1".to_string());
    assert_eq!(result.unwrap_err(), Error::Overflow);
    assert_eq!(contract.tokens.len(), 2);
    assert_eq!(contract.total_holders(), 2);
}

#[test]
fn pool_is_not_computed_without_holders_to_credit() {
    let mut contract = contract();
    mint(&mut contract, "alice.near", "t1");
    contract.burn_fee = u128::MAX;
    assert!(contract.burn(&call("alice.near", 1), "t1".to_string()).is_ok());
    assert_eq!(contract.total_holders(), 0);
}

#[test]
fn burn_without_any_holder_credits_nobody() {
    let mut contract = contract();
    contract.tokens.assign("t1".to_string(), account("bob.near"));
    contract.tokens.assign("t2".to_string(), account("bob.near"));
    let receipt = contract.burn(&call("bob.near", 1), "t1".to_string()).unwrap();
    assert_eq!(receipt.receiver.as_str(), "t1.nft.near");
    assert_eq!(contract.tokens.len(), 1);
    assert_eq!(contract.total_holders(), 0);
    assert_eq!(contract.balances_by_owner.len(), 0);
}

#[test]
fn burn_fails_where_the_vault_has_no_valid_name() {
    let mut contract = contract();
    contract.tokens.assign("Bad Token".to_string(), account("alice.near"));
    contract.holders.insert(&account("alice.near"));
    let result = contract.burn(&call("alice.near", 1), "Bad Token".to_string());
    assert_eq!(result.unwrap_err(), Error::InvalidVaultAccount);
    assert_eq!(contract.tokens.len(), 1);
    assert!(contract.holders.contains(&account("alice.near")));
}

#[test]
fn burn_by_an_owner_who_is_no_holder_stays_within_the_pool() {
    let mut contract = contract();
    // alice pays for two tokens that go to bob: alice is the holder, bob the owner.
    contract
        .nft_mint(&call("alice.near", 1000 + MINIMUM), "t1".to_string(), account("bob.near"))
        .unwrap();
    contract
        .nft_mint(&call("alice.near", 1000 + MINIMUM), "t2".to_string(), account("bob.near"))
        .unwrap();
    mint(&mut contract, "carol.near", "t3");
    contract.burn(&call("bob.near", 1), "t1".to_string()).unwrap();
    // Two holders are left and share the pool of 2000.
    assert_eq!(contract.balance_of(account("alice.near")), 1000);
    assert_eq!(contract.balance_of(account("carol.near")), 1000);
    assert_eq!(contract.balance_of(account("bob.near")), 0);
}

#[test]
fn burn_by_an_owner_who_is_no_holder_fails_where_the_pool_overflows() {
    let mut contract = contract();
    contract
        .nft_mint(&call("alice.near", 1000 + MINIMUM), "t1".to_string(), account("bob.near"))
        .unwrap();
    contract
        .nft_mint(&call("alice.near", 1000 + MINIMUM), "t2".to_string(), account("bob.near"))
        .unwrap();
    contract.burn_fee = u128::MAX;
    let result = contract.burn(&call("bob.near", 1), "t1".to_string());
    assert_eq!(result.unwrap_err(), Error::Overflow);
    assert_eq!(contract.tokens.owner_of(&"t1".to_string()).unwrap().as_str(), "bob.near");
    assert_eq!(contract.total_holders(), 1);
    assert_eq!(contract.balance_of(account("alice.near")), 0);
}

#[test]
fn dividend_of_burn_names_count_and_amount() {
    let mut contract = contract();
    mint(&mut contract, "alice.near", "t1");
    mint(&mut contract, "alice.near", "t2");
    mint(&mut contract, "bob.near", "t3");
    mint(&mut contract, "carol.near", "t4");
    // alice keeps a token: three holders are left.
    assert_eq!(
        contract.dividend_of_burn(&call("alice.near", 1), &"t1".to_string()),
        Some(BurnDividend { holders_count: 3, amount_to_holder: 666 })
    );
    // bob burns its last token: two holders are left.
    assert_eq!(
        contract.dividend_of_burn(&call("bob.near", 1), &"t3".to_string()),
        Some(BurnDividend { holders_count: 2, amount_to_holder: 1000 })
    );
    let before = contract.dividend_of_burn(&call("bob.near", 1), &"t3".to_string()).unwrap();
    contract.burn(&call("bob.near", 1), "t3".to_string()).unwrap();
    assert_eq!(contract.total_holders() as u128, before.holders_count);
    assert_eq!(contract.balance_of(account("carol.near")), before.amount_to_holder);
}

#[test]
fn dividend_of_burn_without_holders_left_is_nothing() {
    let mut contract = contract();
    mint(&mut contract, "alice.near", "t1");
    contract.burn_fee = u128::MAX;
    assert_eq!(
        contract.dividend_of_burn(&call("alice.near", 1), &"t1".to_string()),
        Some(BurnDividend { holders_count: 0, amount_to_holder: 0 })
    );
}

#[test]
fn dividend_of_burn_fails_where_the_pool_overflows() {
    let mut contract = contract();
    mint(&mut contract, "alice.near", "t1");
    mint(&mut contract, "bob.near", "t2");
    contract.burn_fee = u128::MAX;
    assert_eq!(contract.dividend_of_burn(&call("alice.near", 1), &"t1".to_string()), None);
}
