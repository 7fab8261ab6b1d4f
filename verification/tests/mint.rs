use nft::{AccountId, Action, CallContext, Contract, Error, Receipt};

const MINIMUM: u128 = 19_900_000_000_000_000_000_000;
const TGAS: u64 = 1_000_000_000_000;

fn account(name: &str) -> AccountId {
    AccountId::parse(name).unwrap()
}

fn call(caller: &str, deposit: u128) -> CallContext {
    CallContext {
        predecessor: account(caller),
        current_account: account("nft.near"),
        attached_deposit: deposit,
    }
}

fn native(total_supply: u128) -> Contract {
    Contract::new(
        account("owner.near"),
        100,
        None,
        80,
        total_supply,
        500,
        account("treasury.near"),
        250,
        vec![7u8; 10],
    )
}

fn other_currency() -> Contract {
    Contract::new(
        account("owner.near"),
        100,
        Some(account("usdc.near")),
        80,
        0,
        500,
        account("treasury.near"),
        250,
        vec![7u8; 10],
    )
}

fn expect_call(receipt: &Receipt, receiver: &str, method: &str, args: &str, deposit: u128, tgas: u64) {
    assert_eq!(receipt.receiver.as_str(), receiver);
    assert_eq!(receipt.actions.len(), 1);
    match &receipt.actions[0] {
        Action::FunctionCall { method: m, args: a, deposit: d, gas: g } => {
            assert_eq!(m, method);
            assert_eq!(String::from_utf8(a.clone()).unwrap(), args);
            assert_eq!(*d, deposit);
            assert_eq!(*g, tgas * TGAS);
        }
        other => panic!("not a function call: {:?}", other),
    }
}

#[test]
fn new_contract_is_empty() {
    let contract = native(5);
    assert_eq!(contract.index(), 0);
    assert_eq!(contract.total_supply(), 5);
    assert_eq!(contract.total_holders(), 0);
    assert_eq!(contract.tokens.len(), 0);
    assert_eq!(contract.balance_of(account("alice.near")), 0);
    assert_eq!(contract.storage_balance_of(account("alice.near")), 0);
    assert_eq!(contract.ft_deposits_of(account("alice.near")), 0);
    assert_eq!(contract.mint_price, 100);
    assert_eq!(contract.payment_split_percent, 80);
    assert_eq!(contract.burn_fee, 500);
    assert_eq!(contract.royalty, 250);
    assert_eq!(contract.owner_id.as_str(), "owner.near");
    assert_eq!(contract.treasury.as_str(), "treasury.near");
    assert!(contract.mint_currency.is_none());
}

#[test]
fn mint_in_native_currency_routes_eighty_to_the_vault() {
    let mut contract = native(0);
    let provision = contract
        .nft_mint(&call("alice.near", 100 + MINIMUM), "t1".to_string(), account("alice.near"))
        .unwrap();
    assert_eq!(contract.index(), 1);
    assert_eq!(contract.total_holders(), 1);
    assert!(contract.holders.contains(&account("alice.near")));
    assert_eq!(contract.tokens.owner_of(&"t1".to_string()).unwrap().as_str(), "alice.near");

    let deploy = &provision.deploy;
    assert_eq!(deploy.receiver.as_str(), "t1.nft.near");
    assert_eq!(deploy.actions.len(), 4);
    assert!(matches!(deploy.actions[0], Action::CreateAccount));
    match &deploy.actions[1] {
        Action::DeployContract { code } => assert_eq!(code, &vec![7u8; 10]),
        other => panic!("not a deployment: {:?}", other),
    }
    match &deploy.actions[2] {
        Action::Transfer { amount } => assert_eq!(*amount, MINIMUM),
        other => panic!("not a transfer: {:?}", other),
    }
    match &deploy.actions[3] {
        Action::FunctionCall { method, args, deposit, gas } => {
            assert_eq!(method, "init");
            assert_eq!(String::from_utf8(args.clone()).unwrap(), r#"{"treasury":"treasury.near"}"#);
            assert_eq!(*deposit, 0);
            assert_eq!(*gas, 20 * TGAS);
        }
        other => panic!("not a function call: {:?}", other),
    }

    let resolve = &provision.resolve;
    assert_eq!(resolve.vault_account_id.as_str(), "t1.nft.near");
    assert_eq!(resolve.collection_owner.as_str(), "owner.near");
    assert_eq!(resolve.owner_amount, 20);
    assert_eq!(resolve.vault_amount, 80);
    assert_eq!(resolve.gas, 150 * TGAS);

    let receipts = contract.resolve_create(
        resolve.vault_account_id.clone(),
        &resolve.collection_owner,
        resolve.owner_amount,
        resolve.vault_amount,
    );
    assert_eq!(receipts.len(), 2);
    assert_eq!(receipts[0].receiver.as_str(), "owner.near");
    assert_eq!(receipts[0].actions.len(), 1);
    match &receipts[0].actions[0] {
        Action::Transfer { amount } => assert_eq!(*amount, 20),
        other => panic!("not a transfer: {:?}", other),
    }
    expect_call(&receipts[1], "t1.nft.near", "deposit_native", "{}", 80, 20);
}

#[test]
fn mint_accepts_more_than_the_price() {
    let mut contract = native(0);
    let minted =
        contract.nft_mint(&call("alice.near", 10 * MINIMUM), "t1".to_string(), account("alice.near"));
    assert!(minted.is_ok());
    assert_eq!(contract.index(), 1);
}

#[test]
fn mint_fails_one_unit_below_the_price() {
    let mut contract = native(0);
    let minted = contract.nft_mint(
        &call("alice.near", 100 + MINIMUM - 1),
        "t1".to_string(),
        account("alice.near"),
    );
    assert_eq!(minted.unwrap_err(), Error::InsufficientDeposit);
    assert_eq!(contract.index(), 0);
    assert_eq!(contract.total_holders(), 0);
    assert!(contract.tokens.owner_of(&"t1".to_string()).is_none());
}

#[test]
fn sixth_mint_fails_with_a_supply_of_five() {
    let mut contract = native(5);
    for i in 0..5 {
        let minted = contract.nft_mint(
            &call("alice.near", 100 + MINIMUM),
            format!("t{}", i),
            account("alice.near"),
        );
        assert!(minted.is_ok());
    }
    assert_eq!(contract.index(), 5);
    let sixth =
        contract.nft_mint(&call("bob.near", 100 + MINIMUM), "t5".to_string(), account("bob.near"));
    assert_eq!(sixth.unwrap_err(), Error::ExceededTotalSupply);
    assert_eq!(contract.index(), 5);
    assert_eq!(contract.tokens.len(), 5);
    assert!(contract.tokens.owner_of(&"t5".to_string()).is_none());
    assert!(!contract.holders.contains(&account("bob.near")));
}

#[test]
fn supply_of_zero_sets_no_limit() {
    let mut contract = native(0);
    for i in 0..20 {
        let minted = contract.nft_mint(
            &call("alice.near", 100 + MINIMUM),
            format!("t{}", i),
            account("alice.near"),
        );
        assert!(minted.is_ok());
    }
    assert_eq!(contract.index(), 20);
}

#[test]
fn mint_fails_when_the_counter_is_full() {
    let mut contract = native(0);
    contract.index = u128::MAX;
    let minted =
        contract.nft_mint(&call("alice.near", 100 + MINIMUM), "t1".to_string(), account("alice.near"));
    assert_eq!(minted.unwrap_err(), Error::Overflow);
    assert_eq!(contract.index(), u128::MAX);
}

#[test]
fn mint_fails_for_an_existing_token() {
    let mut contract = native(0);
    contract
        .nft_mint(&call("alice.near", 100 + MINIMUM), "t1".to_string(), account("alice.near"))
        .unwrap();
    let again =
        contract.nft_mint(&call("bob.near", 100 + MINIMUM), "t1".to_string(), account("bob.near"));
    assert_eq!(again.unwrap_err(), Error::TokenAlreadyExists);
    assert_eq!(contract.index(), 1);
    assert_eq!(contract.tokens.owner_of(&"t1".to_string()).unwrap().as_str(), "alice.near");
    assert!(!contract.holders.contains(&account("bob.near")));
}

#[test]
fn mint_fails_where_the_vault_has_no_valid_name() {
    let mut contract = native(0);
    let minted = contract.nft_mint(
        &call("alice.near", 100 + MINIMUM),
        "Bad Token".to_string(),
        account("alice.near"),
    );
    assert_eq!(minted.unwrap_err(), Error::InvalidVaultAccount);
    assert_eq!(contract.index(), 0);
    assert_eq!(contract.total_holders(), 0);
}

#[test]
fn mint_fails_where_the_split_exceeds_the_price() {
    let mut contract = native(0);
    contract.payment_split_percent = 101;
    let minted =
        contract.nft_mint(&call("alice.near", 100 + MINIMUM), "t1".to_string(), account("alice.near"));
    assert_eq!(minted.unwrap_err(), Error::Overflow);
    assert_eq!(contract.index(), 0);
}

#[test]
fn mint_fails_where_price_and_deployment_exceed_the_range() {
    let mut contract = native(0);
    contract.mint_price = u128::MAX;
    let minted =
        contract.nft_mint(&call("alice.near", u128::MAX), "t1".to_string(), account("alice.near"));
    assert_eq!(minted.unwrap_err(), Error::InsufficientDeposit);
}

#[test]
fn payment_is_checked_before_the_supply() {
    let mut contract = native(1);
    contract
        .nft_mint(&call("alice.near", 100 + MINIMUM), "t1".to_string(), account("alice.near"))
        .unwrap();
    let unpaid = contract.nft_mint(&call("bob.near", 0), "t2".to_string(), account("bob.near"));
    assert_eq!(unpaid.unwrap_err(), Error::InsufficientDeposit);
}

#[test]
fn the_caller_becomes_a_holder_whoever_owns_the_token() {
    let mut contract = native(0);
    contract
        .nft_mint(&call("alice.near", 100 + MINIMUM), "t1".to_string(), account("bob.near"))
        .unwrap();
    assert!(contract.holders.contains(&account("alice.near")));
    assert!(!contract.holders.contains(&account("bob.near")));
    assert_eq!(contract.tokens.owner_of(&"t1".to_string()).unwrap().as_str(), "bob.near");
}

#[test]
fn mint_in_another_currency_needs_a_deposit_in_it() {
    let mut contract = other_currency();
    let unpaid =
        contract.nft_mint(&call("alice.near", 100 + MINIMUM), "t1".to_string(), account("alice.near"));
    assert_eq!(unpaid.unwrap_err(), Error::InsufficientDeposit);
    contract.ft_deposits.set(&account("alice.near"), 99);
    let short =
        contract.nft_mint(&call("alice.near", MINIMUM), "t1".to_string(), account("alice.near"));
    assert_eq!(short.unwrap_err(), Error::InsufficientDeposit);
    contract.ft_deposits.set(&account("alice.near"), 100);
    let no_storage =
        contract.nft_mint(&call("alice.near", MINIMUM - 1), "t1".to_string(), account("alice.near"));
    assert_eq!(no_storage.unwrap_err(), Error::InsufficientDeposit);
    assert_eq!(contract.index(), 0);
}

#[test]
fn mint_in_another_currency_leaves_the_deposit_as_it_is() {
    let mut contract = other_currency();
    contract.ft_deposits.set(&account("alice.near"), 100);
    let provision = contract
        .nft_mint(&call("alice.near", MINIMUM), "t1".to_string(), account("alice.near"))
        .unwrap();
    assert_eq!(contract.ft_deposits_of(account("alice.near")), 100);
    assert_eq!(contract.index(), 1);
    match &provision.deploy.actions[3] {
        Action::FunctionCall { method, args, deposit, gas } => {
            assert_eq!(method, "init");
            assert_eq!(
                String::from_utf8(args.clone()).unwrap(),
                r#"{"ft_contract":"usdc.near","treasury":"treasury.near"}"#
            );
            assert_eq!(*deposit, 0);
            assert_eq!(*gas, 20 * TGAS);
        }
        other => panic!("not a function call: {:?}", other),
    }
}

#[test]
fn resolution_in_another_currency_makes_three_calls() {
    let contract = other_currency();
    let receipts =
        contract.resolve_create(account("t1.nft.near"), &account("owner.near"), 20, 80);
    assert_eq!(receipts.len(), 3);
    expect_call(
        &receipts[0],
        "usdc.near",
        "storage_deposit",
        r#"{"account_id":"t1.nft.near"}"#,
        100_000_000_000_000_000_000_000,
        20,
    );
    expect_call(
        &receipts[1],
        "usdc.near",
        "ft_transfer_call",
        r#"{"receiver_id":"t1.nft.near","amount":"80","msg":""}"#,
        1,
        50,
    );
    expect_call(
        &receipts[2],
        "usdc.near",
        "ft_transfer",
        r#"{"receiver_id":"owner.near","amount":"20","msg":""}"#,
        1,
        50,
    );
}

#[test]
fn error_reasons() {
    assert_eq!(Error::InsufficientDeposit.reason(), "Insufficient price to mint");
    assert_eq!(Error::ExceededTotalSupply.reason(), "Exceeded total supply");
    assert_eq!(Error::TokenNotFound.reason(), "Token not found");
    assert_eq!(Error::NotTokenOwner.reason(), "You don't own this NFT");
    assert_eq!(
        Error::BelowMinimumDeposit.reason(),
        "Requires minimum deposit of 10000000000000000000000"
    );
    assert_eq!(Error::SameOwner.reason(), "Current and next owner must differ");
}
