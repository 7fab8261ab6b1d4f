//! The contract as a state machine over sets, maps and sequences: for
//! every call, the state it leaves behind and what it sends out.

use crate::account::{valid_account_name, vault_account_name};
use crate::error::Error;
use crate::ledger::balance_in;
use crate::payout::{
    spec_dividend_per_holder, spec_minimum_needed, spec_royalty_to_payout, spec_vault_amount,
    STORAGE_PER_SALE,
};
use crate::receipt::{
    json_call, ActionView, ProvisionView, ReceiptView, ResolutionView, MILLINEAR, TGAS,
};
use crate::registry::owned_count;
use crate::text::decimal_text;
use vstd::prelude::*;

verus! {

/// The state of the contract as plain mathematics: what was fixed when it
/// was set up, the counter of mints, who owns which token, the three
/// ledgers and the set of holders.
#[verifier::ext_equal]
pub struct State {
    pub owner_id: Seq<char>,
    pub tokens: Map<Seq<char>, Seq<char>>,
    pub index: u128,
    pub total_supply: u128,
    pub mint_price: u128,
    pub mint_currency: Option<Seq<char>>,
    pub payment_split_percent: u128,
    pub storage_deposits: Map<Seq<char>, u128>,
    pub ft_deposits: Map<Seq<char>, u128>,
    pub burn_fee: u128,
    pub balances_by_owner: Map<Seq<char>, u128>,
    pub holders: Set<Seq<char>>,
    pub treasury: Seq<char>,
    pub royalty: u128,
    pub vault_code: Seq<u8>,
}

/// What a call brings with it: who makes it, the contract's own account,
/// and the payment attached.
pub struct Call {
    pub predecessor: Seq<char>,
    pub current_account: Seq<char>,
    pub attached_deposit: u128,
}

impl State {
    /// Finitely many tokens and holders.
    pub open spec fn finite(self) -> bool {
        self.tokens.dom().finite() && self.holders.finite()
    }

    /// The holders are exactly the accounts that own a token.
    pub open spec fn holders_consistent(self) -> bool {
        forall|account: Seq<char>|
            self.holders.contains(account) <==> #[trigger] owned_count(self.tokens, account) > 0
    }

    /// What was fixed when the contract was set up is the same in both.
    pub open spec fn same_settings(self, other: State) -> bool {
        &&& self.owner_id == other.owner_id
        &&& self.total_supply == other.total_supply
        &&& self.mint_price == other.mint_price
        &&& self.mint_currency == other.mint_currency
        &&& self.payment_split_percent == other.payment_split_percent
        &&& self.burn_fee == other.burn_fee
        &&& self.treasury == other.treasury
        &&& self.royalty == other.royalty
        &&& self.vault_code == other.vault_code
    }
}

/// The state in which the contract starts: no token, no holder, empty
/// ledgers, counter at zero.
pub open spec fn initial_state(
    owner_id: Seq<char>,
    mint_price: u128,
    mint_currency: Option<Seq<char>>,
    payment_split_percent: u128,
    total_supply: u128,
    burn_fee: u128,
    treasury: Seq<char>,
    royalty: u128,
    vault_code: Seq<u8>,
) -> State {
    State {
        owner_id,
        tokens: Map::empty(),
        index: 0,
        total_supply,
        mint_price,
        mint_currency,
        payment_split_percent,
        storage_deposits: Map::empty(),
        ft_deposits: Map::empty(),
        burn_fee,
        balances_by_owner: Map::empty(),
        holders: Set::empty(),
        treasury,
        royalty,
        vault_code,
    }
}

/// Whether the caller has paid for a mint. The attached payment always
/// has to cover the vault's deployment. The price comes on top of it in
/// the native currency; in another currency it is covered by what the
/// caller has deposited before.
pub open spec fn mint_payment_covered(pre: State, call: Call) -> bool {
    let minimum = spec_minimum_needed(pre.vault_code.len());
    match pre.mint_currency {
        Some(_) => call.attached_deposit >= minimum && balance_in(
            pre.ft_deposits,
            call.predecessor,
        ) >= pre.mint_price,
        None => call.attached_deposit >= pre.mint_price + minimum,
    }
}

/// The arguments with which a new vault is initialised.
pub open spec fn init_fields(pre: State) -> Seq<(Seq<char>, Seq<char>)> {
    match pre.mint_currency {
        Some(currency) => seq![("ft_contract"@, currency), ("treasury"@, pre.treasury)],
        None => seq![("treasury"@, pre.treasury)],
    }
}

/// What a mint of `token_id` sets in motion: the vault's account is
/// created, the vault code deployed into it, its storage paid and the
/// vault initialised; then the contract is called back to route the price.
pub open spec fn provision_of(pre: State, call: Call, token_id: Seq<char>) -> ProvisionView {
    let vault = vault_account_name(token_id, call.current_account);
    let vault_amount = spec_vault_amount(pre.mint_price as nat, pre.payment_split_percent as nat);
    ProvisionView {
        deploy: ReceiptView {
            receiver: vault,
            actions: seq![
                ActionView::CreateAccount,
                ActionView::DeployContract { code: pre.vault_code },
                ActionView::Transfer { amount: spec_minimum_needed(pre.vault_code.len()) as u128 },
                json_call("init"@, init_fields(pre), 0, 20),
            ],
        },
        resolve: ResolutionView {
            vault_account_id: vault,
            collection_owner: pre.owner_id,
            owner_amount: (pre.mint_price - vault_amount) as u128,
            vault_amount: vault_amount as u128,
            gas: (150 * TGAS) as u64,
        },
    }
}

/// A mint, decided in this order: the payment, the supply cap, the split
/// of the price, the vault's account name, the token's identifier. On
/// success the caller becomes a holder, the counter goes up by one and the
/// token belongs to `token_owner`.
pub open spec fn mint_outcome(
    pre: State,
    call: Call,
    token_id: Seq<char>,
    token_owner: Seq<char>,
) -> Result<(State, ProvisionView), Error> {
    if !mint_payment_covered(pre, call) {
        Err(Error::InsufficientDeposit)
    } else if pre.index == u128::MAX {
        Err(Error::Overflow)
    } else if pre.total_supply > 0 && pre.index + 1 > pre.total_supply {
        Err(Error::ExceededTotalSupply)
    } else if pre.mint_price * pre.payment_split_percent > u128::MAX || spec_vault_amount(
        pre.mint_price as nat,
        pre.payment_split_percent as nat,
    ) > pre.mint_price {
        Err(Error::Overflow)
    } else if !valid_account_name(vault_account_name(token_id, call.current_account)) {
        Err(Error::InvalidVaultAccount)
    } else if pre.tokens.contains_key(token_id) {
        Err(Error::TokenAlreadyExists)
    } else {
        Ok(
            (
                State {
                    holders: pre.holders.insert(call.predecessor),
                    index: (pre.index + 1) as u128,
                    tokens: pre.tokens.insert(token_id, token_owner),
                    ..pre
                },
                provision_of(pre, call, token_id),
            ),
        )
    }
}

/// The calls that route the price of a mint. In another currency: the
/// vault is registered with the currency's contract, the vault's part is
/// sent to it with a notification, and the owner's part is sent to the
/// owner of the collection. In the native currency: the owner's part is
/// transferred, and the vault's part is attached to a deposit call on the
/// vault.
pub open spec fn resolve_create_receipts(
    pre: State,
    vault: Seq<char>,
    collection_owner: Seq<char>,
    owner_amount: u128,
    vault_amount: u128,
) -> Seq<ReceiptView> {
    match pre.mint_currency {
        Some(currency) => seq![
            ReceiptView {
                receiver: currency,
                actions: seq![
                    json_call(
                        "storage_deposit"@,
                        seq![("account_id"@, vault)],
                        (100 * MILLINEAR) as u128,
                        20,
                    ),
                ],
            },
            ReceiptView {
                receiver: currency,
                actions: seq![
                    json_call(
                        "ft_transfer_call"@,
                        seq![
                            ("receiver_id"@, vault),
                            ("amount"@, decimal_text(vault_amount as nat)),
                            ("msg"@, ""@),
                        ],
                        1,
                        50,
                    ),
                ],
            },
            ReceiptView {
                receiver: currency,
                actions: seq![
                    json_call(
                        "ft_transfer"@,
                        seq![
                            ("receiver_id"@, collection_owner),
                            ("amount"@, decimal_text(owner_amount as nat)),
                            ("msg"@, ""@),
                        ],
                        1,
                        50,
                    ),
                ],
            },
        ],
        None => seq![
            ReceiptView {
                receiver: collection_owner,
                actions: seq![ActionView::Transfer { amount: owner_amount }],
            },
            ReceiptView {
                receiver: vault,
                actions: seq![json_call("deposit_native"@, seq![], vault_amount, 20)],
            },
        ],
    }
}

/// A storage deposit for `account_id`, or for the caller where none is
/// named: turned down below the minimum, else added to what the account
/// has.
pub open spec fn storage_deposit_outcome(
    pre: State,
    call: Call,
    account_id: Option<Seq<char>>,
) -> Result<State, Error> {
    let account = match account_id {
        Some(named) => named,
        None => call.predecessor,
    };
    if call.attached_deposit < STORAGE_PER_SALE {
        Err(Error::BelowMinimumDeposit)
    } else if balance_in(pre.storage_deposits, account) + call.attached_deposit > u128::MAX {
        Err(Error::Overflow)
    } else {
        Ok(
            State {
                storage_deposits: pre.storage_deposits.insert(
                    account,
                    (balance_in(pre.storage_deposits, account) + call.attached_deposit) as u128,
                ),
                ..pre
            },
        )
    }
}

/// `balances` after `amount` has been added for each of `payees`.
pub open spec fn credited(
    balances: Map<Seq<char>, u128>,
    payees: Set<Seq<char>>,
    amount: u128,
) -> Map<Seq<char>, u128> {
    Map::new(
        |account: Seq<char>| balances.contains_key(account) || payees.contains(account),
        |account: Seq<char>|
            if payees.contains(account) {
                (balance_in(balances, account) + amount) as u128
            } else {
                balances[account]
            },
    )
}

/// Whether `amount` can be added for each of `payees`.
pub open spec fn credit_fits(
    balances: Map<Seq<char>, u128>,
    payees: Set<Seq<char>>,
    amount: u128,
) -> bool {
    forall|account: Seq<char>| #[trigger]
        payees.contains(account) ==> balance_in(balances, account) + amount <= u128::MAX
}

/// Whether the burn of `token_id` takes the caller's last token.
pub open spec fn burn_empties_owner(pre: State, call: Call, token_id: Seq<char>) -> bool {
    owned_count(pre.tokens.remove(token_id), call.predecessor) == 0
}

/// The holders after the burn of `token_id`: a caller whose last token it
/// was has left.
pub open spec fn burn_holders(pre: State, call: Call, token_id: Seq<char>) -> Set<Seq<char>> {
    if burn_empties_owner(pre, call, token_id) {
        pre.holders.remove(call.predecessor)
    } else {
        pre.holders
    }
}

/// By how many holders the burn of `token_id` divides: all the holders
/// that are left. A caller that keeps a token stays a holder and counts,
/// though it receives nothing.
pub open spec fn burn_holders_count(pre: State, call: Call, token_id: Seq<char>) -> nat {
    burn_holders(pre, call, token_id).len()
}

/// What the burn of `token_id` credits to each holder but the caller.
pub open spec fn burn_dividend_of(pre: State, call: Call, token_id: Seq<char>) -> nat {
    spec_dividend_per_holder(
        pre.mint_price as nat,
        pre.payment_split_percent as nat,
        pre.burn_fee as nat,
        burn_holders_count(pre, call, token_id),
    )
}

/// The accounts that the burn of `token_id` credits.
pub open spec fn burn_payees(pre: State, call: Call, token_id: Seq<char>) -> Set<Seq<char>> {
    burn_holders(pre, call, token_id).remove(call.predecessor)
}

/// A burn: only the owner may burn a token. The token leaves the registry,
/// its owner leaves the holders with its last token, the pool is divided by
/// the number of holders that are left, every one of them but the caller is
/// credited that dividend, and the token's vault is told to withdraw.
pub open spec fn burn_outcome(pre: State, call: Call, token_id: Seq<char>) -> Result<
    (State, ReceiptView),
    Error,
> {
    let count = burn_holders_count(pre, call, token_id);
    let amount = burn_dividend_of(pre, call, token_id) as u128;
    let payees = burn_payees(pre, call, token_id);
    let vault = vault_account_name(token_id, call.current_account);
    if !pre.tokens.contains_key(token_id) {
        Err(Error::TokenNotFound)
    } else if pre.tokens[token_id] != call.predecessor {
        Err(Error::NotTokenOwner)
    } else if count > 0 && (pre.mint_price * pre.payment_split_percent > u128::MAX
        || pre.mint_price * pre.payment_split_percent * pre.burn_fee > u128::MAX) {
        Err(Error::Overflow)
    } else if !credit_fits(pre.balances_by_owner, payees, amount) {
        Err(Error::Overflow)
    } else if !valid_account_name(vault) {
        Err(Error::InvalidVaultAccount)
    } else {
        Ok(
            (
                State {
                    tokens: pre.tokens.remove(token_id),
                    holders: burn_holders(pre, call, token_id),
                    balances_by_owner: credited(pre.balances_by_owner, payees, amount),
                    ..pre
                },
                ReceiptView {
                    receiver: vault,
                    actions: seq![
                        json_call(
                            "withdraw"@,
                            seq![
                                ("owner"@, call.predecessor),
                                ("burn_fee"@, decimal_text(pre.burn_fee as nat)),
                            ],
                            1,
                            100,
                        ),
                    ],
                },
            ),
        )
    }
}

/// How a balance leaves the contract: by a transfer call on the other
/// currency's contract, or by a native transfer to the caller.
pub open spec fn withdraw_receipt(pre: State, call: Call, balance: u128) -> ReceiptView {
    match pre.mint_currency {
        Some(currency) => ReceiptView {
            receiver: currency,
            actions: seq![
                json_call(
                    "ft_transfer"@,
                    seq![
                        ("receiver_id"@, call.predecessor),
                        ("amount"@, decimal_text(balance as nat)),
                    ],
                    1,
                    20,
                ),
            ],
        },
        None => ReceiptView {
            receiver: call.predecessor,
            actions: seq![ActionView::Transfer { amount: balance }],
        },
    }
}

/// A withdrawal: nothing happens without a balance; else the whole
/// balance is sent off and the entry set to zero.
pub open spec fn withdraw_outcome(pre: State, call: Call) -> (State, Option<ReceiptView>) {
    let balance = balance_in(pre.balances_by_owner, call.predecessor);
    if balance == 0 {
        (pre, None)
    } else {
        (
            State {
                balances_by_owner: pre.balances_by_owner.insert(call.predecessor, 0),
                ..pre
            },
            Some(withdraw_receipt(pre, call, balance)),
        )
    }
}

/// The holders after a token has passed from `owner` to `receiver`: the
/// owner leaves with its last token, and a receiver without tokens joins.
/// Both counts are those before the token moves.
pub open spec fn transfer_holders(pre: State, owner: Seq<char>, receiver: Seq<char>) -> Set<
    Seq<char>,
> {
    let without = if owned_count(pre.tokens, owner) == 1 {
        pre.holders.remove(owner)
    } else {
        pre.holders
    };
    if owned_count(pre.tokens, receiver) == 0 {
        without.insert(receiver)
    } else {
        without
    }
}

/// A transfer of `token_id` to `receiver`. `approved` says whether the
/// caller holds an approval for the token; the owner needs none.
pub open spec fn transfer_outcome(
    pre: State,
    call: Call,
    receiver: Seq<char>,
    token_id: Seq<char>,
    approved: bool,
) -> Result<State, Error> {
    if !pre.tokens.contains_key(token_id) {
        Err(Error::TokenNotFound)
    } else if call.attached_deposit != 1 {
        Err(Error::RequiresOneYocto)
    } else if call.predecessor != pre.tokens[token_id] && !approved {
        Err(Error::Unauthorized)
    } else if pre.tokens[token_id] == receiver {
        Err(Error::SameOwner)
    } else {
        Ok(
            State {
                tokens: pre.tokens.insert(token_id, receiver),
                holders: transfer_holders(pre, pre.tokens[token_id], receiver),
                ..pre
            },
        )
    }
}

/// How the proceeds `balance` of a sale by `seller` are divided: the
/// royalty for the owner of the collection, the rest for the seller. Where
/// the two are one account, it is reported with the seller's part.
pub open spec fn payout_of(pre: State, seller: Seq<char>, balance: u128) -> Map<Seq<char>, u128> {
    Map::<Seq<char>, u128>::empty().insert(
        pre.owner_id,
        spec_royalty_to_payout(pre.royalty as nat, balance as nat) as u128,
    ).insert(seller, spec_royalty_to_payout((10000 - pre.royalty) as nat, balance as nat) as u128)
}

/// A transfer that reports how the proceeds of the sale are to be divided,
/// where the caller names them.
pub open spec fn transfer_payout_outcome(
    pre: State,
    call: Call,
    receiver: Seq<char>,
    token_id: Seq<char>,
    approved: bool,
    balance: Option<u128>,
) -> Result<(State, Option<Map<Seq<char>, u128>>), Error> {
    if call.attached_deposit != 1 {
        Err(Error::RequiresOneYocto)
    } else {
        match transfer_outcome(pre, call, receiver, token_id, approved) {
            Err(e) => Err(e),
            Ok(post) => match balance {
                None => Ok((post, None)),
                Some(proceeds) => if pre.royalty > 10000 || pre.royalty * proceeds > u128::MAX || (
                10000 - pre.royalty) * proceeds > u128::MAX {
                    Err(Error::Overflow)
                } else {
                    Ok((post, Some(payout_of(pre, pre.tokens[token_id], proceeds))))
                },
            },
        }
    }
}

/// The end of a transfer with notification: where the receiver hands the
/// token back and still owns it, the token returns to its previous owner,
/// and the holders follow as in a transfer the other way: the receiver
/// leaves with its last token, and a previous owner without tokens joins.
/// The result says whether the receiver kept the token.
pub open spec fn resolve_transfer_outcome(
    pre: State,
    previous_owner: Seq<char>,
    receiver: Seq<char>,
    token_id: Seq<char>,
    must_revert: bool,
) -> (State, bool) {
    if must_revert && pre.tokens.contains_key(token_id) && pre.tokens[token_id] == receiver {
        (
            State {
                tokens: pre.tokens.insert(token_id, previous_owner),
                holders: if previous_owner == receiver {
                    pre.holders
                } else {
                    transfer_holders(pre, receiver, previous_owner)
                },
                ..pre
            },
            false,
        )
    } else {
        (pre, true)
    }
}

} // verus!
