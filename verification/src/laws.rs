//! What holds of the calls together: the holders follow the owners, the
//! dividends stay within the pool, a second withdrawal does nothing, the
//! supply cap holds, and deposits and settings stay where they are.

use crate::account::vault_account_name;
use crate::ledger::balance_in;
use crate::model::{
    burn_dividend_of, burn_holders, burn_holders_count, burn_outcome, burn_payees,
    initial_state, mint_outcome, resolve_transfer_outcome, storage_deposit_outcome,
    transfer_outcome, transfer_payout_outcome, withdraw_outcome, Call, State,
};
use crate::payout::{lemma_dividends_within_pool, spec_dividend_pool};
use crate::receipt::ReceiptView;
use crate::registry::{
    lemma_count_after_insert, lemma_count_after_remove, lemma_count_after_transfer, owned_count,
    tokens_owned,
};
use vstd::prelude::*;

verus! {

/// A contract starts with holders and owners in step: there are neither.
pub proof fn lemma_initial_state_is_consistent(
    owner_id: Seq<char>,
    mint_price: u128,
    mint_currency: Option<Seq<char>>,
    payment_split_percent: u128,
    total_supply: u128,
    burn_fee: u128,
    treasury: Seq<char>,
    royalty: u128,
    vault_code: Seq<u8>,
)
    ensures
        initial_state(
            owner_id,
            mint_price,
            mint_currency,
            payment_split_percent,
            total_supply,
            burn_fee,
            treasury,
            royalty,
            vault_code,
        ).finite(),
        initial_state(
            owner_id,
            mint_price,
            mint_currency,
            payment_split_percent,
            total_supply,
            burn_fee,
            treasury,
            royalty,
            vault_code,
        ).holders_consistent(),
{
    let start = initial_state(
        owner_id,
        mint_price,
        mint_currency,
        payment_split_percent,
        total_supply,
        burn_fee,
        treasury,
        royalty,
        vault_code,
    );
    assert forall|account: Seq<char>| #[trigger] owned_count(start.tokens, account) == 0 by {
        assert(tokens_owned(start.tokens, account) =~= Set::empty());
    }
}

/// Where the holders are exactly the accounts that own a token, they
/// still are after a mint, unless the caller mints for another account
/// while one of the two owns no token yet: the caller becomes a holder, the
/// other account an owner.
pub proof fn lemma_mint_keeps_holders_consistent(
    pre: State,
    call: Call,
    token_id: Seq<char>,
    token_owner: Seq<char>,
)
    requires
        pre.finite(),
        pre.holders_consistent(),
    ensures
        mint_outcome(pre, call, token_id, token_owner) matches Ok(done) ==> done.0.finite() && (
        done.0.holders_consistent() <==> token_owner == call.predecessor || (pre.holders.contains(
            call.predecessor,
        ) && pre.holders.contains(token_owner))),
{
    if let Ok(done) = mint_outcome(pre, call, token_id, token_owner) {
        let post = done.0;
        lemma_count_after_insert(pre.tokens, token_id, token_owner, call.predecessor);
        lemma_count_after_insert(pre.tokens, token_id, token_owner, token_owner);
        if token_owner == call.predecessor || (pre.holders.contains(call.predecessor)
            && pre.holders.contains(token_owner)) {
            assert forall|account: Seq<char>|
                post.holders.contains(account) <==> #[trigger] owned_count(post.tokens, account)
                    > 0 by {
                lemma_count_after_insert(pre.tokens, token_id, token_owner, account);
            }
        }
    }
}

/// Where the holders are exactly the accounts that own a token, they
/// still are after a transfer.
pub proof fn lemma_transfer_keeps_holders_consistent(
    pre: State,
    call: Call,
    receiver: Seq<char>,
    token_id: Seq<char>,
    approved: bool,
)
    requires
        pre.finite(),
        pre.holders_consistent(),
    ensures
        transfer_outcome(pre, call, receiver, token_id, approved) matches Ok(post) ==> post.finite()
            && post.holders_consistent(),
{
    if let Ok(post) = transfer_outcome(pre, call, receiver, token_id, approved) {
        let owner = pre.tokens[token_id];
        assert forall|account: Seq<char>|
            post.holders.contains(account) <==> #[trigger] owned_count(post.tokens, account)
                > 0 by {
            lemma_count_after_transfer(pre.tokens, token_id, receiver, account);
            lemma_count_after_transfer(pre.tokens, token_id, receiver, owner);
            lemma_count_after_transfer(pre.tokens, token_id, receiver, receiver);
        }
    }
}

/// Where the holders are exactly the accounts that own a token, they
/// still are after a transfer that reports a payout.
pub proof fn lemma_transfer_payout_keeps_holders_consistent(
    pre: State,
    call: Call,
    receiver: Seq<char>,
    token_id: Seq<char>,
    approved: bool,
    balance: Option<u128>,
)
    requires
        pre.finite(),
        pre.holders_consistent(),
    ensures
        transfer_payout_outcome(pre, call, receiver, token_id, approved, balance) matches Ok(done)
            ==> done.0.finite() && done.0.holders_consistent(),
{
    lemma_transfer_keeps_holders_consistent(pre, call, receiver, token_id, approved);
}

/// Where the holders are exactly the accounts that own a token, they
/// still are after a transfer with notification has ended, whether the
/// token stayed with the receiver or went back.
pub proof fn lemma_resolve_transfer_keeps_holders_consistent(
    pre: State,
    previous_owner: Seq<char>,
    receiver: Seq<char>,
    token_id: Seq<char>,
    must_revert: bool,
)
    requires
        pre.finite(),
        pre.holders_consistent(),
    ensures
        resolve_transfer_outcome(pre, previous_owner, receiver, token_id, must_revert).0.finite(),
        resolve_transfer_outcome(
            pre,
            previous_owner,
            receiver,
            token_id,
            must_revert,
        ).0.holders_consistent(),
{
    let post = resolve_transfer_outcome(pre, previous_owner, receiver, token_id, must_revert).0;
    if must_revert && pre.tokens.contains_key(token_id) && pre.tokens[token_id] == receiver {
        if previous_owner == receiver {
            assert(post.tokens =~= pre.tokens);
        } else {
            assert forall|account: Seq<char>|
                post.holders.contains(account) <==> #[trigger] owned_count(post.tokens, account)
                    > 0 by {
                lemma_count_after_transfer(pre.tokens, token_id, previous_owner, account);
                lemma_count_after_transfer(pre.tokens, token_id, previous_owner, receiver);
                lemma_count_after_transfer(pre.tokens, token_id, previous_owner, previous_owner);
            }
        }
    }
}

/// Where the holders are exactly the accounts that own a token, they
/// still are after a burn.
pub proof fn lemma_burn_keeps_holders_consistent(pre: State, call: Call, token_id: Seq<char>)
    requires
        pre.finite(),
        pre.holders_consistent(),
    ensures
        burn_outcome(pre, call, token_id) matches Ok(done) ==> done.0.finite()
            && done.0.holders_consistent(),
{
    if let Ok(done) = burn_outcome(pre, call, token_id) {
        let post = done.0;
        assert forall|account: Seq<char>|
            post.holders.contains(account) <==> #[trigger] owned_count(post.tokens, account)
                > 0 by {
            lemma_count_after_remove(pre.tokens, token_id, account);
            lemma_count_after_remove(pre.tokens, token_id, call.predecessor);
        }
    }
}

/// A burn divides the pool by the number of holders that are left and
/// credits every one of them but the caller, so that what they are
/// credited together never exceeds the pool. Where no holder is left, the
/// dividend is nothing.
pub proof fn lemma_burn_dividends_within_pool(pre: State, call: Call, token_id: Seq<char>)
    requires
        pre.finite(),
    ensures
        burn_payees(pre, call, token_id).finite(),
        burn_payees(pre, call, token_id).len() + (if burn_holders(pre, call, token_id).contains(
            call.predecessor,
        ) {
            1nat
        } else {
            0nat
        }) == burn_holders_count(pre, call, token_id),
        burn_payees(pre, call, token_id).len() * burn_dividend_of(pre, call, token_id)
            <= spec_dividend_pool(
            pre.mint_price as nat,
            pre.payment_split_percent as nat,
            pre.burn_fee as nat,
        ),
        burn_holders_count(pre, call, token_id) == 0 ==> burn_dividend_of(pre, call, token_id)
            == 0,
{
    let payees = burn_payees(pre, call, token_id).len();
    let count = burn_holders_count(pre, call, token_id);
    let each = burn_dividend_of(pre, call, token_id);
    lemma_dividends_within_pool(
        pre.mint_price as nat,
        pre.payment_split_percent as nat,
        pre.burn_fee as nat,
        count,
    );
    assert(payees * each <= count * each) by (nonlinear_arith)
        requires
            payees <= count,
    ;
}

/// Under one contract no two tokens share a vault.
pub proof fn lemma_vaults_are_distinct(first: Seq<char>, second: Seq<char>, contract: Seq<char>)
    ensures
        vault_account_name(first, contract) == vault_account_name(second, contract) ==> first
            == second,
{
    let one = vault_account_name(first, contract);
    let other = vault_account_name(second, contract);
    if one == other {
        assert(one.len() == first.len() + 1 + contract.len());
        assert(other.len() == second.len() + 1 + contract.len());
        assert forall|i: int| 0 <= i < first.len() implies first[i] == second[i] by {
            assert(one[i] == first[i]);
            assert(other[i] == second[i]);
        }
        assert(first =~= second);
    }
}

/// A mint routes the whole price: what goes to the vault and what goes to
/// the owner of the collection add up to it.
pub proof fn lemma_mint_routes_the_whole_price(
    pre: State,
    call: Call,
    token_id: Seq<char>,
    token_owner: Seq<char>,
)
    ensures
        mint_outcome(pre, call, token_id, token_owner) matches Ok(done)
            ==> done.1.resolve.owner_amount + done.1.resolve.vault_amount == pre.mint_price,
{
}

/// A burn adds the dividend to the balance of every holder that is left,
/// but for the caller, and changes no other balance: the caller never
/// receives a share of its own burn.
pub proof fn lemma_burn_credits_the_others(
    pre: State,
    call: Call,
    token_id: Seq<char>,
    account: Seq<char>,
)
    ensures
        burn_outcome(pre, call, token_id) matches Ok(done) ==> balance_in(
            done.0.balances_by_owner,
            account,
        ) == balance_in(pre.balances_by_owner, account) + (if done.0.holders.contains(account)
            && account != call.predecessor {
            burn_dividend_of(pre, call, token_id)
        } else {
            0
        }),
{
}

/// A second withdrawal straight after the first does nothing: the balance
/// is zero and stays so, and nothing is sent.
pub proof fn lemma_withdraw_twice(pre: State, call: Call)
    ensures
        balance_in(withdraw_outcome(pre, call).0.balances_by_owner, call.predecessor) == 0,
        withdraw_outcome(withdraw_outcome(pre, call).0, call) == (
            withdraw_outcome(pre, call).0,
            None::<ReceiptView>,
        ),
{
}

/// With a supply cap the counter of mints never passes it: a mint at the
/// cap is turned down, and one below it stays within.
pub proof fn lemma_mint_stays_within_supply(
    pre: State,
    call: Call,
    token_id: Seq<char>,
    token_owner: Seq<char>,
)
    requires
        pre.total_supply > 0,
    ensures
        pre.index >= pre.total_supply ==> mint_outcome(pre, call, token_id, token_owner).is_err(),
        mint_outcome(pre, call, token_id, token_owner) matches Ok(done) ==> done.0.index
            == pre.index + 1 && done.0.index <= pre.total_supply,
{
}

/// What accounts have deposited stays where it is: no call takes from a
/// storage deposit, and none touches the deposits in the other currency.
/// The counter of mints never goes down.
pub proof fn lemma_deposits_are_kept(
    pre: State,
    call: Call,
    token_id: Seq<char>,
    account: Seq<char>,
    named: Option<Seq<char>>,
    approved: bool,
    balance: Option<u128>,
    depositor: Seq<char>,
)
    ensures
        mint_outcome(pre, call, token_id, account) matches Ok(done) ==> done.0.storage_deposits
            == pre.storage_deposits && done.0.ft_deposits == pre.ft_deposits && done.0.index
            > pre.index,
        burn_outcome(pre, call, token_id) matches Ok(done) ==> done.0.storage_deposits
            == pre.storage_deposits && done.0.ft_deposits == pre.ft_deposits && done.0.index
            == pre.index,
        transfer_outcome(pre, call, account, token_id, approved) matches Ok(post)
            ==> post.storage_deposits == pre.storage_deposits && post.ft_deposits
            == pre.ft_deposits && post.index == pre.index,
        transfer_payout_outcome(pre, call, account, token_id, approved, balance) matches Ok(done)
            ==> done.0.storage_deposits == pre.storage_deposits && done.0.ft_deposits
            == pre.ft_deposits && done.0.index == pre.index,
        storage_deposit_outcome(pre, call, named) matches Ok(post) ==> balance_in(
            post.storage_deposits,
            depositor,
        ) >= balance_in(pre.storage_deposits, depositor) && post.ft_deposits == pre.ft_deposits
            && post.index == pre.index,
        withdraw_outcome(pre, call).0.storage_deposits == pre.storage_deposits,
        withdraw_outcome(pre, call).0.ft_deposits == pre.ft_deposits,
        withdraw_outcome(pre, call).0.index == pre.index,
{
}

/// No call changes what was fixed when the contract was set up.
pub proof fn lemma_settings_are_fixed(
    pre: State,
    call: Call,
    token_id: Seq<char>,
    account: Seq<char>,
    named: Option<Seq<char>>,
    approved: bool,
    balance: Option<u128>,
)
    ensures
        mint_outcome(pre, call, token_id, account) matches Ok(done) ==> done.0.same_settings(pre),
        burn_outcome(pre, call, token_id) matches Ok(done) ==> done.0.same_settings(pre),
        transfer_outcome(pre, call, account, token_id, approved) matches Ok(post)
            ==> post.same_settings(pre),
        transfer_payout_outcome(pre, call, account, token_id, approved, balance) matches Ok(done)
            ==> done.0.same_settings(pre),
        storage_deposit_outcome(pre, call, named) matches Ok(post) ==> post.same_settings(pre),
        withdraw_outcome(pre, call).0.same_settings(pre),
{
}

} // verus!
