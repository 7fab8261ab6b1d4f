//! The arithmetic of the contract: the cost of a vault, the split of a
//! mint's price, the dividend of a burn and the split of a sale. All of it
//! stays within unsigned 128 bits or yields no result.

use vstd::prelude::*;

verus! {

/// Price of one byte of storage.
pub const NEAR_PER_STORAGE: u128 = 10_000_000_000_000_000_000;

/// The least amount that a storage deposit may bring.
pub const STORAGE_PER_SALE: u128 = 1000 * NEAR_PER_STORAGE;

/// What a vault keeps in reserve for its own storage.
pub const VAULT_STORAGE: u128 = 19_800_000_000_000_000_000_000;

/// What it costs to deploy a vault whose code has `code_len` bytes.
pub open spec fn spec_minimum_needed(code_len: nat) -> nat {
    NEAR_PER_STORAGE as nat * code_len + VAULT_STORAGE as nat
}

/// The part of `mint_price` that goes to the vault.
pub open spec fn spec_vault_amount(mint_price: nat, percent: nat) -> nat {
    mint_price * percent / 100
}

/// What a burn hands out in all, before it is divided among the holders.
pub open spec fn spec_dividend_pool(mint_price: nat, percent: nat, burn_fee: nat) -> nat {
    mint_price * percent * burn_fee / 20000
}

/// What a burn credits to each of `holders_count` holders: the pool divided
/// by their number, rounded down a second time; nothing where there is
/// nobody to credit.
pub open spec fn spec_dividend_per_holder(
    mint_price: nat,
    percent: nat,
    burn_fee: nat,
    holders_count: nat,
) -> nat {
    if holders_count == 0 {
        0
    } else {
        spec_dividend_pool(mint_price, percent, burn_fee) / holders_count
    }
}

/// Share of `amount` given by `basis_points` out of ten thousand, rounded down.
pub open spec fn spec_royalty_to_payout(basis_points: nat, amount: nat) -> nat {
    basis_points * amount / 10000
}

/// How the price of a mint is divided.
#[derive(Debug, Clone, Copy, PartialEq, Eq, Structural)]
pub struct MintSplit {
    /// Escrowed in the token's vault.
    pub vault_amount: u128,
    /// Paid to the owner of the collection.
    pub owner_amount: u128,
}

/// How the proceeds of a sale are divided.
#[derive(Debug, Clone, Copy, PartialEq, Eq, Structural)]
pub struct SaleSplit {
    /// The royalty, for the owner of the collection.
    pub collection_cut: u128,
    /// The rest, for the seller.
    pub seller_cut: u128,
}

/// Computes `spec_minimum_needed`, which always fits.
pub fn minimum_needed(code_len: usize) -> (cost: u128)
    ensures
        cost == spec_minimum_needed(code_len as nat),
{
    let bytes: u128 = code_len as u128;
    NEAR_PER_STORAGE * bytes + VAULT_STORAGE
}

/// Divides the price of a mint between the vault and the owner of the
/// collection. There is no split where the product leaves 128 bits or the
/// vault's part would exceed the price.
pub fn mint_split(mint_price: u128, percent: u128) -> (split: Option<MintSplit>)
    ensures
        split.is_some() <==> mint_price * percent <= u128::MAX && spec_vault_amount(
            mint_price as nat,
            percent as nat,
        ) <= mint_price,
        split matches Some(s) ==> s.vault_amount == spec_vault_amount(
            mint_price as nat,
            percent as nat,
        ) && s.owner_amount == mint_price - s.vault_amount,
{
    match mint_price.checked_mul(percent) {
        Some(product) => {
            let vault_amount: u128 = product / 100;
            match mint_price.checked_sub(vault_amount) {
                Some(owner_amount) => Some(MintSplit { vault_amount, owner_amount }),
                None => None,
            }
        },
        None => None,
    }
}

/// Computes `spec_dividend_per_holder`. With holders to credit there is no
/// result where one of the two products leaves 128 bits.
pub fn burn_dividend(mint_price: u128, percent: u128, burn_fee: u128, holders_count: u128) -> (amount:
    Option<u128>)
    ensures
        amount.is_some() <==> holders_count == 0 || (mint_price * percent <= u128::MAX
            && mint_price * percent * burn_fee <= u128::MAX),
        amount matches Some(a) ==> a == spec_dividend_per_holder(
            mint_price as nat,
            percent as nat,
            burn_fee as nat,
            holders_count as nat,
        ),
{
    if holders_count == 0 {
        return Some(0);
    }
    match mint_price.checked_mul(percent) {
        Some(escrowed) => match escrowed.checked_mul(burn_fee) {
            Some(product) => Some(product / 20000 / holders_count),
            None => None,
        },
        None => None,
    }
}

/// Computes `spec_royalty_to_payout`; no result where the product leaves
/// 128 bits.
pub fn royalty_to_payout(basis_points: u128, amount: u128) -> (cut: Option<u128>)
    ensures
        cut.is_some() <==> basis_points * amount <= u128::MAX,
        cut matches Some(c) ==> c == spec_royalty_to_payout(basis_points as nat, amount as nat),
{
    match basis_points.checked_mul(amount) {
        Some(product) => Some(product / 10000),
        None => None,
    }
}

/// Divides the proceeds of a sale between the owner of the collection and
/// the seller. There is no split where the royalty is above ten thousand
/// basis points or a product leaves 128 bits.
pub fn sale_split(royalty: u128, balance: u128) -> (split: Option<SaleSplit>)
    ensures
        split.is_some() <==> royalty <= 10000 && royalty * balance <= u128::MAX && (10000
            - royalty) * balance <= u128::MAX,
        split matches Some(s) ==> s.collection_cut == spec_royalty_to_payout(
            royalty as nat,
            balance as nat,
        ) && s.seller_cut == spec_royalty_to_payout((10000 - royalty) as nat, balance as nat),
{
    let collection_cut = match royalty_to_payout(royalty, balance) {
        Some(cut) => cut,
        None => {
            return None;
        },
    };
    if royalty > 10000 {
        return None;
    }
    match royalty_to_payout(10000 - royalty, balance) {
        Some(seller_cut) => Some(SaleSplit { collection_cut, seller_cut }),
        None => None,
    }
}

/// With a percentage of at most one hundred the vault's part stays within
/// the price, so that the split exists whenever the product fits.
pub proof fn lemma_vault_amount_within_price(mint_price: nat, percent: nat)
    requires
        percent <= 100,
    ensures
        spec_vault_amount(mint_price, percent) <= mint_price,
{
    assert(mint_price * percent <= mint_price * 100) by (nonlinear_arith)
        requires
            percent <= 100,
    ;
}

/// What a burn credits to `holders_count` holders together never exceeds
/// the pool, and is nothing where nobody is left to credit.
pub proof fn lemma_dividends_within_pool(
    mint_price: nat,
    percent: nat,
    burn_fee: nat,
    holders_count: nat,
)
    ensures
        holders_count * spec_dividend_per_holder(mint_price, percent, burn_fee, holders_count)
            <= spec_dividend_pool(mint_price, percent, burn_fee),
        holders_count == 0 ==> spec_dividend_per_holder(
            mint_price,
            percent,
            burn_fee,
            holders_count,
        ) == 0,
{
    let pool = spec_dividend_pool(mint_price, percent, burn_fee);
    if holders_count > 0 {
        assert(holders_count * (pool / holders_count) <= pool) by (nonlinear_arith)
            requires
                holders_count > 0,
        ;
    }
}

/// The two cuts of a sale never exceed the proceeds and fall short of them
/// by at most one unit. They add up to the proceeds exactly when the royalty
/// divides them without remainder.
pub proof fn lemma_sale_split_within_balance(royalty: nat, balance: nat)
    requires
        royalty <= 10000,
    ensures
        spec_royalty_to_payout(royalty, balance) + spec_royalty_to_payout(
            (10000 - royalty) as nat,
            balance,
        ) <= balance,
        spec_royalty_to_payout(royalty, balance) + spec_royalty_to_payout(
            (10000 - royalty) as nat,
            balance,
        ) + 1 >= balance,
        spec_royalty_to_payout(royalty, balance) + spec_royalty_to_payout(
            (10000 - royalty) as nat,
            balance,
        ) == balance <==> (royalty * balance) % 10000 == 0,
{
    let x = royalty * balance;
    let y = (10000 - royalty) as nat * balance;
    assert(x + y == 10000 * balance) by (nonlinear_arith)
        requires
            x == royalty * balance,
            y == (10000 - royalty) as nat * balance,
            royalty <= 10000,
    ;
}

} // verus!
