//! The executable contract: its state and the calls on it, each proved
//! against the outcome that `model` states.

use crate::account::{AccountId, TokenId};
use crate::error::Error;
use crate::holders::HolderSet;
use crate::ledger::Ledger;
use crate::model::{
    burn_outcome, credit_fits, credited, initial_state, init_fields, mint_outcome, resolve_create_receipts, resolve_transfer_outcome,
    storage_deposit_outcome, transfer_outcome, transfer_payout_outcome, withdraw_outcome, Call,
    State,
};
use crate::payout::{burn_dividend, minimum_needed, mint_split, sale_split, STORAGE_PER_SALE};
use crate::receipt::{
    field_views, gas_from_tgas, yocto_from_millinear, Action, Provision, ProvisionView, Receipt,
    ReceiptView, Resolution,
};
use crate::registry::{lemma_count_after_remove, TokenRegistry};
use crate::text::decimal;
use vstd::prelude::*;

verus! {

/// What a call brings with it: who makes it, the contract's own account,
/// and the payment attached.
#[derive(Debug)]
pub struct CallContext {
    pub predecessor: AccountId,
    pub current_account: AccountId,
    pub attached_deposit: u128,
}

impl View for CallContext {
    type V = Call;

    open spec fn view(&self) -> Call {
        Call {
            predecessor: self.predecessor@,
            current_account: self.current_account@,
            attached_deposit: self.attached_deposit,
        }
    }
}

/// How the proceeds of a sale are to be divided among accounts.
#[derive(Debug)]
pub struct Payout {
    pub payout: Ledger,
}

impl View for Payout {
    type V = Map<Seq<char>, u128>;

    open spec fn view(&self) -> Map<Seq<char>, u128> {
        self.payout@
    }
}

/// By how many holders a burn divides, and what it credits to each of them
/// but the caller.
#[derive(Debug, Clone, Copy, PartialEq, Eq, Structural)]
pub struct BurnDividend {
    pub holders_count: u128,
    pub amount_to_holder: u128,
}

/// The name of the account in `account`, if there is one.
pub open spec fn account_view(account: Option<AccountId>) -> Option<Seq<char>> {
    match account {
        Some(a) => Some(a@),
        None => None,
    }
}

/// The view of the receipt in `receipt`, if there is one.
pub open spec fn receipt_view(receipt: Option<Receipt>) -> Option<ReceiptView> {
    match receipt {
        Some(r) => Some(r@),
        None => None,
    }
}

/// The view of the payout in `payout`, if there is one.
pub open spec fn payout_view(payout: Option<Payout>) -> Option<Map<Seq<char>, u128>> {
    match payout {
        Some(p) => Some(p@),
        None => None,
    }
}

/// The views of `receipts`, in order.
pub open spec fn receipt_views(receipts: Seq<Receipt>) -> Seq<ReceiptView> {
    receipts.map_values(|receipt: Receipt| receipt@)
}

/// A collection of tokens whose mints pay into per-token vaults and whose
/// burns pay a dividend to the remaining holders.
#[derive(Debug)]
pub struct Contract {
    /// The owner of the collection.
    pub owner_id: AccountId,
    /// Who owns which token.
    pub tokens: TokenRegistry,
    /// How many tokens have been minted.
    pub index: u128,
    /// The most tokens that may ever be minted; zero sets no limit.
    pub total_supply: u128,
    pub mint_price: u128,
    /// The currency in which the price is paid, where it is not the native
    /// one.
    pub mint_currency: Option<AccountId>,
    /// Of a hundred parts of the price, how many go to the vault.
    pub payment_split_percent: u128,
    /// What accounts have paid for storage.
    pub storage_deposits: Ledger,
    /// What accounts have deposited in `mint_currency` to mint with.
    pub ft_deposits: Ledger,
    pub burn_fee: u128,
    /// What holders have been credited and have not withdrawn.
    pub balances_by_owner: Ledger,
    pub holders: HolderSet,
    pub treasury: AccountId,
    /// The royalty on a sale, in basis points.
    pub royalty: u128,
    /// The code that runs in every vault.
    pub vault_code: Vec<u8>,
}

impl View for Contract {
    type V = State;

    open spec fn view(&self) -> State {
        State {
            owner_id: self.owner_id@,
            tokens: self.tokens@,
            index: self.index,
            total_supply: self.total_supply,
            mint_price: self.mint_price,
            mint_currency: account_view(self.mint_currency),
            payment_split_percent: self.payment_split_percent,
            storage_deposits: self.storage_deposits@,
            ft_deposits: self.ft_deposits@,
            burn_fee: self.burn_fee,
            balances_by_owner: self.balances_by_owner@,
            holders: self.holders@,
            treasury: self.treasury@,
            royalty: self.royalty,
            vault_code: self.vault_code@,
        }
    }
}

/// A member of a JSON object.
fn field(name: &str, value: String) -> (member: (String, String))
    ensures
        member.0@ == name@,
        member.1@ == value@,
{
    (String::from_str(name), value)
}

/// The holders among the first `i` of `order`, without `skip`.
spec fn walked(order: Seq<Seq<char>>, i: int, skip: Seq<char>) -> Set<Seq<char>> {
    Set::new(
        |account: Seq<char>|
            account != skip && exists|j: int| 0 <= j < i && #[trigger] order[j] == account,
    )
}

/// Whether `amount` can be added to the balance of every holder but
/// `skip`.
fn credit_would_fit(holders: &HolderSet, ledger: &Ledger, skip: &AccountId, amount: u128) -> (fits:
    bool)
    requires
        holders.wf(),
        ledger.wf(),
    ensures
        fits == credit_fits(ledger@, holders@.remove(skip@), amount),
{
    let n = holders.len();
    let mut i: usize = 0;
    while i < n
        invariant
            holders.wf(),
            ledger.wf(),
            n == holders.order().len(),
            i <= n,
            credit_fits(ledger@, walked(holders.order(), i as int, skip@), amount),
        decreases n - i,
    {
        let name = holders.name_at(i);
        if !(*name == *skip.name()) {
            if ledger.balance_of_name(name).checked_add(amount).is_none() {
                assert(holders@.remove(skip@).contains(name@));
                return false;
            }
        }
        proof {
            let order = holders.order();
            assert forall|account: Seq<char>| #[trigger]
                walked(order, i + 1, skip@).contains(account) implies crate::ledger::balance_in(
                ledger@,
                account,
            ) + amount <= u128::MAX by {
                let j = choose|j: int| 0 <= j < i + 1 && #[trigger] order[j] == account;
                if j < i {
                    assert(walked(order, i as int, skip@).contains(account));
                }
            }
        }
        i += 1;
    }
    proof {
        holders.lemma_order();
        let order = holders.order();
        assert forall|account: Seq<char>| #[trigger]
            holders@.remove(skip@).contains(account) implies crate::ledger::balance_in(
            ledger@,
            account,
        ) + amount <= u128::MAX by {
            assert(walked(order, i as int, skip@).contains(account));
        }
    }
    true
}

/// Adds `amount` to the balance of every holder but `skip`.
fn credit_holders(holders: &HolderSet, ledger: &mut Ledger, skip: &AccountId, amount: u128)
    requires
        holders.wf(),
        old(ledger).wf(),
        credit_fits(old(ledger)@, holders@.remove(skip@), amount),
    ensures
        final(ledger).wf(),
        final(ledger)@ == credited(old(ledger)@, holders@.remove(skip@), amount),
{
    let ghost before = ledger@;
    let ghost order = holders.order();
    let n = holders.len();
    let mut i: usize = 0;
    proof {
        holders.lemma_order();
    }
    while i < n
        invariant
            holders.wf(),
            ledger.wf(),
            order == holders.order(),
            order.no_duplicates(),
            order.to_set() == holders@,
            n == order.len(),
            i <= n,
            credit_fits(before, holders@.remove(skip@), amount),
            ledger@ == credited(before, walked(order, i as int, skip@), amount),
        decreases n - i,
    {
        let name = holders.name_at(i);
        if !(*name == *skip.name()) {
            proof {
                assert(holders@.remove(skip@).contains(name@));
            }
            let balance = ledger.balance_of_name(name);
            ledger.set_name(name, balance + amount);
        }
        i += 1;
    }
}

impl Contract {
    /// Every part of the state is well formed.
    pub open spec fn wf(&self) -> bool {
        &&& self.tokens.wf()
        &&& self.storage_deposits.wf()
        &&& self.ft_deposits.wf()
        &&& self.balances_by_owner.wf()
        &&& self.holders.wf()
    }

    /// A well-formed contract has finitely many tokens and holders.
    pub proof fn lemma_finite(&self)
        requires
            self.wf(),
        ensures
            self@.finite(),
    {
        self.tokens.lemma_finite();
        self.holders.lemma_order();
    }

    /// Sets the contract up: no token, no holder, empty ledgers.
    pub fn new(
        owner_id: AccountId,
        mint_price: u128,
        mint_currency: Option<AccountId>,
        payment_split_percent: u128,
        total_supply: u128,
        burn_fee: u128,
        treasury: AccountId,
        royalty: u128,
        vault_code: Vec<u8>,
    ) -> (contract: Self)
        ensures
            contract.wf(),
            contract@ == initial_state(
                owner_id@,
                mint_price,
                account_view(mint_currency),
                payment_split_percent,
                total_supply,
                burn_fee,
                treasury@,
                royalty,
                vault_code@,
            ),
    {
        Contract {
            owner_id,
            tokens: TokenRegistry::new(),
            index: 0,
            total_supply,
            mint_price,
            mint_currency,
            payment_split_percent,
            storage_deposits: Ledger::new(),
            ft_deposits: Ledger::new(),
            burn_fee,
            balances_by_owner: Ledger::new(),
            holders: HolderSet::new(),
            treasury,
            royalty,
            vault_code,
        }
    }

    /// Mints `token_id` for `token_owner_id`: the caller becomes a holder,
    /// the counter goes up, and the token's vault is set in motion.
    pub fn nft_mint(
        &mut self,
        ctx: &CallContext,
        token_id: TokenId,
        token_owner_id: AccountId,
    ) -> (result: Result<Provision, Error>)
        requires
            old(self).wf(),
        ensures
            final(self).wf(),
            match result {
                Ok(provision) => mint_outcome(old(self)@, ctx@, token_id@, token_owner_id@) == Ok::<
                    (State, ProvisionView),
                    Error,
                >((final(self)@, provision@)),
                Err(e) => mint_outcome(old(self)@, ctx@, token_id@, token_owner_id@) == Err::<
                    (State, ProvisionView),
                    Error,
                >(e) && final(self)@ == old(self)@,
            },
    {
        let minimum = minimum_needed(self.vault_code.len());
        let covered = match &self.mint_currency {
            Some(_) => ctx.attached_deposit >= minimum && self.ft_deposits.balance_of(
                &ctx.predecessor,
            ) >= self.mint_price,
            None => match self.mint_price.checked_add(minimum) {
                Some(needed) => ctx.attached_deposit >= needed,
                None => false,
            },
        };
        if !covered {
            return Err(Error::InsufficientDeposit);
        }
        if self.index == u128::MAX {
            return Err(Error::Overflow);
        }
        let next: u128 = self.index + 1;
        if self.total_supply > 0 && next > self.total_supply {
            return Err(Error::ExceededTotalSupply);
        }
        let split = match mint_split(self.mint_price, self.payment_split_percent) {
            Some(split) => split,
            None => {
                return Err(Error::Overflow);
            },
        };
        let vault = match AccountId::vault_of(&token_id, &ctx.current_account) {
            Some(vault) => vault,
            None => {
                return Err(Error::InvalidVaultAccount);
            },
        };
        if self.tokens.owner_of(&token_id).is_some() {
            return Err(Error::TokenAlreadyExists);
        }
        let mut fields: Vec<(String, String)> = Vec::new();
        match &self.mint_currency {
            Some(currency) => {
                fields.push(field("ft_contract", currency.name().clone()));
            },
            None => {},
        }
        fields.push(field("treasury", self.treasury.name().clone()));
        assert(field_views(fields@) =~= init_fields(self@));
        let mut actions: Vec<Action> = Vec::new();
        actions.push(Action::CreateAccount);
        actions.push(Action::DeployContract { code: self.vault_code.clone() });
        actions.push(Action::Transfer { amount: minimum });
        actions.push(Action::call("init", &fields, 0, 20));
        let deploy = Receipt { receiver: vault.clone(), actions };
        let resolve = Resolution {
            vault_account_id: vault,
            collection_owner: self.owner_id.clone(),
            owner_amount: split.owner_amount,
            vault_amount: split.vault_amount,
            gas: gas_from_tgas(150),
        };
        let provision = Provision { deploy, resolve };
        assert(provision@.deploy.actions =~= crate::model::provision_of(
            self@,
            ctx@,
            token_id@,
        ).deploy.actions);
        self.holders.insert(&ctx.predecessor);
        self.index = next;
        self.tokens.assign(token_id, token_owner_id);
        Ok(provision)
    }

    /// The calls that route the price of a mint to the vault and to the
    /// owner of the collection. Nothing is learnt of how they end.
    pub fn resolve_create(
        &self,
        vault_account_id: AccountId,
        collection_owner: &AccountId,
        owner_amount: u128,
        vault_amount: u128,
    ) -> (receipts: Vec<Receipt>)
        ensures
            receipt_views(receipts@) == resolve_create_receipts(
                self@,
                vault_account_id@,
                collection_owner@,
                owner_amount,
                vault_amount,
            ),
    {
        let mut receipts: Vec<Receipt> = Vec::new();
        match &self.mint_currency {
            Some(currency) => {
                let mut register: Vec<(String, String)> = Vec::new();
                register.push(field("account_id", vault_account_id.name().clone()));
                assert(field_views(register@) =~= seq![("account_id"@, vault_account_id@)]);
                receipts.push(
                    Receipt::single(
                        currency.clone(),
                        Action::call("storage_deposit", &register, yocto_from_millinear(100), 20),
                    ),
                );
                let mut escrow: Vec<(String, String)> = Vec::new();
                escrow.push(field("receiver_id", vault_account_id.name().clone()));
                escrow.push(field("amount", decimal(vault_amount)));
                escrow.push(field("msg", String::from_str("")));
                assert(field_views(escrow@) =~= seq![
                    ("receiver_id"@, vault_account_id@),
                    ("amount"@, crate::text::decimal_text(vault_amount as nat)),
                    ("msg"@, ""@),
                ]);
                receipts.push(
                    Receipt::single(currency.clone(), Action::call("ft_transfer_call", &escrow, 1, 50)),
                );
                let mut direct: Vec<(String, String)> = Vec::new();
                direct.push(field("receiver_id", collection_owner.name().clone()));
                direct.push(field("amount", decimal(owner_amount)));
                direct.push(field("msg", String::from_str("")));
                assert(field_views(direct@) =~= seq![
                    ("receiver_id"@, collection_owner@),
                    ("amount"@, crate::text::decimal_text(owner_amount as nat)),
                    ("msg"@, ""@),
                ]);
                receipts.push(
                    Receipt::single(currency.clone(), Action::call("ft_transfer", &direct, 1, 50)),
                );
            },
            None => {
                receipts.push(
                    Receipt::single(
                        collection_owner.clone(),
                        Action::Transfer { amount: owner_amount },
                    ),
                );
                let nothing: Vec<(String, String)> = Vec::new();
                assert(field_views(nothing@) =~= seq![]);
                receipts.push(
                    Receipt::single(
                        vault_account_id,
                        Action::call("deposit_native", &nothing, vault_amount, 20),
                    ),
                );
            },
        }
        receipts
    }

    /// Decides whether `token_id` may pass to `receiver_id`, and names its
    /// owner if it may.
    fn check_transfer(
        &self,
        ctx: &CallContext,
        receiver_id: &AccountId,
        token_id: &TokenId,
        approved: bool,
    ) -> (result: Result<AccountId, Error>)
        requires
            self.wf(),
        ensures
            match result {
                Ok(owner) => transfer_outcome(self@, ctx@, receiver_id@, token_id@, approved).is_ok()
                    && self@.tokens.contains_key(token_id@) && owner@ == self@.tokens[token_id@]
                    && owner@ != receiver_id@,
                Err(e) => transfer_outcome(self@, ctx@, receiver_id@, token_id@, approved) == Err::<
                    State,
                    Error,
                >(e),
            },
    {
        let owner = match self.tokens.owner_of(token_id) {
            Some(owner) => owner.clone(),
            None => {
                return Err(Error::TokenNotFound);
            },
        };
        if ctx.attached_deposit != 1 {
            return Err(Error::RequiresOneYocto);
        }
        if !ctx.predecessor.same(&owner) && !approved {
            return Err(Error::Unauthorized);
        }
        if owner.same(receiver_id) {
            return Err(Error::SameOwner);
        }
        Ok(owner)
    }

    /// Moves `token_id` from `owner` to `receiver_id` and brings the
    /// holders up to date.
    fn apply_transfer(&mut self, owner: &AccountId, receiver_id: AccountId, token_id: TokenId)
        requires
            old(self).wf(),
            old(self)@.tokens.contains_key(token_id@),
            old(self)@.tokens[token_id@] == owner@,
        ensures
            final(self).wf(),
            final(self)@ == (State {
                tokens: old(self)@.tokens.insert(token_id@, receiver_id@),
                holders: crate::model::transfer_holders(old(self)@, owner@, receiver_id@),
                ..old(self)@
            }),
    {
        let sender_tokens = self.tokens.count_for(owner);
        let receiver_tokens = self.tokens.count_for(&receiver_id);
        if sender_tokens == 1 {
            self.holders.remove(owner);
        }
        if receiver_tokens == 0 {
            self.holders.insert(&receiver_id);
        }
        self.tokens.assign(token_id, receiver_id);
    }

    /// Passes `token_id` to `receiver_id`. `approved` says whether the
    /// caller holds an approval for the token; the owner needs none.
    pub fn nft_transfer(
        &mut self,
        ctx: &CallContext,
        receiver_id: AccountId,
        token_id: TokenId,
        approved: bool,
    ) -> (result: Result<(), Error>)
        requires
            old(self).wf(),
        ensures
            final(self).wf(),
            match result {
                Ok(_) => transfer_outcome(old(self)@, ctx@, receiver_id@, token_id@, approved) == Ok::<
                    State,
                    Error,
                >(final(self)@),
                Err(e) => transfer_outcome(old(self)@, ctx@, receiver_id@, token_id@, approved)
                    == Err::<State, Error>(e) && final(self)@ == old(self)@,
            },
    {
        match self.check_transfer(ctx, &receiver_id, &token_id, approved) {
            Ok(owner) => {
                self.apply_transfer(&owner, receiver_id, token_id);
                Ok(())
            },
            Err(e) => Err(e),
        }
    }

    /// Passes `token_id` to `receiver_id` as `nft_transfer` does, for a
    /// receiver that is told of the transfer and may hand the token back;
    /// `nft_resolve_transfer` ends what this call begins.
    pub fn nft_transfer_call(
        &mut self,
        ctx: &CallContext,
        receiver_id: AccountId,
        token_id: TokenId,
        approved: bool,
    ) -> (result: Result<(), Error>)
        requires
            old(self).wf(),
        ensures
            final(self).wf(),
            match result {
                Ok(_) => transfer_outcome(old(self)@, ctx@, receiver_id@, token_id@, approved) == Ok::<
                    State,
                    Error,
                >(final(self)@),
                Err(e) => transfer_outcome(old(self)@, ctx@, receiver_id@, token_id@, approved)
                    == Err::<State, Error>(e) && final(self)@ == old(self)@,
            },
    {
        match self.check_transfer(ctx, &receiver_id, &token_id, approved) {
            Ok(owner) => {
                self.apply_transfer(&owner, receiver_id, token_id);
                Ok(())
            },
            Err(e) => Err(e),
        }
    }

    /// Passes `token_id` to `receiver_id` and, where the caller names the
    /// proceeds of the sale, reports how they are to be divided between
    /// the owner of the collection and the seller.
    pub fn nft_transfer_payout(
        &mut self,
        ctx: &CallContext,
        receiver_id: AccountId,
        token_id: TokenId,
        approved: bool,
        balance: Option<u128>,
    ) -> (result: Result<Option<Payout>, Error>)
        requires
            old(self).wf(),
        ensures
            final(self).wf(),
            match result {
                Ok(payout) => transfer_payout_outcome(
                    old(self)@,
                    ctx@,
                    receiver_id@,
                    token_id@,
                    approved,
                    balance,
                ) == Ok::<(State, Option<Map<Seq<char>, u128>>), Error>(
                    (final(self)@, payout_view(payout)),
                ),
                Err(e) => transfer_payout_outcome(
                    old(self)@,
                    ctx@,
                    receiver_id@,
                    token_id@,
                    approved,
                    balance,
                ) == Err::<(State, Option<Map<Seq<char>, u128>>), Error>(e) && final(self)@ == old(
                    self,
                )@,
            },
    {
        if ctx.attached_deposit != 1 {
            return Err(Error::RequiresOneYocto);
        }
        let owner = match self.check_transfer(ctx, &receiver_id, &token_id, approved) {
            Ok(owner) => owner,
            Err(e) => {
                return Err(e);
            },
        };
        let payout = match balance {
            Some(proceeds) => match sale_split(self.royalty, proceeds) {
                Some(split) => {
                    let mut payout = Ledger::new();
                    payout.set(&self.owner_id, split.collection_cut);
                    payout.set(&owner, split.seller_cut);
                    Some(Payout { payout })
                },
                None => {
                    return Err(Error::Overflow);
                },
            },
            None => None,
        };
        self.apply_transfer(&owner, receiver_id, token_id);
        Ok(payout)
    }

    /// Ends a transfer with notification. `must_revert` says whether the
    /// receiver hands the token back; if it does and still owns the token,
    /// the token returns to `previous_owner_id` and the holders are brought
    /// up to date. The result says whether the receiver kept the token.
    pub fn nft_resolve_transfer(
        &mut self,
        previous_owner_id: AccountId,
        receiver_id: AccountId,
        token_id: TokenId,
        must_revert: bool,
    ) -> (kept: bool)
        requires
            old(self).wf(),
        ensures
            final(self).wf(),
            resolve_transfer_outcome(
                old(self)@,
                previous_owner_id@,
                receiver_id@,
                token_id@,
                must_revert,
            ) == (final(self)@, kept),
    {
        if !must_revert {
            return true;
        }
        let owned_by_receiver = match self.tokens.owner_of(&token_id) {
            Some(owner) => owner.same(&receiver_id),
            None => false,
        };
        if !owned_by_receiver {
            return true;
        }
        if previous_owner_id.same(&receiver_id) {
            assert(self@.tokens =~= self@.tokens.insert(token_id@, previous_owner_id@));
        } else {
            self.apply_transfer(&receiver_id, previous_owner_id, token_id);
        }
        false
    }

    /// Adds the attached payment to the storage deposit of `account_id`,
    /// or of the caller where no account is named.
    pub fn storage_deposit(&mut self, ctx: &CallContext, account_id: Option<AccountId>) -> (result:
        Result<(), Error>)
        requires
            old(self).wf(),
        ensures
            final(self).wf(),
            match result {
                Ok(_) => storage_deposit_outcome(old(self)@, ctx@, account_view(account_id)) == Ok::<
                    State,
                    Error,
                >(final(self)@),
                Err(e) => storage_deposit_outcome(old(self)@, ctx@, account_view(account_id))
                    == Err::<State, Error>(e) && final(self)@ == old(self)@,
            },
    {
        let account = match account_id {
            Some(named) => named,
            None => ctx.predecessor.clone(),
        };
        if ctx.attached_deposit < STORAGE_PER_SALE {
            return Err(Error::BelowMinimumDeposit);
        }
        let balance = self.storage_deposits.balance_of(&account);
        match balance.checked_add(ctx.attached_deposit) {
            Some(sum) => {
                self.storage_deposits.set(&account, sum);
                Ok(())
            },
            None => Err(Error::Overflow),
        }
    }

    /// Whether a burn of `token_id` by the caller takes the caller's last
    /// token, and by how many holders it divides.
    fn burn_count(&self, ctx: &CallContext, token_id: &TokenId) -> (found: (bool, u128))
        requires
            self.wf(),
        ensures
            found.0 == crate::model::burn_empties_owner(self@, ctx@, token_id@),
            found.1 == crate::model::burn_holders_count(self@, ctx@, token_id@),
    {
        let owner = &ctx.predecessor;
        let owned = self.tokens.count_for(owner);
        let burns_own = match self.tokens.owner_of(token_id) {
            Some(token_owner) => token_owner.same(owner),
            None => false,
        };
        proof {
            self.tokens.lemma_finite();
            if self@.tokens.contains_key(token_id@) {
                lemma_count_after_remove(self@.tokens, token_id@, owner@);
            } else {
                assert(self@.tokens.remove(token_id@) =~= self@.tokens);
            }
        }
        let emptied = if burns_own {
            owned == 1
        } else {
            owned == 0
        };
        let len = self.holders.len();
        let left: usize = if emptied && self.holders.contains(owner) {
            len - 1
        } else {
            len
        };
        (emptied, left as u128)
    }

    /// By how many holders a burn of `token_id` by the caller divides, and
    /// what it credits to each holder but the caller, in the state as it
    /// is. There is no result where holders are left and a product of the
    /// dividend leaves 128 bits.
    pub fn dividend_of_burn(&self, ctx: &CallContext, token_id: &TokenId) -> (dividend: Option<
        BurnDividend,
    >)
        requires
            self.wf(),
        ensures
            dividend.is_some() <==> crate::model::burn_holders_count(self@, ctx@, token_id@) == 0
                || (self@.mint_price * self@.payment_split_percent <= u128::MAX
                && self@.mint_price * self@.payment_split_percent * self@.burn_fee <= u128::MAX),
            dividend matches Some(d) ==> d.holders_count == crate::model::burn_holders_count(
                self@,
                ctx@,
                token_id@,
            ) && d.amount_to_holder == crate::model::burn_dividend_of(self@, ctx@, token_id@),
    {
        let (_, holders_count) = self.burn_count(ctx, token_id);
        match burn_dividend(
            self.mint_price,
            self.payment_split_percent,
            self.burn_fee,
            holders_count,
        ) {
            Some(amount_to_holder) => Some(BurnDividend { holders_count, amount_to_holder }),
            None => None,
        }
    }

    /// Burns `token_id`, which only its owner may do. The token leaves
    /// the registry, its owner leaves the holders with its last token, the
    /// pool is divided by the number of holders that are left, every one of
    /// them but the caller is credited that dividend, and the token's vault
    /// is told to withdraw.
    pub fn burn(&mut self, ctx: &CallContext, token_id: TokenId) -> (result: Result<Receipt, Error>)
        requires
            old(self).wf(),
        ensures
            final(self).wf(),
            match result {
                Ok(receipt) => burn_outcome(old(self)@, ctx@, token_id@) == Ok::<
                    (State, ReceiptView),
                    Error,
                >((final(self)@, receipt@)),
                Err(e) => burn_outcome(old(self)@, ctx@, token_id@) == Err::<
                    (State, ReceiptView),
                    Error,
                >(e) && final(self)@ == old(self)@,
            },
    {
        let owner = &ctx.predecessor;
        match self.tokens.owner_of(&token_id) {
            Some(token_owner) => {
                if !token_owner.same(owner) {
                    return Err(Error::NotTokenOwner);
                }
            },
            None => {
                return Err(Error::TokenNotFound);
            },
        }
        let (emptied, count) = self.burn_count(ctx, &token_id);
        let amount = match burn_dividend(
            self.mint_price,
            self.payment_split_percent,
            self.burn_fee,
            count,
        ) {
            Some(amount) => amount,
            None => {
                return Err(Error::Overflow);
            },
        };
        assert(crate::model::burn_payees(self@, ctx@, token_id@) =~= self@.holders.remove(owner@));
        if !credit_would_fit(&self.holders, &self.balances_by_owner, owner, amount) {
            return Err(Error::Overflow);
        }
        let vault = match AccountId::vault_of(&token_id, &ctx.current_account) {
            Some(vault) => vault,
            None => {
                return Err(Error::InvalidVaultAccount);
            },
        };
        let mut fields: Vec<(String, String)> = Vec::new();
        fields.push(field("owner", owner.name().clone()));
        fields.push(field("burn_fee", decimal(self.burn_fee)));
        assert(field_views(fields@) =~= seq![
            ("owner"@, owner@),
            ("burn_fee"@, crate::text::decimal_text(self.burn_fee as nat)),
        ]);
        let receipt = Receipt::single(vault, Action::call("withdraw", &fields, 1, 100));
        self.tokens.remove(&token_id);
        if emptied {
            self.holders.remove(owner);
        }
        credit_holders(&self.holders, &mut self.balances_by_owner, owner, amount);
        Ok(receipt)
    }

    /// Sends the caller's whole balance off and sets it to zero; does
    /// nothing where the caller has no balance.
    pub fn withdraw(&mut self, ctx: &CallContext) -> (receipt: Option<Receipt>)
        requires
            old(self).wf(),
        ensures
            final(self).wf(),
            withdraw_outcome(old(self)@, ctx@) == (final(self)@, receipt_view(receipt)),
    {
        let balance = self.balances_by_owner.balance_of(&ctx.predecessor);
        if balance == 0 {
            return None;
        }
        let receipt = match &self.mint_currency {
            Some(currency) => {
                let mut fields: Vec<(String, String)> = Vec::new();
                fields.push(field("receiver_id", ctx.predecessor.name().clone()));
                fields.push(field("amount", decimal(balance)));
                assert(field_views(fields@) =~= seq![
                    ("receiver_id"@, ctx.predecessor@),
                    ("amount"@, crate::text::decimal_text(balance as nat)),
                ]);
                Receipt::single(currency.clone(), Action::call("ft_transfer", &fields, 1, 20))
            },
            None => Receipt::single(ctx.predecessor.clone(), Action::Transfer { amount: balance }),
        };
        self.balances_by_owner.set(&ctx.predecessor, 0);
        Some(receipt)
    }

    /// What `account_id` has paid for storage.
    pub fn storage_balance_of(&self, account_id: AccountId) -> (amount: u128)
        requires
            self.wf(),
        ensures
            amount == crate::ledger::balance_in(self@.storage_deposits, account_id@),
    {
        self.storage_deposits.balance_of(&account_id)
    }

    /// What `account_id` has deposited to mint with.
    pub fn ft_deposits_of(&self, account_id: AccountId) -> (amount: u128)
        requires
            self.wf(),
        ensures
            amount == crate::ledger::balance_in(self@.ft_deposits, account_id@),
    {
        self.ft_deposits.balance_of(&account_id)
    }

    /// How many tokens have been minted.
    pub fn index(&self) -> (index: u128)
        ensures
            index == self@.index,
    {
        self.index
    }

    /// The supply cap; zero sets no limit.
    pub fn total_supply(&self) -> (cap: u128)
        ensures
            cap == self@.total_supply,
    {
        self.total_supply
    }

    /// What `owner` has been credited and has not withdrawn.
    pub fn balance_of(&self, owner: AccountId) -> (amount: u128)
        requires
            self.wf(),
        ensures
            amount == crate::ledger::balance_in(self@.balances_by_owner, owner@),
    {
        self.balances_by_owner.balance_of(&owner)
    }

    /// How many holders there are.
    pub fn total_holders(&self) -> (n: u64)
        requires
            self.wf(),
        ensures
            n == self@.holders.len(),
    {
        self.holders.len() as u64
    }
}

} // verus!
