//! What the contract asks other accounts to do. A receipt is built here
//! and sent by whoever runs the contract; nothing is learnt of how it ends.

use crate::account::AccountId;
use vstd::prelude::*;

verus! {

/// Gas units in one teragas.
pub const TGAS: u64 = 1_000_000_000_000;

/// Smallest units in one thousandth of a whole coin.
pub const MILLINEAR: u128 = 1_000_000_000_000_000_000_000;

/// The text of the JSON object whose members are `fields`, each value a
/// string, in the order given.
pub uninterp spec fn json_object_bytes(fields: Seq<(Seq<char>, Seq<char>)>) -> Seq<u8>;

/// The names and values of `fields` as plain sequences.
pub open spec fn field_views(fields: Seq<(String, String)>) -> Seq<(Seq<char>, Seq<char>)> {
    fields.map_values(|field: (String, String)| (field.0@, field.1@))
}

/// Builds a `serde_json` object from `fields` and writes it out with
/// `serde_json::Value`'s `to_string`. The text depends on the names and
/// values alone; it is named, not described.
#[verifier::external_body]
fn json_object(fields: &Vec<(String, String)>) -> (bytes: Vec<u8>)
    ensures
        bytes@ == json_object_bytes(field_views(fields@)),
{
    let object: near_sdk::serde_json::Map<String, near_sdk::serde_json::Value> = fields.iter().map(
        |field| (field.0.clone(), near_sdk::serde_json::Value::String(field.1.clone())),
    ).collect();
    near_sdk::serde_json::Value::Object(object).to_string().into_bytes()
}

/// Calls `near_sdk::Gas::from_tgas`, which multiplies by ten to the twelfth
/// and panics where the product leaves 64 bits.
#[verifier::external_body]
pub(crate) fn gas_from_tgas(tgas: u64) -> (gas: u64)
    requires
        tgas * TGAS <= u64::MAX,
    ensures
        gas == tgas * TGAS,
{
    near_sdk::Gas::from_tgas(tgas).as_gas()
}

/// Calls `near_sdk::NearToken::from_millinear`, which multiplies by ten to
/// the twenty-first and panics where the product leaves 128 bits.
#[verifier::external_body]
pub(crate) fn yocto_from_millinear(millinear: u128) -> (yocto: u128)
    requires
        millinear * MILLINEAR <= u128::MAX,
    ensures
        yocto == millinear * MILLINEAR,
{
    near_sdk::NearToken::from_millinear(millinear).as_yoctonear()
}

/// One step of what a remote account is asked to do.
#[derive(Debug)]
pub enum Action {
    /// Create the receiving account.
    CreateAccount,
    /// Deploy `code` into the receiving account.
    DeployContract { code: Vec<u8> },
    /// Move `amount` to the receiving account.
    Transfer { amount: u128 },
    /// Call `method` with the JSON text `args`, `deposit` attached and
    /// `gas` reserved.
    FunctionCall { method: String, args: Vec<u8>, deposit: u128, gas: u64 },
}

/// An `Action` over plain sequences.
pub enum ActionView {
    CreateAccount,
    DeployContract { code: Seq<u8> },
    Transfer { amount: u128 },
    FunctionCall { method: Seq<char>, args: Seq<u8>, deposit: u128, gas: u64 },
}

impl View for Action {
    type V = ActionView;

    open spec fn view(&self) -> ActionView {
        match self {
            Action::CreateAccount => ActionView::CreateAccount,
            Action::DeployContract { code } => ActionView::DeployContract { code: code@ },
            Action::Transfer { amount } => ActionView::Transfer { amount: *amount },
            Action::FunctionCall { method, args, deposit, gas } => ActionView::FunctionCall {
                method: method@,
                args: args@,
                deposit: *deposit,
                gas: *gas,
            },
        }
    }
}

/// A call of `method` whose arguments are the JSON object of `fields`.
pub open spec fn json_call(
    method: Seq<char>,
    fields: Seq<(Seq<char>, Seq<char>)>,
    deposit: u128,
    tgas: u64,
) -> ActionView {
    ActionView::FunctionCall {
        method,
        args: json_object_bytes(fields),
        deposit,
        gas: (tgas * TGAS) as u64,
    }
}

/// The steps that one remote account is asked to take, in order. Nothing
/// is learnt of how they end.
#[derive(Debug)]
pub struct Receipt {
    pub receiver: AccountId,
    pub actions: Vec<Action>,
}

/// A `Receipt` over plain sequences.
pub struct ReceiptView {
    pub receiver: Seq<char>,
    pub actions: Seq<ActionView>,
}

impl View for Receipt {
    type V = ReceiptView;

    open spec fn view(&self) -> ReceiptView {
        ReceiptView {
            receiver: self.receiver@,
            actions: self.actions@.map_values(|action: Action| action@),
        }
    }
}

/// The call back into the contract that routes the price of a mint once
/// the vault has been set up, whether or not that went well.
#[derive(Debug)]
pub struct Resolution {
    pub vault_account_id: AccountId,
    pub collection_owner: AccountId,
    pub owner_amount: u128,
    pub vault_amount: u128,
    /// Gas reserved for the call and for the calls that it makes.
    pub gas: u64,
}

/// A `Resolution` over plain sequences.
pub struct ResolutionView {
    pub vault_account_id: Seq<char>,
    pub collection_owner: Seq<char>,
    pub owner_amount: u128,
    pub vault_amount: u128,
    pub gas: u64,
}

impl View for Resolution {
    type V = ResolutionView;

    open spec fn view(&self) -> ResolutionView {
        ResolutionView {
            vault_account_id: self.vault_account_id@,
            collection_owner: self.collection_owner@,
            owner_amount: self.owner_amount,
            vault_amount: self.vault_amount,
            gas: self.gas,
        }
    }
}

/// What a mint sets in motion: the steps that set up the vault, and the
/// resolution that follows them.
#[derive(Debug)]
pub struct Provision {
    pub deploy: Receipt,
    pub resolve: Resolution,
}

/// A `Provision` over plain sequences.
pub struct ProvisionView {
    pub deploy: ReceiptView,
    pub resolve: ResolutionView,
}

impl View for Provision {
    type V = ProvisionView;

    open spec fn view(&self) -> ProvisionView {
        ProvisionView { deploy: self.deploy@, resolve: self.resolve@ }
    }
}


impl Action {
    /// A call of `method` with the JSON object of `fields` as its
    /// arguments, `deposit` attached and `tgas` teragas reserved.
    pub fn call(method: &str, fields: &Vec<(String, String)>, deposit: u128, tgas: u64) -> (action:
        Action)
        requires
            tgas * TGAS <= u64::MAX,
        ensures
            action@ == json_call(method@, field_views(fields@), deposit, tgas),
    {
        Action::FunctionCall {
            method: String::from_str(method),
            args: json_object(fields),
            deposit,
            gas: gas_from_tgas(tgas),
        }
    }
}

impl Receipt {
    /// A receipt of one step.
    pub fn single(receiver: AccountId, action: Action) -> (receipt: Receipt)
        ensures
            receipt@ == (ReceiptView { receiver: receiver@, actions: seq![action@] }),
    {
        let mut actions: Vec<Action> = Vec::new();
        actions.push(action);
        let receipt = Receipt { receiver, actions };
        assert(receipt@.actions =~= seq![action@]);
        receipt
    }
}

} // verus!
