//! Account names and the names of the vaults derived from them.

use vstd::prelude::*;

verus! {

/// Identifier of a token.
pub type TokenId = String;

/// One of the three characters that may join the words of an account name.
pub open spec fn is_separator(c: char) -> bool {
    c == '-' || c == '_' || c == '.'
}

/// A lower-case letter or a digit.
pub open spec fn is_word_char(c: char) -> bool {
    ('a' <= c && c <= 'z') || ('0' <= c && c <= '9')
}

/// The account names that the network accepts: between 2 and 64 characters,
/// each a lower-case letter, a digit or a separator, where no separator
/// stands first, last or next to another one.
pub open spec fn valid_account_name(name: Seq<char>) -> bool {
    &&& 2 <= name.len() <= 64
    &&& forall|i: int|
        0 <= i < name.len() ==> is_word_char(#[trigger] name[i]) || is_separator(name[i])
    &&& forall|i: int|
        0 <= i < name.len() && is_separator(#[trigger] name[i]) ==> 0 < i && i + 1 < name.len()
            && !is_separator(name[i + 1])
}

/// The name under which the vault of a token lives: the token's identifier,
/// a dot, and the name of the contract's own account.
pub open spec fn vault_account_name(token_id: Seq<char>, contract: Seq<char>) -> Seq<char> {
    token_id + seq!['.'] + contract
}

/// Calls `near_sdk::AccountId::validate`, which accepts a string exactly
/// when its length in bytes is between 2 and 64, every character is one of
/// `a-z`, `0-9`, `-`, `_`, `.`, and no separator stands first, last or
/// directly after another separator. Not proved: the contract restates that
/// rule.
#[verifier::external_body]
fn account_name_is_valid(name: &str) -> (valid: bool)
    ensures
        valid == valid_account_name(name@),
{
    near_sdk::AccountId::validate(name).is_ok()
}

/// The name of an account. Every value holds a valid name.
#[derive(Debug)]
pub struct AccountId {
    name: String,
}

impl View for AccountId {
    type V = Seq<char>;

    closed spec fn view(&self) -> Seq<char> {
        self.name@
    }
}

impl AccountId {
    #[verifier::type_invariant]
    spec fn well_formed(self) -> bool {
        valid_account_name(self.name@)
    }

    /// Accepts `name` exactly when it is a valid account name.
    pub fn parse(name: &str) -> (account: Option<AccountId>)
        ensures
            account.is_some() == valid_account_name(name@),
            account matches Some(a) ==> a@ == name@,
    {
        if account_name_is_valid(name) {
            Some(AccountId { name: String::from_str(name) })
        } else {
            None
        }
    }

    /// The account that holds the vault of `token_id` under the contract's
    /// account `contract`, where that name is a valid one.
    pub fn vault_of(token_id: &String, contract: &AccountId) -> (vault: Option<AccountId>)
        ensures
            vault.is_some() == valid_account_name(vault_account_name(token_id@, contract@)),
            vault matches Some(a) ==> a@ == vault_account_name(token_id@, contract@),
    {
        proof {
            reveal_strlit(".");
            assert("."@ =~= seq!['.']);
        }
        let name = token_id.clone().concat(".").concat(contract.name.as_str());
        if account_name_is_valid(name.as_str()) {
            Some(AccountId { name })
        } else {
            None
        }
    }

    /// The name, which is a valid one.
    pub fn name(&self) -> (name: &String)
        ensures
            name@ == self@,
            valid_account_name(name@),
    {
        proof {
            use_type_invariant(self);
        }
        &self.name
    }

    pub fn as_str(&self) -> (name: &str)
        ensures
            name@ == self@,
            valid_account_name(name@),
    {
        proof {
            use_type_invariant(self);
        }
        self.name.as_str()
    }

    /// Whether both values name the same account.
    pub fn same(&self, other: &AccountId) -> (equal: bool)
        ensures
            equal == (self@ == other@),
    {
        self.name == other.name
    }

}

impl Clone for AccountId {
    fn clone(&self) -> (copy: Self)
        ensures
            copy@ == self@,
    {
        proof {
            use_type_invariant(self);
        }
        AccountId { name: self.name.clone() }
    }
}

} // verus!
