//! Account identifiers.

use vstd::prelude::*;

verus! {

/// A lower-case letter or a digit.
pub open spec fn is_id_alphanumeric(c: char) -> bool {
    ('a' <= c && c <= 'z') || ('0' <= c && c <= '9')
}

/// One of the three characters that may stand between two runs of letters
/// and digits.
pub open spec fn is_id_separator(c: char) -> bool {
    c == '-' || c == '_' || c == '.'
}

/// The rule for account identifiers: between 2 and 64 characters, each a
/// lower-case letter, a digit or a separator, no separator first or last,
/// and no two separators in a row.
pub open spec fn valid_account_id(id: Seq<char>) -> bool {
    &&& 2 <= id.len() <= 64
    &&& forall|i: int|
        0 <= i < id.len() ==> is_id_alphanumeric(#[trigger] id[i]) || is_id_separator(id[i])
    &&& !is_id_separator(id[0])
    &&& !is_id_separator(id[id.len() - 1])
    &&& forall|i: int|
        0 < i < id.len() ==> !(is_id_separator(#[trigger] id[i]) && is_id_separator(id[i - 1]))
}

/// Calls `near_sdk::env::is_valid_account_id` on the bytes of `id`.
///
/// Trusted: the result is claimed to be `valid_account_id` of the characters.
/// That function refuses a length outside 2..=64 and then walks the bytes,
/// refusing any byte that is not a lower-case letter, a digit, `-`, `_` or
/// `.`, a separator that follows a separator or stands first, and a
/// separator at the end. A character outside ASCII is refused by its first
/// byte, so counting bytes or characters makes no difference.
#[verifier::external_body]
fn account_id_is_valid(id: &str) -> (ok: bool)
    ensures
        ok == valid_account_id(id@),
{
    near_sdk::env::is_valid_account_id(id.as_bytes())
}

/// The identifier of an account: of an asset service, of the front, of the
/// custody engine or of a counterparty.
#[derive(Debug)]
pub struct AccountId {
    id: String,
}

impl View for AccountId {
    type V = Seq<char>;

    closed spec fn view(&self) -> Seq<char> {
        self.id@
    }
}

impl Clone for AccountId {
    fn clone(&self) -> (res: Self)
        ensures
            res@ == self@,
    {
        AccountId { id: self.id.clone() }
    }
}

impl PartialEq for AccountId {
    fn eq(&self, other: &Self) -> (res: bool) {
        self.id == other.id
    }
}

impl vstd::std_specs::cmp::PartialEqSpecImpl for AccountId {
    open spec fn obeys_eq_spec() -> bool {
        true
    }

    open spec fn eq_spec(&self, other: &Self) -> bool {
        self@ == other@
    }
}

impl AccountId {
    /// Whether the identifier obeys the rule for account identifiers.
    pub open spec fn is_valid(&self) -> bool {
        valid_account_id(self@)
    }

    /// Takes `id` as an identifier without looking at it.
    pub fn new_unchecked(id: String) -> (res: Self)
        ensures
            res@ == id@,
    {
        AccountId { id }
    }

    /// Takes `id` as an identifier if it obeys the rule for account
    /// identifiers.
    pub fn try_from(id: String) -> (res: Option<Self>)
        ensures
            res.is_some() <==> valid_account_id(id@),
            res matches Some(a) ==> a@ == id@,
    {
        if account_id_is_valid(id.as_str()) {
            Some(AccountId { id })
        } else {
            None
        }
    }

    /// The identifier as text.
    pub fn as_str(&self) -> (res: &str)
        ensures
            res@ == self@,
    {
        self.id.as_str()
    }
}

} // verus!
