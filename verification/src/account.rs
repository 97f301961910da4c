//! Account ids: which texts name an account.
use vstd::prelude::*;

use crate::text::owned;

verus! {

/// Whether `c` may stand in an account id: a lower-case letter, a digit or a separator.
pub open spec fn is_account_char(c: char) -> bool {
    ('a' <= c && c <= 'z') || ('0' <= c && c <= '9') || is_separator(c)
}

/// Whether `c` separates the parts of an account id.
pub open spec fn is_separator(c: char) -> bool {
    c == '-' || c == '_' || c == '.'
}

/// Whether `s` is a valid account id: 2 to 64 characters, each a lower-case letter, a
/// digit or one of `-`, `_`, `.`; it neither starts nor ends with a separator, and no two
/// separators stand next to each other.
pub open spec fn valid_account_id(s: Seq<char>) -> bool {
    &&& 2 <= s.len() <= 64
    &&& forall|i: int| 0 <= i < s.len() ==> #[trigger] is_account_char(s[i])
    &&& !is_separator(s[0])
    &&& !is_separator(s[s.len() - 1])
    &&& forall|i: int| 0 <= i < s.len() - 1 ==> !(#[trigger] is_separator(s[i]) && is_separator(s[i + 1]))
}

/// `AccountId::validate` of the account id crate: whether `s` parses as an account id.
/// The contract states the crate's rules: a length of 2 to 64 bytes, then characters
/// from `a-z`, `0-9`, `-`, `_`, `.`, with no separator first, last or next to another
/// (a text with another character fails, whatever its byte length).
#[verifier::external_body]
pub(crate) fn is_valid_account_id(s: &str) -> (r: bool)
    ensures
        r == valid_account_id(s@),
{
    unc_account_id::AccountId::validate(s).is_ok()
}

/// The account id that `s` names, or `None` where `s` is not a valid account id.
pub fn parse_account_id(s: &str) -> (r: Option<String>)
    ensures
        r is Some <==> valid_account_id(s@),
        r matches Some(t) ==> t@ == s@,
{
    if is_valid_account_id(s) {
        Some(owned(s))
    } else {
        None
    }
}

/// `node`, the account of a node key, is a valid account id.
pub proof fn lemma_node_account_valid()
    ensures
        valid_account_id("node"@),
{
    reveal_strlit("node");
}

/// `unc`, the protocol treasury account, is a valid account id.
pub proof fn lemma_treasury_account_valid()
    ensures
        valid_account_id("unc"@),
{
    reveal_strlit("unc");
}

/// `test.unc`, the validator of a local network by default, is a valid account id.
pub proof fn lemma_local_validator_valid()
    ensures
        valid_account_id("test.unc"@),
{
    reveal_strlit("test.unc");
}

} // verus!
