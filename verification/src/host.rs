//! The two facts this library takes from the NEAR SDK: which strings are
//! account ids, and what a byte of storage costs. Neither is proved here.

use vstd::prelude::*;

verus! {

/// One of the three characters that separate the parts of an account id.
pub open spec fn is_separator(c: char) -> bool {
    c == '-' || c == '_' || c == '.'
}

/// A lower-case ASCII letter or a digit.
pub open spec fn is_lower_alphanumeric(c: char) -> bool {
    (97 <= c as u32 <= 122) || (48 <= c as u32 <= 57)
}

/// The account ids that the host accepts: 2 to 64 characters, each a
/// lower-case letter, a digit or a separator, with no separator at either end
/// and no two separators side by side.
pub open spec fn valid_account_id(s: Seq<char>) -> bool {
    &&& 2 <= s.len() <= 64
    &&& forall|i: int| 0 <= i < s.len() ==> is_lower_alphanumeric(s[i]) || is_separator(s[i])
    &&& !is_separator(s[0])
    &&& !is_separator(s.last())
    &&& forall|i: int|
        0 < i < s.len() ==> !(is_separator(s[i - 1]) && is_separator(#[trigger] s[i]))
}

/// The price of one byte of storage, in yoctoNEAR.
pub open spec fn storage_price_per_byte() -> u128 {
    10_000_000_000_000_000_000u128
}

/// Calls `near_sdk::env::is_valid_account_id` on the bytes of `account_id`.
/// Trusted: the SDK scans the bytes once and accepts exactly the strings that
/// `valid_account_id` describes. A string with a character outside ASCII holds
/// a byte that the scan refuses, so the rule reads the same over characters.
#[verifier::external_body]
pub(crate) fn is_valid_account_id(account_id: &str) -> (valid: bool)
    ensures
        valid == valid_account_id(account_id@),
{
    near_sdk::env::is_valid_account_id(account_id.as_bytes())
}

/// Calls `near_sdk::env::storage_byte_cost`. Trusted: the SDK returns its
/// constant `STORAGE_PRICE_PER_BYTE`, ten to the nineteenth.
#[verifier::external_body]
pub(crate) fn storage_byte_cost() -> (price: u128)
    ensures
        price == storage_price_per_byte(),
{
    near_sdk::env::storage_byte_cost()
}

} // verus!
