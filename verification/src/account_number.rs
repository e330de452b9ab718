//! Account numbers: 128-bit values drawn at random when an account is opened.

use vstd::prelude::*;

verus! {

/// The 128-bit number that identifies an account.
pub type AccountNumber = u128;

/// The bits that every randomly drawn account number has in common: the
/// version field holds 4 and the variant field holds the two bits `10`.
pub open spec fn is_random_number(number: AccountNumber) -> bool {
    number & 0xF000_C000_0000_0000_0000u128 == 0x4000_8000_0000_0000_0000u128
}

/// Draws a fresh account number with `uuid::Uuid::new_v4` and hands it out as
/// the integer that `Uuid::as_u128` gives for it.
///
/// Trusted: the number carries the version and variant bits of a random
/// (version 4) identifier; the other 122 bits come from the operating
/// system's random source, and nothing is claimed of them. Should that source
/// fail, the call does not return.
#[verifier::external_body]
pub(crate) fn fresh_account_number() -> (number: AccountNumber)
    ensures
        is_random_number(number),
{
    uuid::Uuid::new_v4().as_u128()
}

} // verus!
