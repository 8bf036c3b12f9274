//! Mail addresses, as the mail transport parses them.

use vstd::prelude::*;

verus! {

#[verifier::external_type_specification]
#[verifier::external_body]
pub struct ExAddress(lettre::Address);

#[verifier::external_type_specification]
#[verifier::external_body]
pub struct ExAddressError(lettre::address::AddressError);

/// Whether lettre accepts a string as a mail address: a valid user part and
/// a valid domain around the last `@`.
pub uninterp spec fn address_valid(s: Seq<char>) -> bool;

/// Relies on lettre's `FromStr for Address`, which accepts exactly the
/// strings with a valid user and domain split at the last `@`, and refuses
/// a string without `@` for missing parts.
#[verifier::external_body]
pub(crate) fn parse_address(s: &str) -> (r: Result<lettre::Address, lettre::address::AddressError>)
    ensures
        r is Ok == address_valid(s@),
        !s@.contains('@') ==> r is Err,
{
    s.parse::<lettre::Address>()
}

} // verus!
