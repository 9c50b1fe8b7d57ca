//! The two Soroban SDK value types that a property record carries.
//!
//! An address and a host string are handles into the Soroban host. The
//! registry never looks inside them: it takes them from the caller, keeps them
//! in a record and hands them back. What is assumed of them here is only that
//! cloning a handle gives the same value again.

use vstd::prelude::*;

verus! {

/// `soroban_sdk::Address`, carried as an opaque value.
#[verifier::external_type_specification]
#[verifier::external_body]
pub struct ExAddress(soroban_sdk::Address);

/// `soroban_sdk::String`, carried as an opaque value.
#[verifier::external_type_specification]
#[verifier::external_body]
pub struct ExString(soroban_sdk::String);

/// `Clone::clone` of `soroban_sdk::Address`: the SDK derives it for a struct
/// of an environment handle and an object handle, so the clone names the same
/// address as the value it was made from.
pub assume_specification[ <soroban_sdk::Address as Clone>::clone ](
    a: &soroban_sdk::Address,
) -> (r: soroban_sdk::Address)
    ensures
        r == *a,
;

/// `Clone::clone` of `soroban_sdk::String`: the SDK derives it for a struct
/// of an environment handle and an object handle, so the clone names the same
/// host string as the value it was made from.
pub assume_specification[ <soroban_sdk::String as Clone>::clone ](
    s: &soroban_sdk::String,
) -> (r: soroban_sdk::String)
    ensures
        r == *s,
;

} // verus!
