//! Hashes and addresses.
//!
//! Both come from `alloy_primitives` and are carried through as they are:
//! nothing in this crate looks inside one.
use alloy_primitives::{Address, FixedBytes};
use vstd::prelude::*;

verus! {

/// `alloy_primitives::FixedBytes`: so many bytes; a hash is 32 of them.
#[verifier::external_type_specification]
#[verifier::external_body]
pub struct ExFixedBytes<const N: usize>(FixedBytes<N>);

/// `alloy_primitives::Address`: the address of an account.
#[verifier::external_type_specification]
#[verifier::external_body]
pub struct ExAddress(Address);

/// `Clone` for `FixedBytes`: the type is `Copy`, so the clone is the value
/// itself.
pub assume_specification<const N: usize>[ <FixedBytes<N> as Clone>::clone ](
    bytes: &FixedBytes<N>,
) -> (copy: FixedBytes<N>)
    ensures
        copy == *bytes,
;

} // verus!
