//! Constants of the builder API.

use vstd::prelude::*;

verus! {

/// Domain type that marks a signature as meant for the builder API.
pub const APPLICATION_BUILDER_DOMAIN: [u8; 4] = [0, 0, 0, 1];

/// Validators root that the builder domain is derived with: all zero.
pub const GENESIS_VALIDATORS_ROOT: [u8; 32] = [
    0, 0, 0, 0, 0, 0, 0, 0, 0, 0, 0, 0, 0, 0, 0, 0, 0, 0, 0, 0, 0, 0, 0, 0, 0, 0, 0, 0, 0, 0, 0, 0,
];

} // verus!
