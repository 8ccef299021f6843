//! Signing domains.

use vstd::prelude::*;

use crate::constants::GENESIS_VALIDATORS_ROOT;
use crate::types::Chain;

verus! {

/// The root that `tree_hash::merkle_root` gives for a run of bytes and a
/// least number of leaves.
pub uninterp spec fn merkle_root_of(bytes: Seq<u8>, minimum_leaf_count: nat) -> Seq<u8>;

/// Calls `tree_hash::merkle_root` on two chunks of 32 bytes. With 64 bytes and
/// at most two leaves asked for, that function hashes the two chunks into one
/// node and returns it; the contract gives the node its name and says nothing
/// of its bytes.
#[verifier::external_body]
fn merkle_root(bytes: &[u8; 64], minimum_leaf_count: usize) -> (root: [u8; 32])
    requires
        minimum_leaf_count <= 2,
    ensures
        root@ == merkle_root_of(bytes@, minimum_leaf_count as nat),
{
    tree_hash::merkle_root(bytes, minimum_leaf_count).0
}

/// The two chunks of fork data: the fork version padded with zeros to 32
/// bytes, then the validators root.
pub open spec fn spec_fork_data_chunks(fork_version: Seq<u8>, validators_root: Seq<u8>) -> Seq<u8> {
    fork_version + Seq::new(28, |i: int| 0u8) + validators_root
}

/// A domain: the four bytes of the mask, then the first 28 bytes of the root.
pub open spec fn spec_domain_from_root(domain_mask: Seq<u8>, root: Seq<u8>) -> Seq<u8> {
    domain_mask + root.subrange(0, 28)
}

/// The root of the fork data of a fork version, with the validators root of
/// genesis.
pub open spec fn spec_fork_data_root(fork_version: Seq<u8>) -> Seq<u8> {
    merkle_root_of(spec_fork_data_chunks(fork_version, GENESIS_VALIDATORS_ROOT@), 2)
}

/// The signing domain of a fork version under a domain mask.
pub open spec fn spec_compute_domain(fork_version: Seq<u8>, domain_mask: Seq<u8>) -> Seq<u8> {
    spec_domain_from_root(domain_mask, spec_fork_data_root(fork_version))
}

/// Lays out the fork data as the two chunks that are hashed.
pub fn fork_data_chunks(fork_version: [u8; 4], validators_root: [u8; 32]) -> (chunks: [u8; 64])
    ensures
        chunks@ == spec_fork_data_chunks(fork_version@, validators_root@),
{
    let mut chunks: [u8; 64] = [0u8; 64];
    let mut i: usize = 0;
    while i < 4
        invariant
            i <= 4,
            forall|k: int| 0 <= k < i ==> chunks@[k] == fork_version@[k],
            forall|k: int| i <= k < 64 ==> chunks@[k] == 0u8,
        decreases 4 - i,
    {
        chunks[i] = fork_version[i];
        i += 1;
    }
    let mut j: usize = 0;
    while j < 32
        invariant
            j <= 32,
            forall|k: int| 0 <= k < 4 ==> chunks@[k] == fork_version@[k],
            forall|k: int| 4 <= k < 32 ==> chunks@[k] == 0u8,
            forall|k: int| 32 <= k < 32 + j ==> chunks@[k] == validators_root@[k - 32],
        decreases 32 - j,
    {
        chunks[32 + j] = validators_root[j];
        j += 1;
    }
    chunks
}

/// Puts a domain together from its mask and the root of the fork data.
pub fn domain_from_root(domain_mask: [u8; 4], root: [u8; 32]) -> (domain: [u8; 32])
    ensures
        domain@ == spec_domain_from_root(domain_mask@, root@),
{
    let mut domain: [u8; 32] = [0u8; 32];
    let mut i: usize = 0;
    while i < 4
        invariant
            i <= 4,
            forall|k: int| 0 <= k < i ==> domain@[k] == domain_mask@[k],
        decreases 4 - i,
    {
        domain[i] = domain_mask[i];
        i += 1;
    }
    let mut j: usize = 0;
    while j < 28
        invariant
            j <= 28,
            forall|k: int| 0 <= k < 4 ==> domain@[k] == domain_mask@[k],
            forall|k: int| 4 <= k < 4 + j ==> domain@[k] == root@[k - 4],
        decreases 28 - j,
    {
        domain[4 + j] = root[j];
        j += 1;
    }
    domain
}

/// The root of the fork data of a fork version at genesis.
pub fn fork_data_root(fork_version: [u8; 4]) -> (root: [u8; 32])
    ensures
        root@ == spec_fork_data_root(fork_version@),
{
    let chunks = fork_data_chunks(fork_version, GENESIS_VALIDATORS_ROOT);
    merkle_root(&chunks, 2)
}

/// The signing domain of a chain under a domain mask.
pub fn compute_domain(chain: Chain, domain_mask: [u8; 4]) -> (domain: [u8; 32])
    ensures
        domain@ == spec_compute_domain(chain.spec_genesis_fork_version(), domain_mask@),
{
    let root = fork_data_root(chain.genesis_fork_version());
    domain_from_root(domain_mask, root)
}

} // verus!
