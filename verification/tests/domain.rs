use cb_common::constants::{APPLICATION_BUILDER_DOMAIN, GENESIS_VALIDATORS_ROOT};
use cb_common::signature::{compute_domain, domain_from_root, fork_data_chunks, fork_data_root};
use cb_common::types::{Chain, KnownChain};

const MAINNET_DOMAIN: [u8; 32] = [
    0, 0, 0, 1, 245, 165, 253, 66, 209, 106, 32, 48, 39, 152, 239, 110, 211, 9, 151, 155, 67, 0, 61,
    35, 32, 217, 240, 232, 234, 152, 49, 169,
];

const HOLESKY_DOMAIN: [u8; 32] = [
    0, 0, 0, 1, 91, 131, 162, 55, 89, 197, 96, 178, 208, 198, 69, 118, 225, 220, 252, 52, 234, 148,
    196, 152, 143, 62, 13, 159, 119, 240, 83, 135,
];

const HELDER_DOMAIN: [u8; 32] = [
    0, 0, 0, 1, 148, 196, 26, 244, 132, 255, 247, 150, 73, 105, 224, 189, 217, 34, 248, 45, 255, 15,
    75, 232, 122, 96, 208, 102, 76, 201, 209, 255,
];

#[test]
fn known_chain_builder_domain_is_the_table_entry() {
    assert_eq!(Chain::from(KnownChain::Mainnet).builder_domain(), MAINNET_DOMAIN);
    assert_eq!(Chain::from(KnownChain::Holesky).builder_domain(), HOLESKY_DOMAIN);
    assert_eq!(Chain::from(KnownChain::Helder).builder_domain(), HELDER_DOMAIN);
    assert_eq!(KnownChain::Mainnet.builder_domain(), MAINNET_DOMAIN);
    assert_eq!(KnownChain::Holesky.builder_domain(), HOLESKY_DOMAIN);
    assert_eq!(KnownChain::Helder.builder_domain(), HELDER_DOMAIN);
}

#[test]
fn computed_domain_of_a_known_chain_is_the_table_entry() {
    for known in [KnownChain::Mainnet, KnownChain::Holesky, KnownChain::Helder] {
        let chain = Chain::from(known);
        assert_eq!(compute_domain(chain, APPLICATION_BUILDER_DOMAIN), known.builder_domain());
        assert_eq!(compute_domain(chain, APPLICATION_BUILDER_DOMAIN), chain.builder_domain());
    }
}

#[test]
fn custom_chain_with_known_fork_version_has_the_known_domain() {
    for known in [KnownChain::Mainnet, KnownChain::Holesky, KnownChain::Helder] {
        let custom = Chain::Custom {
            genesis_time_secs: 1,
            slot_time_secs: 2,
            genesis_fork_version: known.genesis_fork_version(),
        };
        assert_eq!(custom.builder_domain(), known.builder_domain());
    }
}

#[test]
fn domain_depends_on_the_fork_version_and_the_mask() {
    let one = Chain::Custom { genesis_time_secs: 0, slot_time_secs: 0, genesis_fork_version: [0, 0, 0, 1] };
    let two = Chain::Custom { genesis_time_secs: 0, slot_time_secs: 0, genesis_fork_version: [0, 0, 0, 2] };
    assert_ne!(one.builder_domain(), two.builder_domain());
    assert_ne!(one.builder_domain(), MAINNET_DOMAIN);
    assert_eq!(one.builder_domain()[..4], [0, 0, 0, 1]);
    let other_mask = compute_domain(Chain::Mainnet, [7, 0, 0, 0]);
    assert_eq!(other_mask[..4], [7, 0, 0, 0]);
    assert_eq!(other_mask[4..], MAINNET_DOMAIN[4..]);
}

#[test]
fn fork_data_root_of_mainnet_is_the_hash_of_two_zero_chunks() {
    let root = fork_data_root([0, 0, 0, 0]);
    let expected: [u8; 32] = [
        0xf5, 0xa5, 0xfd, 0x42, 0xd1, 0x6a, 0x20, 0x30, 0x27, 0x98, 0xef, 0x6e, 0xd3, 0x09, 0x97,
        0x9b, 0x43, 0x00, 0x3d, 0x23, 0x20, 0xd9, 0xf0, 0xe8, 0xea, 0x98, 0x31, 0xa9, 0x27, 0x59,
        0xfb, 0x4b,
    ];
    assert_eq!(root, expected);
    assert_ne!(root, [0u8; 32]);
}

#[test]
fn fork_data_is_laid_out_in_two_chunks() {
    let mut root = [0u8; 32];
    for (i, byte) in root.iter_mut().enumerate() {
        *byte = 100 + i as u8;
    }
    let chunks = fork_data_chunks([1, 2, 3, 4], root);
    assert_eq!(chunks[..4], [1, 2, 3, 4]);
    assert_eq!(chunks[4..32], [0u8; 28]);
    assert_eq!(chunks[32..], root);
    let zero = fork_data_chunks([0; 4], GENESIS_VALIDATORS_ROOT);
    assert_eq!(zero, [0u8; 64]);
}

#[test]
fn domain_is_the_mask_and_the_start_of_the_root() {
    let mut root = [0u8; 32];
    for (i, byte) in root.iter_mut().enumerate() {
        *byte = i as u8 + 1;
    }
    let domain = domain_from_root([9, 8, 7, 6], root);
    assert_eq!(domain[..4], [9, 8, 7, 6]);
    assert_eq!(domain[4..], root[..28]);
    assert_eq!(domain[31], 28);
}

#[test]
fn domain_constants_have_their_values() {
    assert_eq!(APPLICATION_BUILDER_DOMAIN, [0, 0, 0, 1]);
    assert_eq!(GENESIS_VALIDATORS_ROOT, [0u8; 32]);
}
