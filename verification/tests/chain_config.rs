use cb_common::types::{Chain, ChainLoadError, ChainLoader, KnownChain};

const HOLESKY_SPEC_DATA_JSON: &str = r#"{
  "data": {
    "CONFIG_NAME": "holesky",
    "PRESET_BASE": "mainnet",
    "TERMINAL_TOTAL_DIFFICULTY": "0",
    "MIN_GENESIS_ACTIVE_VALIDATOR_COUNT": "16384",
    "MIN_GENESIS_TIME": "1695902100",
    "GENESIS_FORK_VERSION": "0x01017000",
    "GENESIS_DELAY": "300",
    "ALTAIR_FORK_VERSION": "0x02017000",
    "ALTAIR_FORK_EPOCH": "0",
    "SECONDS_PER_SLOT": "12",
    "SECONDS_PER_ETH1_BLOCK": "14",
    "DEPOSIT_CHAIN_ID": "17000",
    "DEPOSIT_CONTRACT_ADDRESS": "0x4242424242424242424242424242424242424242"
  }
}"#;

const HOLESKY_SPEC_JSON: &str = r#"{
  "CONFIG_NAME": "holesky",
  "PRESET_BASE": "mainnet",
  "MIN_GENESIS_ACTIVE_VALIDATOR_COUNT": "16384",
  "MIN_GENESIS_TIME": "1695902100",
  "GENESIS_FORK_VERSION": "0x01017000",
  "GENESIS_DELAY": "300",
  "SECONDS_PER_SLOT": "12",
  "DEPOSIT_CHAIN_ID": "17000"
}"#;

const HELDER_SPEC_YML: &str = "# Helder testnet
PRESET_BASE: mainnet
CONFIG_NAME: testnet
MIN_GENESIS_ACTIVE_VALIDATOR_COUNT: 100000
MIN_GENESIS_TIME: 1718967600
GENESIS_FORK_VERSION: 0x10000000
GENESIS_DELAY: 60
ALTAIR_FORK_VERSION: 0x20000000
ALTAIR_FORK_EPOCH: 0
SECONDS_PER_SLOT: 12
DEPOSIT_CONTRACT_ADDRESS: 0x4242424242424242424242424242424242424242
";

const HOLESKY_SPEC_YML: &str = "PRESET_BASE: mainnet
CONFIG_NAME: holesky
MIN_GENESIS_TIME: 1695902100
GENESIS_FORK_VERSION: 0x01017000
GENESIS_DELAY: 300
SECONDS_PER_SLOT: 12
";

/// Reads the value under `chain` of a TOML configuration as the loader that
/// stands for it: a text as a name or a path, a table as parameters.
fn loader_of(config: &str) -> ChainLoader {
    let table: toml::Table = toml::from_str(config).unwrap();
    match table.get("chain").unwrap() {
        toml::Value::String(text) => ChainLoader::from_text(text),
        toml::Value::Table(record) => ChainLoader::Custom {
            genesis_time_secs: record["genesis_time_secs"].as_integer().unwrap() as u64,
            slot_time_secs: record["slot_time_secs"].as_integer().unwrap() as u64,
            genesis_fork_version: alloy::primitives::hex::decode(
                record["genesis_fork_version"].as_str().unwrap(),
            )
            .unwrap(),
        },
        other => panic!("unexpected value: {other:?}"),
    }
}

fn chain_of(config: &str, file: Option<&str>) -> Result<Chain, ChainLoadError> {
    Chain::from_loader(&loader_of(config), file.map(|text| text.as_bytes()))
}

#[test]
fn test_load_known() {
    let s = r#"chain = "Mainnet""#;
    let decoded = chain_of(s, None).unwrap();
    assert_eq!(decoded, Chain::Mainnet);
}

#[test]
fn test_load_custom() {
    let s = r#"chain = { genesis_time_secs = 1, slot_time_secs = 2, genesis_fork_version = "0x01000000" }"#;
    let decoded = chain_of(s, None).unwrap();
    assert_eq!(
        decoded,
        Chain::Custom { genesis_time_secs: 1, slot_time_secs: 2, genesis_fork_version: [1, 0, 0, 0] }
    )
}

#[test]
fn test_load_file_data_json() {
    let path = "tests/data/holesky_spec_data.json";
    let s = format!("chain = {path:?}");

    let decoded = chain_of(&s, Some(HOLESKY_SPEC_DATA_JSON)).unwrap();
    assert_eq!(
        decoded,
        Chain::Custom {
            genesis_time_secs: KnownChain::Holesky.genesis_time_sec(),
            slot_time_secs: KnownChain::Holesky.slot_time_sec(),
            genesis_fork_version: KnownChain::Holesky.genesis_fork_version()
        }
    )
}

#[test]
fn test_load_file_json() {
    let path = "tests/data/holesky_spec.json";
    let s = format!("chain = {path:?}");

    let decoded = chain_of(&s, Some(HOLESKY_SPEC_JSON)).unwrap();
    assert_eq!(
        decoded,
        Chain::Custom {
            genesis_time_secs: KnownChain::Holesky.genesis_time_sec(),
            slot_time_secs: KnownChain::Holesky.slot_time_sec(),
            genesis_fork_version: KnownChain::Holesky.genesis_fork_version()
        }
    )
}

#[test]
fn test_load_file_yml() {
    let path = "tests/data/helder_spec.yml";
    let s = format!("chain = {path:?}");

    let decoded = chain_of(&s, Some(HELDER_SPEC_YML)).unwrap();
    assert_eq!(
        decoded,
        Chain::Custom {
            genesis_time_secs: KnownChain::Helder.genesis_time_sec(),
            slot_time_secs: KnownChain::Helder.slot_time_sec(),
            genesis_fork_version: KnownChain::Helder.genesis_fork_version()
        }
    )
}

#[test]
fn holesky_yaml_file_gives_the_holesky_parameters() {
    let decoded = chain_of(r#"chain = "holesky.yml""#, Some(HOLESKY_SPEC_YML)).unwrap();
    assert_eq!(
        decoded,
        Chain::Custom {
            genesis_time_secs: 1695902400,
            slot_time_secs: 12,
            genesis_fork_version: [1, 1, 112, 0]
        }
    );
}

#[test]
fn known_names_are_read_in_both_spellings() {
    assert_eq!(chain_of(r#"chain = "Mainnet""#, None), Ok(Chain::Mainnet));
    assert_eq!(chain_of(r#"chain = "mainnet""#, None), Ok(Chain::Mainnet));
    assert_eq!(chain_of(r#"chain = "Holesky""#, None), Ok(Chain::Holesky));
    assert_eq!(chain_of(r#"chain = "holesky""#, None), Ok(Chain::Holesky));
    assert_eq!(chain_of(r#"chain = "Helder""#, None), Ok(Chain::Helder));
    assert_eq!(chain_of(r#"chain = "helder""#, None), Ok(Chain::Helder));
    assert_eq!(KnownChain::from_name("Holesky"), Some(KnownChain::Holesky));
    assert_eq!(KnownChain::from_name("HOLESKY"), None);
    assert_eq!(KnownChain::from_name(""), None);
}

#[test]
fn any_other_text_is_a_path() {
    assert_eq!(ChainLoader::from_text("MAINNET"), ChainLoader::Path("MAINNET".to_string()));
    assert_eq!(
        ChainLoader::from_text("/etc/chain.json"),
        ChainLoader::Path("/etc/chain.json".to_string())
    );
    assert_eq!(ChainLoader::from_text("helder"), ChainLoader::Known(KnownChain::Helder));
}

#[test]
fn a_path_whose_file_cannot_be_read_is_an_error() {
    let result = chain_of(r#"chain = "missing.json""#, None);
    assert_eq!(result, Err(ChainLoadError::FileNotFound { path: "missing.json".to_string() }));
    assert_eq!(
        result.unwrap_err().message(),
        "Unable to find chain spec file: \"missing.json\""
    );
}

#[test]
fn a_path_that_fails_to_load_is_not_read_as_parameters() {
    let result = chain_of(r#"chain = "broken.json""#, Some("{ \"data\": 1 }"));
    assert_eq!(result, Err(ChainLoadError::UnknownFormat { path: "broken.json".to_string() }));
}

#[test]
fn inline_fork_version_must_have_four_bytes() {
    let three = r#"chain = { genesis_time_secs = 1, slot_time_secs = 2, genesis_fork_version = "0x010000" }"#;
    assert_eq!(chain_of(three, None), Err(ChainLoadError::ForkVersionLength { length: 3 }));
    let five = r#"chain = { genesis_time_secs = 1, slot_time_secs = 2, genesis_fork_version = "0x0100000000" }"#;
    assert_eq!(chain_of(five, None), Err(ChainLoadError::ForkVersionLength { length: 5 }));
    let none = r#"chain = { genesis_time_secs = 1, slot_time_secs = 2, genesis_fork_version = "0x" }"#;
    assert_eq!(chain_of(none, None), Err(ChainLoadError::ForkVersionLength { length: 0 }));
    assert_eq!(
        ChainLoadError::ForkVersionLength { length: 5 }.message(),
        "genesis fork version must have 4 bytes, got 5"
    );
}

#[test]
fn custom_chain_written_and_read_is_the_same_chain() {
    let chain = Chain::Custom {
        genesis_time_secs: 1718967660,
        slot_time_secs: 6,
        genesis_fork_version: [0xde, 0xad, 0xbe, 0xef],
    };
    let loader = chain.to_loader();
    assert_eq!(
        loader,
        ChainLoader::Custom {
            genesis_time_secs: 1718967660,
            slot_time_secs: 6,
            genesis_fork_version: vec![0xde, 0xad, 0xbe, 0xef],
        }
    );
    assert_eq!(loader.text(), None);
    assert_eq!(Chain::from_loader(&loader, None), Ok(chain));
}

#[test]
fn known_chain_written_and_read_is_the_same_chain() {
    for (chain, known, name) in [
        (Chain::Mainnet, KnownChain::Mainnet, "Mainnet"),
        (Chain::Holesky, KnownChain::Holesky, "Holesky"),
        (Chain::Helder, KnownChain::Helder, "Helder"),
    ] {
        let loader = chain.to_loader();
        assert_eq!(loader, ChainLoader::Known(known));
        assert_eq!(known.name(), name);
        assert_eq!(loader.text(), Some(name.to_string()));
        let read = ChainLoader::from_text(&loader.text().unwrap());
        assert_eq!(read, loader);
        assert_eq!(Chain::from_loader(&read, None), Ok(chain));
        assert_eq!(Chain::from(known), chain);
    }
}

#[test]
fn a_path_is_written_as_its_text() {
    let loader = ChainLoader::Path("spec.yml".to_string());
    assert_eq!(loader.text(), Some("spec.yml".to_string()));
}

#[test]
fn chains_are_equal_by_variant_and_fields() {
    let custom = Chain::Custom { genesis_time_secs: 1, slot_time_secs: 2, genesis_fork_version: [0; 4] };
    assert_eq!(custom, custom);
    assert_ne!(custom, Chain::Mainnet);
    assert_ne!(Chain::Mainnet, Chain::Holesky);
    assert_ne!(
        custom,
        Chain::Custom { genesis_time_secs: 1, slot_time_secs: 2, genesis_fork_version: [0, 0, 0, 1] }
    );
    assert_ne!(
        custom,
        Chain::Custom { genesis_time_secs: 1, slot_time_secs: 3, genesis_fork_version: [0; 4] }
    );
    assert_ne!(
        custom,
        Chain::Custom { genesis_time_secs: 0, slot_time_secs: 2, genesis_fork_version: [0; 4] }
    );
    let mainnet_fields = Chain::Custom {
        genesis_time_secs: 1606824023,
        slot_time_secs: 12,
        genesis_fork_version: [0; 4],
    };
    assert_ne!(mainnet_fields, Chain::Mainnet);
}

#[test]
fn accessors_of_a_custom_chain_give_its_fields() {
    let custom =
        Chain::Custom { genesis_time_secs: 7, slot_time_secs: 3, genesis_fork_version: [9, 8, 7, 6] };
    assert_eq!(custom.genesis_time_sec(), 7);
    assert_eq!(custom.slot_time_sec(), 3);
    assert_eq!(custom.genesis_fork_version(), [9, 8, 7, 6]);
}

#[test]
fn accessors_of_known_chains_give_the_table() {
    assert_eq!(Chain::Mainnet.genesis_time_sec(), 1606824023);
    assert_eq!(Chain::Holesky.genesis_time_sec(), 1695902400);
    assert_eq!(Chain::Helder.genesis_time_sec(), 1718967660);
    assert_eq!(KnownChain::Mainnet.genesis_time_sec(), 1606824023);
    assert_eq!(Chain::Mainnet.genesis_fork_version(), [0, 0, 0, 0]);
    assert_eq!(Chain::Holesky.genesis_fork_version(), [1, 1, 112, 0]);
    assert_eq!(Chain::Helder.genesis_fork_version(), [16, 0, 0, 0]);
    assert_eq!(KnownChain::Helder.genesis_fork_version(), [16, 0, 0, 0]);
    for chain in [Chain::Mainnet, Chain::Holesky, Chain::Helder] {
        assert_eq!(chain.slot_time_sec(), 12);
    }
    for known in [KnownChain::Mainnet, KnownChain::Holesky, KnownChain::Helder] {
        assert_eq!(known.slot_time_sec(), 12);
    }
}

#[test]
fn chain_is_printed_with_its_fork_version_in_hexadecimal() {
    assert_eq!(Chain::Mainnet.debug_string(), "Mainnet");
    assert_eq!(Chain::Holesky.debug_string(), "Holesky");
    assert_eq!(Chain::Helder.debug_string(), "Helder");
    let custom = Chain::Custom {
        genesis_time_secs: 1695902400,
        slot_time_secs: 12,
        genesis_fork_version: [1, 1, 112, 0],
    };
    assert_eq!(
        custom.debug_string(),
        "Custom { genesis_time_secs: 1695902400, slot_time_secs: 12, genesis_fork_version: \"0x01017000\" }"
    );
    let zero = Chain::Custom { genesis_time_secs: 0, slot_time_secs: 0, genesis_fork_version: [0xab, 0xcd, 0xef, 0x09] };
    assert_eq!(
        zero.debug_string(),
        "Custom { genesis_time_secs: 0, slot_time_secs: 0, genesis_fork_version: \"0xabcdef09\" }"
    );
}
