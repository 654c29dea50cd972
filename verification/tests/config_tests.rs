use chainledger::config::{Asset, AssetList, AssetSource, BlockchainConfig, Config, ConfigError};

fn chain(name: &str, network: &str, endpoint: &str, source: AssetSource) -> BlockchainConfig {
    BlockchainConfig {
        blockchain: name.to_string(),
        network: network.to_string(),
        endpoint: endpoint.to_string(),
        asset_list: source,
    }
}

fn sample_config() -> Config {
    Config {
        blockchain: vec![
            chain(
                "stellar",
                "testnet",
                "https://horizon-testnet.example.org",
                AssetSource::Single("stellar_assets.toml".to_string()),
            ),
            chain(
                "bitcoin",
                "public",
                "https://btc.example.org",
                AssetSource::Single("btc_assets.toml".to_string()),
            ),
        ],
        environment: Some("testnet".to_string()),
    }
}

#[test]
fn resolve_finds_unique_match() {
    let config = sample_config();
    let found = config.get_blockchain("stellar").expect("stellar entry exists");
    assert_eq!(found.blockchain, "stellar");
    assert_eq!(found.endpoint, "https://horizon-testnet.example.org");
    let other = config.get_blockchain("bitcoin").expect("bitcoin entry exists");
    assert_eq!(other.network, "public");
}

#[test]
fn resolve_absent_name_is_none() {
    let config = sample_config();
    assert!(config.get_blockchain("litecoin").is_none());
    assert!(config.get_blockchain("").is_none());
}

#[test]
fn resolve_first_match_wins_on_duplicates() {
    let config = Config {
        blockchain: vec![
            chain(
                "stellar",
                "testnet",
                "https://first.example.org",
                AssetSource::Single("a.toml".to_string()),
            ),
            chain(
                "stellar",
                "public",
                "https://second.example.org",
                AssetSource::Single("b.toml".to_string()),
            ),
        ],
        environment: None,
    };
    let found = config.get_blockchain("stellar").expect("entry exists");
    assert_eq!(found.endpoint, "https://first.example.org");
}

#[test]
fn empty_document_resolves_nothing() {
    let config = Config { blockchain: Vec::new(), environment: None };
    assert!(config.get_blockchain("stellar").is_none());
    assert_eq!(config.get_all_blockchains().len(), 0);
}

#[test]
fn get_all_blockchains_keeps_order() {
    let config = sample_config();
    let all = config.get_all_blockchains();
    assert_eq!(all.len(), 2);
    assert_eq!(all[0].blockchain, "stellar");
    assert_eq!(all[1].blockchain, "bitcoin");
}

#[test]
fn environment_selection_testnet() {
    let bc = chain(
        "stellar",
        "testnet",
        "https://h.example.org",
        AssetSource::PerEnvironment {
            testnet: "assets_testnet.toml".to_string(),
            public: "assets_public.toml".to_string(),
        },
    );
    assert_eq!(bc.select_asset_source("testnet"), "assets_testnet.toml");
}

#[test]
fn environment_selection_public() {
    let bc = chain(
        "stellar",
        "public",
        "https://h.example.org",
        AssetSource::PerEnvironment {
            testnet: "assets_testnet.toml".to_string(),
            public: "assets_public.toml".to_string(),
        },
    );
    assert_eq!(bc.select_asset_source("public"), "assets_public.toml");
}

#[test]
fn environment_selection_unrecognized_falls_back_to_testnet() {
    let bc = chain(
        "stellar",
        "staging",
        "https://h.example.org",
        AssetSource::PerEnvironment {
            testnet: "assets_testnet.toml".to_string(),
            public: "assets_public.toml".to_string(),
        },
    );
    assert_eq!(bc.select_asset_source("staging"), "assets_testnet.toml");
}

#[test]
fn single_source_ignores_environment() {
    let bc = chain(
        "stellar",
        "testnet",
        "https://h.example.org",
        AssetSource::Single("only.toml".to_string()),
    );
    assert_eq!(bc.select_asset_source("public"), "only.toml");
    assert_eq!(bc.select_asset_source("anything"), "only.toml");
}

#[test]
fn from_database_reports_not_implemented() {
    let r = Config::from_database("postgres://localhost/chains");
    match r {
        Err(ConfigError::NotImplemented(m)) => {
            assert_eq!(m, "Database loading not yet implemented");
        }
        _ => panic!("expected NotImplemented"),
    }
}

#[test]
fn config_error_descriptions() {
    assert_eq!(
        ConfigError::IoError("no such file".to_string()).describe(),
        "IO Error: no such file"
    );
    assert_eq!(
        ConfigError::ParseError("bad key".to_string()).describe(),
        "Parse Error: bad key"
    );
    assert_eq!(
        ConfigError::NotImplemented("later".to_string()).describe(),
        "Not Implemented: later"
    );
}

#[test]
fn asset_well_formedness() {
    let good = Asset {
        label: "Lumens".to_string(),
        code: "XLM".to_string(),
        issuer: "GABCDEFGH".to_string(),
    };
    assert!(good.check_wf());
    let no_code = Asset {
        label: "Broken".to_string(),
        code: String::new(),
        issuer: "GABCDEFGH".to_string(),
    };
    assert!(!no_code.check_wf());
    let no_issuer = Asset {
        label: "Broken".to_string(),
        code: "BRK".to_string(),
        issuer: String::new(),
    };
    assert!(!no_issuer.check_wf());
}

#[test]
fn asset_list_well_formedness() {
    let good = Asset {
        label: "Lumens".to_string(),
        code: "XLM".to_string(),
        issuer: "GABCDEFGH".to_string(),
    };
    let bad = Asset {
        label: "Broken".to_string(),
        code: String::new(),
        issuer: "GABCDEFGH".to_string(),
    };
    let empty = AssetList { asset: Vec::new() };
    assert!(empty.check_wf());
    let all_good = AssetList { asset: vec![good.clone(), good.clone()] };
    assert!(all_good.check_wf());
    let mixed = AssetList { asset: vec![good, bad] };
    assert!(!mixed.check_wf());
}
