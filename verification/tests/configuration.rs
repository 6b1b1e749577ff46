use lnd_fees::config::{
    cert_file_under, default_cert_file, default_macaroon_file, macaroon_file_under, network_name,
    Config, Network,
};

fn sample_config() -> Config {
    Config {
        interval: 60,
        low_fee_ppm: 10,
        low_fee_base: 0,
        medium_fee_ppm: 50,
        medium_fee_base: 1000,
        high_fee_ppm: 200,
        high_fee_base: 1000,
        lnd_host: String::from("127.0.0.1"),
        lnd_port: 10009,
        network: Network::Bitcoin,
        cert_file: None,
        macaroon_file: None,
    }
}

#[test]
fn network_names_match_chain_directories() {
    assert_eq!(network_name(&Network::Bitcoin), "mainnet");
    assert_eq!(network_name(&Network::Testnet), "testnet");
    assert_eq!(network_name(&Network::Signet), "signet");
    assert_eq!(network_name(&Network::Regtest), "regtest");
}

#[test]
fn default_cert_path_is_under_lnd_directory() {
    let path = default_cert_file().unwrap();
    assert!(path.ends_with("/.lnd/tls.cert"));
}

#[test]
fn default_macaroon_path_names_the_network() {
    let path = default_macaroon_file(&Network::Signet).unwrap();
    assert!(path.ends_with("/.lnd/data/chain/bitcoin/signet/admin.macaroon"));
}

#[test]
fn cert_file_prefers_the_override() {
    let mut config = sample_config();
    config.cert_file = Some(String::from("/tmp/tls.cert"));
    assert_eq!(config.cert_file().unwrap(), "/tmp/tls.cert");
}

#[test]
fn cert_file_falls_back_to_the_default() {
    let config = sample_config();
    assert!(config.cert_file().unwrap().ends_with("/.lnd/tls.cert"));
}

#[test]
fn macaroon_file_prefers_the_override() {
    let mut config = sample_config();
    config.macaroon_file = Some(String::from("/tmp/admin.macaroon"));
    assert_eq!(config.macaroon_file().unwrap(), "/tmp/admin.macaroon");
}

#[test]
fn macaroon_file_falls_back_to_the_network_default() {
    let mut config = sample_config();
    config.network = Network::Regtest;
    assert!(config
        .macaroon_file()
        .unwrap()
        .ends_with("/.lnd/data/chain/bitcoin/regtest/admin.macaroon"));
}

#[test]
fn tier_table_copies_the_configured_fees() {
    let tiers = sample_config().tiers();
    assert_eq!(tiers.low.fee_rate_ppm, 10);
    assert_eq!(tiers.low.base_fee_msat, 0);
    assert_eq!(tiers.medium.fee_rate_ppm, 50);
    assert_eq!(tiers.medium.base_fee_msat, 1000);
    assert_eq!(tiers.high.fee_rate_ppm, 200);
    assert_eq!(tiers.high.base_fee_msat, 1000);
}

#[test]
fn cert_path_under_home_strips_one_trailing_slash() {
    assert_eq!(cert_file_under("/home/user/"), "/home/user/.lnd/tls.cert");
    assert_eq!(cert_file_under("/home/user"), "/home/user/.lnd/tls.cert");
}

#[test]
fn macaroon_path_under_home_names_the_network() {
    assert_eq!(
        macaroon_file_under("/root", &Network::Testnet),
        "/root/.lnd/data/chain/bitcoin/testnet/admin.macaroon"
    );
}
