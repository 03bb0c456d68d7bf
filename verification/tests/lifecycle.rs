use bdk_floresta::builder::FlorestaClientBuilder;
use bdk_floresta::chain::Acquisition;
use bdk_floresta::chain::BlockchainError;
use bdk_floresta::chain::ChainData;
use bdk_floresta::chain::ChainState;
use bdk_floresta::chain::ChainStore;
use bdk_floresta::chain::StoreContent;
use bdk_floresta::config::AssumeValidArg;
use bdk_floresta::config::Network;

fn fresh_store() -> ChainStore {
    ChainStore { content: StoreContent::Uninitialized }
}

#[test]
fn builder_defaults_match_main_network() {
    let b = FlorestaClientBuilder::new();
    assert_eq!(b.config.network, Network::Bitcoin);
    assert_eq!(b.config.datadir, "./data/bitcoin");
    assert!(!b.config.compact_filters);
    assert_eq!(b.config.filter_start_height, None);
    assert_eq!(b.config.assume_valid, AssumeValidArg::Disabled);
    assert!(!b.config.pow_fraud_proofs);
    assert!(!b.config.backfill);
    assert_eq!(b.config.user_agent, "floresta-wire");
    assert!(b.config.allow_v1_fallback);
    assert_eq!(b.config.fixed_peer, None);
    assert_eq!(b.config.proxy, None);
    assert_eq!(b.config.max_inflight, 10);
    assert_eq!(b.config.max_outbound, 10);
    assert_eq!(b.config.max_banscore, 100);
    assert!(!b.debug);
}

#[test]
fn network_recomputes_datadir() {
    let b = FlorestaClientBuilder::new().network(Network::Signet);
    assert_eq!(b.config.network, Network::Signet);
    assert_eq!(b.config.datadir, "./data/signet");
    let b = b.network(Network::Regtest);
    assert_eq!(b.config.datadir, "./data/regtest");
    let b = b.network(Network::Testnet);
    assert_eq!(b.config.datadir, "./data/testnet");
}

#[test]
fn with_config_last_writer_wins() {
    let mut custom = bdk_floresta::config::default_config();
    custom.network = Network::Regtest;
    custom.max_outbound = 3;
    let b = FlorestaClientBuilder::new()
        .network(Network::Signet)
        .with_config(custom);
    assert_eq!(b.config.network, Network::Regtest);
    assert_eq!(b.config.max_outbound, 3);
}

#[test]
fn debug_only_toggles_verbosity() {
    let b = FlorestaClientBuilder::new().debug(true);
    assert!(b.debug);
    assert_eq!(b.config.network, Network::Bitcoin);
    let b = b.debug(false);
    assert!(!b.debug);
}

#[test]
fn build_fresh_testnet_starts_at_genesis() {
    let client = FlorestaClientBuilder::new()
        .network(Network::Testnet)
        .build(fresh_store())
        .expect("fresh store must build");
    assert!(client.is_in_ibd());
    assert_eq!(client.get_height(), 0);
    assert_eq!(client.get_validation_height(), 0);
    assert!(!client.kill_signal.is_set());
    assert_eq!(
        client.store.content,
        StoreContent::Saved(ChainData {
            network: Network::Testnet,
            height: 0,
            validation_index: 0,
            ibd: true,
        })
    );
}

#[test]
fn second_build_restores_instead_of_recreating() {
    let first = FlorestaClientBuilder::new()
        .network(Network::Testnet)
        .build(fresh_store())
        .expect("fresh store must build");
    let persisted = first.store;
    let chain_data = first.chain.data;

    let second = FlorestaClientBuilder::new()
        .network(Network::Testnet)
        .build(persisted)
        .expect("initialized store must build");
    assert_eq!(second.chain.data, chain_data);
    assert_eq!(second.store, persisted);
}

#[test]
fn acquisition_classifies_create_then_restore() {
    let mut store = fresh_store();
    let (chain, how) =
        ChainState::acquire_chain_state(&mut store, Network::Regtest, AssumeValidArg::Disabled)
            .expect("fresh store acquires");
    assert_eq!(how, Acquisition::CreatedNew);
    assert_eq!(chain.data.height, 0);

    let (again, how) =
        ChainState::acquire_chain_state(&mut store, Network::Regtest, AssumeValidArg::Disabled)
            .expect("initialized store acquires");
    assert_eq!(how, Acquisition::Restored);
    assert_eq!(again.data, chain.data);
}

#[test]
fn corrupted_store_is_a_fatal_build_error() {
    let r = FlorestaClientBuilder::new()
        .network(Network::Bitcoin)
        .build(ChainStore { content: StoreContent::Corrupted });
    assert!(matches!(r, Err(BlockchainError::Database)));
}

#[test]
fn foreign_network_store_is_a_fatal_build_error() {
    let bitcoin_client = FlorestaClientBuilder::new()
        .build(fresh_store())
        .expect("fresh store must build");
    let r = FlorestaClientBuilder::new()
        .network(Network::Signet)
        .build(bitcoin_client.store);
    assert!(matches!(r, Err(BlockchainError::Database)));
}

#[test]
fn load_classifies_fresh_store_as_not_initialized() {
    let store = fresh_store();
    let r = ChainState::load_chain_state(&store, Network::Bitcoin, AssumeValidArg::Disabled);
    assert!(matches!(r, Err(BlockchainError::ChainNotInitialized)));
}
