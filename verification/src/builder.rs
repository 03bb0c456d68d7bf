//! The builder assembling a [`crate::FlorestaClient`].
//!
//! Construction is all-or-nothing: `build` acquires the chain state from
//! the given store and returns a fully assembled client with an unset
//! shutdown signal, or a construction error; no partial client exists.

use vstd::prelude::*;

verus! {

use crate::FlorestaClient;
use crate::chain::BlockchainError;
use crate::chain::ChainState;
use crate::chain::ChainStore;
use crate::config::Network;
use crate::config::UtreexoNodeConfig;
use crate::config::default_config;
use crate::config::default_datadir;
use crate::config::is_default_config;
use crate::config::same_but_location;
use crate::config::spec_default_datadir;
use crate::chain::spec_acquired_data;
use crate::chain::spec_fatal;
use crate::chain::spec_store_after;
use crate::shutdown::ShutdownFlag;

/// Accumulates a configuration and a verbosity choice, then assembles the
/// client in one fallible call.
pub struct FlorestaClientBuilder {
    /// The configuration the client will be built with.
    pub config: UtreexoNodeConfig,
    /// Whether to ask the logging collaborator for debug verbosity.
    pub debug: bool,
}

impl Default for FlorestaClientBuilder {
    /// The default builder: the default configuration, debug off.
    fn default() -> (r: Self)
        ensures
            is_default_config(r.config),
            r.debug == false,
    {
        FlorestaClientBuilder { config: default_config(), debug: false }
    }
}

impl FlorestaClientBuilder {
    /// Start from the default configuration.
    pub fn new() -> (r: Self)
        ensures
            is_default_config(r.config),
            r.debug == false,
    {
        Self::default()
    }

    /// Replace the entire configuration. Last writer wins when combined
    /// with [`Self::network`].
    pub fn with_config(self, config: UtreexoNodeConfig) -> (r: Self)
        ensures
            r.config == config,
            r.debug == self.debug,
    {
        FlorestaClientBuilder { config, debug: self.debug }
    }

    /// Choose the network, recomputing the default data directory for it.
    /// Every other setting is kept.
    pub fn network(self, network: Network) -> (r: Self)
        ensures
            r.config.network == network,
            r.config.datadir@ == spec_default_datadir(network),
            same_but_location(r.config, self.config),
            r.debug == self.debug,
    {
        let datadir = default_datadir(network);
        FlorestaClientBuilder {
            config: UtreexoNodeConfig { network, datadir, ..self.config },
            debug: self.debug,
        }
    }

    /// Choose logging verbosity. This only steers the external logging
    /// collaborator; it changes no behavior of the client.
    pub fn debug(self, debug: bool) -> (r: Self)
        ensures
            r.config == self.config,
            r.debug == debug,
    {
        FlorestaClientBuilder { config: self.config, debug }
    }

    /// Assemble the client against `store`: acquire the chain state
    /// (loading an existing one, or creating from genesis when the store
    /// is fresh), and return a client whose shutdown signal is unset.
    /// Succeeds if and only if the store is not fatal for the configured
    /// network; on failure no client exists.
    pub fn build(self, store: ChainStore) -> (r: Result<FlorestaClient, BlockchainError>)
        ensures
            match r {
                Ok(c) => !spec_fatal(store, self.config.network) && c.config == self.config
                    && c.debug == self.debug && c.chain.data == spec_acquired_data(
                    store,
                    self.config.network,
                ) && c.chain.subscribers@ == Seq::<u64>::empty() && c.store == spec_store_after(
                    store,
                    self.config.network,
                ) && c.kill_signal == (ShutdownFlag { requested: false }),
                Err(e) => spec_fatal(store, self.config.network) && e == BlockchainError::Database,
            },
    {
        let mut store = store;
        let network = self.config.network;
        match ChainState::acquire_chain_state(&mut store, network, self.config.assume_valid) {
            Ok((chain, _acquisition)) => Ok(FlorestaClient {
                config: self.config,
                debug: self.debug,
                chain,
                store,
                kill_signal: ShutdownFlag::new(),
            }),
            Err(e) => Err(e),
        }
    }
}

} // verus!
