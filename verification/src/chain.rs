//! Chain state, its durable store, and the acquisition state machine.
//!
//! The chain state is the validated view of the blockchain: header height,
//! validated height, whether initial block download is still running, and
//! the registry of block consumers. It is backed by a durable store that a
//! client owns for its lifetime. Acquisition opens the store and loads an
//! existing state, falling back to initializing a fresh one from genesis
//! when the store was never initialized; any other condition of the store
//! is an unrecoverable construction error.

use vstd::prelude::*;

verus! {

use crate::config::AssumeValidArg;
use crate::config::Network;

/// The persisted part of a chain state.
#[derive(Clone, Copy, PartialEq, Eq, Structural, Debug)]
pub struct ChainData {
    /// The network this chain belongs to.
    pub network: Network,
    /// Height of the best known header.
    pub height: u32,
    /// Height up to which blocks are validated.
    pub validation_index: u32,
    /// Whether initial block download is still running.
    pub ibd: bool,
}

/// What a durable store holds when opened.
#[derive(Clone, Copy, PartialEq, Eq, Structural, Debug)]
pub enum StoreContent {
    /// The store was never initialized: no chain lives here yet.
    Uninitialized,
    /// The store holds a persisted chain.
    Saved(ChainData),
    /// The store holds something no chain can be read from.
    Corrupted,
}

/// A handle to the durable store at a client's data directory. Opening one
/// always succeeds structurally; what it holds is classified on load.
#[derive(Clone, Copy, PartialEq, Eq, Structural, Debug)]
pub struct ChainStore {
    /// What the store holds.
    pub content: StoreContent,
}

/// Failures the chain layer reports.
#[derive(Clone, Copy, PartialEq, Eq, Structural, Debug)]
pub enum BlockchainError {
    /// The store was never initialized; recoverable by creating from genesis.
    ChainNotInitialized,
    /// The store cannot back a chain for the requested network; fatal.
    Database,
}

/// How a chain state was obtained.
#[derive(Clone, Copy, PartialEq, Eq, Structural, Debug)]
pub enum Acquisition {
    /// An existing persisted chain was loaded.
    Restored,
    /// A fresh chain was initialized from genesis.
    CreatedNew,
}

/// One notification handed to a registered consumer.
#[derive(Clone, Copy, PartialEq, Eq, Structural, Debug)]
pub struct BlockNotification {
    /// The consumer being notified.
    pub consumer: u64,
    /// The accepted block.
    pub block: u64,
    /// The height the block was accepted at.
    pub height: u32,
}

/// A record the node keeps per connected peer.
pub struct PeerInfo {
    /// The peer's address, as text.
    pub address: String,
    /// The user agent the peer advertised.
    pub user_agent: String,
    /// The height the peer reported on handshake.
    pub initial_height: u32,
}

/// The chain state at genesis for `network`: empty chain, still in initial
/// block download.
pub open spec fn spec_genesis(network: Network) -> ChainData {
    ChainData { network, height: 0, validation_index: 0, ibd: true }
}

/// The store holds a chain that can be loaded for `network`.
pub open spec fn spec_loadable(store: ChainStore, network: Network) -> bool {
    match store.content {
        StoreContent::Saved(c) => c.network == network,
        _ => false,
    }
}

/// The store was never initialized.
pub open spec fn spec_fresh(store: ChainStore) -> bool {
    store.content is Uninitialized
}

/// The store can neither be loaded for `network` nor initialized: an
/// unrecoverable construction error.
pub open spec fn spec_fatal(store: ChainStore, network: Network) -> bool {
    !spec_loadable(store, network) && !spec_fresh(store)
}

/// The chain data acquisition yields for `network`: the persisted chain
/// where one is loadable, genesis otherwise.
pub open spec fn spec_acquired_data(store: ChainStore, network: Network) -> ChainData {
    match store.content {
        StoreContent::Saved(c) => if c.network == network {
            c
        } else {
            spec_genesis(network)
        },
        _ => spec_genesis(network),
    }
}

/// How acquisition classifies the store: load an existing chain, or create
/// a fresh one.
pub open spec fn spec_acquisition(store: ChainStore, network: Network) -> Acquisition {
    if spec_loadable(store, network) {
        Acquisition::Restored
    } else {
        Acquisition::CreatedNew
    }
}

/// The store after a successful acquisition: untouched when a chain was
/// loaded, initialized with genesis when it was fresh.
pub open spec fn spec_store_after(store: ChainStore, network: Network) -> ChainStore {
    if spec_fresh(store) {
        ChainStore { content: StoreContent::Saved(spec_genesis(network)) }
    } else {
        store
    }
}

/// The validated chain state a client owns: the persisted data plus the
/// append-only registry of block consumers.
pub struct ChainState {
    /// The persisted part of the state.
    pub data: ChainData,
    /// Registered block consumers, in registration order.
    pub subscribers: Vec<u64>,
}

impl ChainState {
    /// Load an existing chain state from `store`, scoped to `network`. The
    /// result classifies the store exactly: a loadable store loads, a fresh
    /// store reports `ChainNotInitialized`, anything else is a fatal
    /// `Database` error. The assume-valid policy is carried to the
    /// validation engine and does not change what is loaded.
    pub fn load_chain_state(
        store: &ChainStore,
        network: Network,
        _assume_valid: AssumeValidArg,
    ) -> (r: Result<ChainState, BlockchainError>)
        ensures
            match r {
                Ok(c) => spec_loadable(*store, network) && c.data == spec_acquired_data(
                    *store,
                    network,
                ) && c.subscribers@ == Seq::<u64>::empty(),
                Err(BlockchainError::ChainNotInitialized) => spec_fresh(*store),
                Err(BlockchainError::Database) => spec_fatal(*store, network),
            },
    {
        match store.content {
            StoreContent::Saved(c) => {
                if c.network == network {
                    Ok(ChainState { data: c, subscribers: Vec::new() })
                } else {
                    Err(BlockchainError::Database)
                }
            }
            StoreContent::Uninitialized => Err(BlockchainError::ChainNotInitialized),
            StoreContent::Corrupted => Err(BlockchainError::Database),
        }
    }

    /// Initialize a fresh chain state from genesis for `network`, writing
    /// the genesis record into `store`: after this, the store is
    /// initialized and a later load finds the chain.
    pub fn new_chain_state(
        store: &mut ChainStore,
        network: Network,
        _assume_valid: AssumeValidArg,
    ) -> (r: ChainState)
        ensures
            r.data == spec_genesis(network),
            r.subscribers@ == Seq::<u64>::empty(),
            *final(store) == (ChainStore { content: StoreContent::Saved(spec_genesis(network)) }),
    {
        let data = ChainData { network, height: 0, validation_index: 0, ibd: true };
        store.content = StoreContent::Saved(data);
        ChainState { data, subscribers: Vec::new() }
    }

    /// The acquisition state machine: try to load, fall back to creating
    /// from genesis when the store was never initialized, propagate any
    /// other condition as a fatal error. Succeeds if and only if the store
    /// is not fatal for `network`, and says which branch was taken.
    pub fn acquire_chain_state(store: &mut ChainStore, network: Network, assume_valid: AssumeValidArg) -> (r:
        Result<(ChainState, Acquisition), BlockchainError>)
        ensures
            match r {
                Ok(p) => !spec_fatal(*old(store), network) && p.0.data == spec_acquired_data(
                    *old(store),
                    network,
                ) && p.0.subscribers@ == Seq::<u64>::empty() && p.1 == spec_acquisition(
                    *old(store),
                    network,
                ) && *final(store) == spec_store_after(*old(store), network),
                Err(e) => spec_fatal(*old(store), network) && e == BlockchainError::Database
                    && *final(store) == *old(store),
            },
    {
        match Self::load_chain_state(store, network, assume_valid) {
            Ok(chain) => Ok((chain, Acquisition::Restored)),
            Err(BlockchainError::ChainNotInitialized) => {
                let chain = Self::new_chain_state(store, network, assume_valid);
                Ok((chain, Acquisition::CreatedNew))
            }
            Err(e) => Err(e),
        }
    }

    /// Append a consumer to the registry. Registration order is kept; no
    /// entry is ever removed.
    pub fn subscribe(&mut self, consumer: u64)
        ensures
            final(self).data == old(self).data,
            final(self).subscribers@ == old(self).subscribers@.push(consumer),
    {
        self.subscribers.push(consumer);
    }

    /// Accept a new block: the chain grows by one header, and every
    /// registered consumer is notified exactly once, in registration order,
    /// with the block and the height it was accepted at.
    pub fn accept_block(&mut self, block: u64) -> (notifications: Vec<BlockNotification>)
        requires
            old(self).data.height < u32::MAX,
        ensures
            final(self).data == (ChainData {
                height: (old(self).data.height + 1) as u32,
                ..old(self).data
            }),
            final(self).subscribers@ == old(self).subscribers@,
            notifications@.len() == old(self).subscribers@.len(),
            forall|i: int| 0 <= i < notifications@.len() ==> notifications@[i]
                == (BlockNotification {
                consumer: old(self).subscribers@[i],
                block,
                height: (old(self).data.height + 1) as u32,
            }),
    {
        let height = self.data.height + 1;
        self.data.height = height;
        let mut notifications: Vec<BlockNotification> = Vec::new();
        let mut i: usize = 0;
        while i < self.subscribers.len()
            invariant
                0 <= i <= self.subscribers@.len(),
                notifications@.len() == i,
                forall|j: int| 0 <= j < i ==> notifications@[j] == (BlockNotification {
                    consumer: self.subscribers@[j],
                    block,
                    height,
                }),
            decreases self.subscribers@.len() - i,
        {
            notifications.push(BlockNotification { consumer: self.subscribers[i], block, height });
            i += 1;
        }
        notifications
    }
}

/// Acquisition against a fresh store is deterministic and idempotent:
/// the first pass creates the genesis chain and initializes the store, and
/// a second pass over the resulting store classifies it as already
/// initialized and loads that same chain back, leaving the store untouched.
pub proof fn lemma_second_acquisition_loads(store: ChainStore, network: Network)
    requires
        spec_fresh(store),
    ensures
        spec_acquisition(store, network) == Acquisition::CreatedNew,
        spec_acquired_data(store, network) == spec_genesis(network),
        !spec_fatal(spec_store_after(store, network), network),
        spec_acquisition(spec_store_after(store, network), network) == Acquisition::Restored,
        spec_acquired_data(spec_store_after(store, network), network) == spec_acquired_data(
            store,
            network,
        ),
        spec_store_after(spec_store_after(store, network), network) == spec_store_after(
            store,
            network,
        ),
{
}

} // verus!
