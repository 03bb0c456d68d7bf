//! Lifecycle and shutdown coordination for an embedded chain-validating node.
//!
//! The library models the control surface of a long-running node: a
//! configuration-driven builder, idempotent chain-state acquisition
//! (open-existing-or-create-new), a monotonic shutdown signal, a fan-out
//! block-subscription registry, and a cooperative maintenance loop that
//! races the shutdown signal against a periodic timer. The validation and
//! peer-wire engines themselves are external collaborators; the embedding
//! runtime performs their I/O and hands the outcomes to the functions here.

use vstd::prelude::*;

pub mod builder;
pub mod chain;
pub mod config;
pub mod maintenance;
pub mod shutdown;

verus! {

use crate::chain::ChainState;
use crate::chain::ChainStore;
use crate::chain::StoreContent;
use crate::chain::BlockchainError;
use crate::config::UtreexoNodeConfig;
use crate::shutdown::ShutdownFlag;

/// A running client: the configuration it was built with, the chain state it
/// owns, the store backing that state, and the shared shutdown signal.
pub struct FlorestaClient {
    /// Configuration parameters, immutable for the client's lifetime.
    pub config: UtreexoNodeConfig,
    /// Whether the logging collaborator was asked for debug verbosity.
    pub debug: bool,
    /// The validated chain state the node synchronizes.
    pub chain: ChainState,
    /// The durable store backing `chain`; `flush` persists into it.
    pub store: ChainStore,
    /// Stop signal observed cooperatively by every loop of the client.
    pub kill_signal: ShutdownFlag,
}

impl FlorestaClient {
    /// The client after an explicit `shutdown` call: only the signal is set.
    pub open spec fn spec_after_shutdown(self) -> FlorestaClient {
        FlorestaClient { kill_signal: self.kill_signal.spec_triggered(), ..self }
    }

    /// The client after the interrupt path ran: the chain is flushed to the
    /// store, and then the signal is set.
    pub open spec fn spec_after_interrupt(self) -> FlorestaClient {
        FlorestaClient {
            store: ChainStore { content: StoreContent::Saved(self.chain.data) },
            kill_signal: self.kill_signal.spec_triggered(),
            ..self
        }
    }

    /// Report the outcome of a dial attempt the runtime performed for
    /// `connect`. The node answers `Some(true)` when the peer was reached,
    /// `Some(false)` when it was not, and `None` when the command channel
    /// was unavailable; only the first counts as connected. Read-only: a
    /// failed dial cannot corrupt the client.
    pub fn connect(&self, dialed: Option<bool>) -> (r: bool)
        ensures
            r == (dialed == Some(true)),
    {
        match dialed {
            Some(true) => true,
            _ => false,
        }
    }

    /// Register a consumer for new-block events. Consumers are appended, so
    /// notification order is registration order; there is no unsubscribe.
    pub fn subscribe_block(&mut self, consumer: u64)
        ensures
            final(self).chain.data == old(self).chain.data,
            final(self).chain.subscribers@ == old(self).chain.subscribers@.push(consumer),
            final(self).config == old(self).config,
            final(self).debug == old(self).debug,
            final(self).store == old(self).store,
            final(self).kill_signal == old(self).kill_signal,
    {
        self.chain.subscribe(consumer);
    }

    /// Whether the chain is still in initial block download.
    pub fn is_in_ibd(&self) -> (r: bool)
        ensures
            r == self.chain.data.ibd,
    {
        self.chain.data.ibd
    }

    /// The addresses of the peers the node is connected to, from the answer
    /// `peers` the runtime got for its query. An unavailable query channel
    /// (`None`) degrades to an empty list, never to an error.
    pub fn get_peers(&self, peers: Option<Vec<crate::chain::PeerInfo>>) -> (r: Vec<String>)
        ensures
            match peers {
                Some(ps) => r@.len() == ps@.len() && forall|i: int|
                    0 <= i < r@.len() ==> r@[i]@ == ps@[i].address@,
                None => r@.len() == 0,
            },
    {
        let mut addresses: Vec<String> = Vec::new();
        match peers {
            Some(ps) => {
                let mut i: usize = 0;
                while i < ps.len()
                    invariant
                        0 <= i <= ps@.len(),
                        addresses@.len() == i,
                        forall|j: int| 0 <= j < i ==> addresses@[j]@ == ps@[j].address@,
                    decreases ps@.len() - i,
                {
                    addresses.push(ps[i].address.clone());
                    i += 1;
                }
                addresses
            }
            None => addresses,
        }
    }

    /// The current header height of the chain.
    pub fn get_height(&self) -> (r: u32)
        ensures
            r == self.chain.data.height,
    {
        self.chain.data.height
    }

    /// The height up to which blocks have been validated.
    pub fn get_validation_height(&self) -> (r: u32)
        ensures
            r == self.chain.data.validation_index,
    {
        self.chain.data.validation_index
    }

    /// Persist the current chain state into the store. Never fails at this
    /// layer; the store ends up holding exactly the chain's data.
    pub fn flush(&mut self) -> (r: Result<(), BlockchainError>)
        ensures
            r is Ok,
            final(self).store == (ChainStore {
                content: StoreContent::Saved(old(self).chain.data),
            }),
            final(self).chain == old(self).chain,
            final(self).config == old(self).config,
            final(self).debug == old(self).debug,
            final(self).kill_signal == old(self).kill_signal,
    {
        self.store = ChainStore { content: StoreContent::Saved(self.chain.data) };
        Ok(())
    }

    /// Request shutdown: set the signal and nothing else. This call does not
    /// flush; callers relying on it alone must flush separately. Setting an
    /// already-set signal changes nothing, so a second call is a no-op.
    pub fn shutdown(&mut self) -> (r: Result<(), BlockchainError>)
        ensures
            r is Ok,
            *final(self) == old(self).spec_after_shutdown(),
    {
        self.kill_signal.trigger();
        Ok(())
    }

    /// The interrupt path: flush the chain to the store first, then set the
    /// shutdown signal. The order matters: any loop that observes the signal
    /// as set may assume the flush has already been issued.
    pub fn handle_interrupt(&mut self)
        ensures
            *final(self) == old(self).spec_after_interrupt(),
    {
        let _ = self.flush();
        self.kill_signal.trigger();
    }
}

/// Requesting shutdown twice leaves the client exactly as one request does:
/// the signal's one-way transition makes repeated calls safe.
pub proof fn lemma_shutdown_idempotent(c: FlorestaClient)
    ensures
        c.spec_after_shutdown().spec_after_shutdown() == c.spec_after_shutdown(),
{
}

/// Every way a component moves the client's signal - an explicit shutdown,
/// or the interrupt path - is a step of the signal's step relation, so the
/// monotonicity law of [`crate::shutdown::lemma_trace_monotonic`] covers
/// any history of client operations.
pub proof fn lemma_client_ops_step_the_signal(c: FlorestaClient)
    ensures
        crate::shutdown::spec_flag_step(c.kill_signal, c.spec_after_shutdown().kill_signal),
        crate::shutdown::spec_flag_step(c.kill_signal, c.spec_after_interrupt().kill_signal),
{
}

} // verus!
