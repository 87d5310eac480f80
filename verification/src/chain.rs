//! The per-voice signal chain: a source-player node and a gain node, wired
//! source to gain to the context's shared destination. A chain is connected
//! from construction until its single disconnection, and that disconnection
//! happens exactly once, however often `disconnect` is called.

use vstd::prelude::*;
use web_audio_api::context::AudioContext;
use web_audio_api::AudioBuffer;
use web_audio_api::node::AudioBufferSourceNode;
use web_audio_api::node::AudioScheduledSourceNode;
use web_audio_api::node::GainNode;
use std::sync::Arc;
use core::sync::atomic::AtomicUsize;
use crate::engine;
use crate::state::LifecycleFlag;

verus! {

/// One voice's segment of the node graph.
pub struct SignalChain {
    source: AudioBufferSourceNode,
    gain: GainNode,
    connected: bool,
    started: bool,
    disconnect_count: Ghost<nat>,
    on_ended: Ghost<Option<Arc<AtomicUsize>>>,
}

impl SignalChain {
    /// Whether the chain's nodes are still wired into the shared graph.
    pub closed spec fn is_connected(self) -> bool {
        self.connected
    }

    /// Whether playback of the source node has been started.
    pub closed spec fn is_started(self) -> bool {
        self.started
    }

    /// How often this chain's nodes have been removed from the graph.
    pub closed spec fn disconnects(self) -> nat {
        self.disconnect_count@
    }

    /// The lifecycle cell, if any, that the engine will move to its ended
    /// state when this chain's source node finishes playing.
    pub closed spec fn completion_target(self) -> Option<Arc<AtomicUsize>> {
        self.on_ended@
    }

    /// A chain is connected exactly as long as it has never been
    /// disconnected, and it is never disconnected more than once.
    pub closed spec fn inv(self) -> bool {
        &&& self.connected ==> self.disconnect_count@ == 0
        &&& !self.connected ==> self.disconnect_count@ == 1
    }

    /// Allocate a source node bound to `buffer` and a gain node at
    /// `gain_millis` thousandths of unity, and wire source, gain and the
    /// context's shared destination. The chain comes back connected, not yet
    /// started, and never disconnected.
    pub fn connect(context: &AudioContext, buffer: &AudioBuffer, gain_millis: u32) -> (chain:
        SignalChain)
        requires
            gain_millis < 1000,
        ensures
            chain.inv(),
            chain.is_connected(),
            !chain.is_started(),
            chain.disconnects() == 0,
            chain.completion_target() is None,
    {
        let (source, gain) = engine::build_chain(context, buffer, gain_millis);
        SignalChain {
            source,
            gain,
            connected: true,
            started: false,
            disconnect_count: Ghost(0),
            on_ended: Ghost(None),
        }
    }

    /// Register `flag` to be moved to its ended state when this chain's
    /// source node finishes playing.
    ///
    /// Relies on `AudioScheduledSourceNode::set_onended`: the engine invokes
    /// the callback at most once, from its own context, when the node's
    /// playback reaches its natural end. The callback only runs
    /// `LifecycleFlag::mark_ended` on its own reference to `flag`, which the
    /// recorded completion target states.
    #[verifier::external_body]
    pub fn register_completion(&mut self, flag: &LifecycleFlag)
        ensures
            final(self).completion_target() == Some(flag.id()),
            final(self).is_connected() == old(self).is_connected(),
            final(self).is_started() == old(self).is_started(),
            final(self).disconnects() == old(self).disconnects(),
            final(self).inv() == old(self).inv(),
    {
        let shared = flag.share();
        self.source.set_onended(move |_| shared.mark_ended());
    }

    /// Start playback of the source node. A completion target must already
    /// be registered, so that a completion arriving right after the start
    /// cannot be missed.
    ///
    /// Relies on `AudioScheduledSourceNode::start`: playback begins at the
    /// current time; `start` panics when the node was already started, which
    /// the precondition rules out, since `is_started` records every start of
    /// this chain's node.
    #[verifier::external_body]
    pub fn begin_playback(&mut self)
        requires
            !old(self).is_started(),
            old(self).completion_target() is Some,
        ensures
            final(self).is_started(),
            final(self).is_connected() == old(self).is_connected(),
            final(self).disconnects() == old(self).disconnects(),
            final(self).completion_target() == old(self).completion_target(),
            final(self).inv() == old(self).inv(),
    {
        self.source.start();
        self.started = true;
    }

    /// Remove the chain's nodes from the shared graph. Idempotent: whatever
    /// the chain's prior state, afterwards it is disconnected and its nodes
    /// have been removed exactly once.
    pub fn disconnect(&mut self)
        requires
            old(self).inv(),
        ensures
            final(self).inv(),
            !final(self).is_connected(),
            final(self).disconnects() == 1,
            final(self).is_started() == old(self).is_started(),
            final(self).completion_target() == old(self).completion_target(),
    {
        if self.connected {
            engine::disconnect_source(&self.source);
            engine::disconnect_gain(&self.gain);
            self.connected = false;
            proof {
                self.disconnect_count@ = self.disconnect_count@ + 1;
            }
        }
    }
}

/// Law: a chain that is no longer connected has had its nodes removed from
/// the graph exactly once — teardown neither leaks a connection nor removes
/// twice.
pub proof fn lemma_teardown_exactly_once(chain: SignalChain)
    requires
        chain.inv(),
        !chain.is_connected(),
    ensures
        chain.disconnects() == 1,
{
}

} // verus!
