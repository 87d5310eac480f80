//! One playback voice: a signal chain plus the lifecycle flag it shares with
//! the engine's completion callback, and the shared handle through which
//! owners poll a voice's liveness.

use vstd::prelude::*;
use std::sync::Arc;
use core::sync::atomic::AtomicUsize;
use web_audio_api::context::AudioContext;
use web_audio_api::AudioBuffer;
use crate::chain::SignalChain;
use crate::state;
use crate::state::LifecycleFlag;
use crate::state::PLAYING_CODE;

verus! {

/// One independently timed playback of the source clip, with its own gain
/// stage. The sound owns its signal chain; its lifecycle flag is shared with
/// the engine's completion callback and with every handle to this voice.
pub struct Sound {
    chain: SignalChain,
    flag: LifecycleFlag,
}

/// A shared reference to one voice's lifecycle flag. A handle grants its
/// holder a liveness query and nothing else: it carries no rights over the
/// voice's node wiring. Reading the flag takes one atomic load and acquires
/// no lock, so a liveness query can never deadlock against the engine's
/// completion callback.
#[derive(Clone)]
pub struct SoundHandle {
    flag: LifecycleFlag,
}

impl Sound {
    /// The identity of this voice's shared lifecycle cell.
    pub closed spec fn flag_id(self) -> Arc<AtomicUsize> {
        self.flag.id()
    }

    /// Whether this voice's chain is still wired into the shared graph.
    pub closed spec fn chain_connected(self) -> bool {
        self.chain.is_connected()
    }

    /// How often this voice's chain has been removed from the graph.
    pub closed spec fn disconnects(self) -> nat {
        self.chain.disconnects()
    }

    /// The engine's completion callback is registered on this voice's own
    /// lifecycle cell: when playback ends, this voice's flag — and no
    /// other's — is moved to its ended state.
    pub closed spec fn completion_wired(self) -> bool {
        self.chain.completion_target() == Some(self.flag.id())
    }

    /// This voice's lifecycle cell was created holding the playing code.
    pub closed spec fn flag_starts_playing(self) -> bool {
        self.flag.starts_playing()
    }

    /// A voice's chain respects the single-disconnect discipline, its
    /// playback was started at creation, its completion callback is wired to
    /// its own flag, and that flag began in the playing state.
    pub closed spec fn inv(self) -> bool {
        &&& self.chain.inv()
        &&& self.chain.is_started()
        &&& self.completion_wired()
        &&& self.flag_starts_playing()
    }

    /// A voice that has been reclaimed: still well formed, no longer wired
    /// into the graph, and disconnected exactly once.
    pub open spec fn torn_down(self) -> bool {
        self.inv() && !self.chain_connected() && self.disconnects() == 1
    }

    /// Create one voice: build its signal chain against the shared context
    /// and buffer at a gain of `gain_millis` thousandths of unity, allocate
    /// its lifecycle flag in the playing state, register the completion
    /// callback that will move the flag to its ended state, and start
    /// playback. The voice comes back live and connected.
    pub fn create(context: &AudioContext, buffer: &AudioBuffer, gain_millis: u32) -> (sound: Sound)
        requires
            gain_millis < 1000,
        ensures
            sound.inv(),
            sound.chain_connected(),
            sound.disconnects() == 0,
            sound.completion_wired(),
            sound.flag_starts_playing(),
    {
        let mut chain = SignalChain::connect(context, buffer, gain_millis);
        let flag = LifecycleFlag::new();
        chain.register_completion(&flag);
        chain.begin_playback();
        Sound { chain, flag }
    }

    /// A handle to this voice: it observes the same lifecycle flag, so it
    /// reports on this voice and on no other.
    pub fn handle(&self) -> (handle: SoundHandle)
        ensures
            handle.flag_id() == self.flag_id(),
    {
        SoundHandle { flag: self.flag.share() }
    }

    /// The code currently stored in this voice's lifecycle cell; interpreted
    /// by the total functions of `state`.
    pub fn read_code(&self) -> usize {
        self.flag.read_code()
    }

    /// Tear the voice down: remove its chain from the shared graph. Safe to
    /// call in any lifecycle state — a voice may be torn down while still
    /// playing — and idempotent: afterwards the chain has been removed
    /// exactly once.
    pub fn teardown(&mut self)
        requires
            old(self).inv(),
        ensures
            final(self).torn_down(),
            final(self).flag_id() == old(self).flag_id(),
    {
        self.chain.disconnect();
    }
}

impl SoundHandle {
    /// The identity of the observed voice's shared lifecycle cell.
    pub closed spec fn flag_id(self) -> Arc<AtomicUsize> {
        self.flag.id()
    }

    /// Poll the observed voice once: the code read from its lifecycle cell
    /// together with the liveness verdict, which is true exactly when that
    /// code is the playing code. The read is a single atomic load — no lock
    /// is taken, so it cannot deadlock against the completion callback — and
    /// every value the cell can hold yields a defined verdict.
    pub fn poll(&self) -> (r: (usize, bool))
        ensures
            r.1 == (r.0 == PLAYING_CODE),
    {
        let code = self.flag.read_code();
        (code, state::code_is_playing(code))
    }

    /// Whether the observed voice is still playing: the verdict of one poll,
    /// that is, whether the flag held the playing code at the moment of the
    /// read — true from the voice's creation until the engine delivers its
    /// completion notification (or a stop is recorded).
    pub fn is_playing(&self) -> bool {
        self.poll().1
    }

    /// Another handle to the same voice: sharing a handle never creates a
    /// new voice.
    pub fn share(&self) -> (handle: SoundHandle)
        ensures
            handle.flag_id() == self.flag_id(),
    {
        SoundHandle { flag: self.flag.share() }
    }
}

} // verus!
