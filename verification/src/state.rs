//! Playback lifecycle state: a tri-state flag shared between a voice's owner
//! and the audio engine's completion notification, together with the state
//! machine that governs its transitions.

use vstd::prelude::*;
use std::sync::Arc;
use core::sync::atomic::AtomicUsize;
use core::sync::atomic::Ordering;

verus! {

/// Integer code stored in the shared cell while the voice is playing.
pub const PLAYING_CODE: usize = 0;

/// Integer code stored after an explicit stop request.
pub const STOPPED_CODE: usize = 1;

/// Integer code stored once the engine reports natural completion.
pub const ENDED_CODE: usize = 2;

/// The lifecycle of one voice: it starts out `Playing` and moves forward,
/// at most once, into one of the two terminal states.
#[derive(Clone, Copy, PartialEq, Eq, Structural, Debug)]
pub enum SoundState {
    /// Playback is in progress.
    Playing,
    /// Playback was stopped by an explicit request (reserved; never produced
    /// by natural completion).
    Stopped,
    /// The engine delivered the completion notification.
    Ended,
}

/// The two events that can move a voice out of `Playing`.
#[derive(Clone, Copy, PartialEq, Eq, Structural, Debug)]
pub enum LifecycleEvent {
    /// The engine reports that playback ran to its natural end.
    Completion,
    /// An owner asks for playback to stop early.
    Stop,
}

/// A state is terminal when no event may change it again.
pub open spec fn is_terminal(s: SoundState) -> bool {
    s == SoundState::Stopped || s == SoundState::Ended
}

/// The transition function of the lifecycle: `Playing` moves to `Ended` on
/// completion and to `Stopped` on a stop request; terminal states absorb
/// every event.
pub open spec fn step(s: SoundState, e: LifecycleEvent) -> SoundState {
    if is_terminal(s) {
        s
    } else {
        match e {
            LifecycleEvent::Completion => SoundState::Ended,
            LifecycleEvent::Stop => SoundState::Stopped,
        }
    }
}

/// The integer code under which a state is stored in the shared cell.
pub open spec fn code_of_state(s: SoundState) -> usize {
    match s {
        SoundState::Playing => PLAYING_CODE,
        SoundState::Stopped => STOPPED_CODE,
        SoundState::Ended => ENDED_CODE,
    }
}

/// The state a stored integer code stands for, if it stands for any.
pub open spec fn state_of_code(code: usize) -> Option<SoundState> {
    if code == PLAYING_CODE {
        Some(SoundState::Playing)
    } else if code == STOPPED_CODE {
        Some(SoundState::Stopped)
    } else if code == ENDED_CODE {
        Some(SoundState::Ended)
    } else {
        None
    }
}

/// Executable encoding of a state into its cell code.
pub fn encode_state(s: SoundState) -> (code: usize)
    ensures
        code == code_of_state(s),
{
    match s {
        SoundState::Playing => PLAYING_CODE,
        SoundState::Stopped => STOPPED_CODE,
        SoundState::Ended => ENDED_CODE,
    }
}

/// Executable decoding of a cell code; total on every integer, so any value
/// read from the shared cell maps to a defined outcome.
pub fn decode_state(code: usize) -> (r: Option<SoundState>)
    ensures
        r == state_of_code(code),
{
    if code == PLAYING_CODE {
        Some(SoundState::Playing)
    } else if code == STOPPED_CODE {
        Some(SoundState::Stopped)
    } else if code == ENDED_CODE {
        Some(SoundState::Ended)
    } else {
        None
    }
}

/// Whether a cell code means that the voice is still playing. Total on every
/// integer, so every possible read of the shared cell yields a defined
/// liveness verdict.
pub fn code_is_playing(code: usize) -> (r: bool)
    ensures
        r == (code == PLAYING_CODE),
{
    code == PLAYING_CODE
}

/// Encoding and decoding agree: every state comes back from its own code.
pub proof fn lemma_code_round_trip(s: SoundState)
    ensures
        state_of_code(code_of_state(s)) == Some(s),
{
}

/// No event ever leads back into `Playing`: once a voice has left `Playing`
/// it is never observed as playing again.
pub proof fn lemma_playing_never_reentered(s: SoundState, e: LifecycleEvent)
    ensures
        step(s, e) == SoundState::Playing ==> s == SoundState::Playing,
{
}

/// Terminal states absorb every further event.
pub proof fn lemma_terminal_absorbing(s: SoundState, e: LifecycleEvent)
    requires
        is_terminal(s),
    ensures
        step(s, e) == s,
{
}

/// Delivering the completion notification twice has the same effect as
/// delivering it once: the completion handler is idempotent.
pub proof fn lemma_completion_idempotent(s: SoundState)
    ensures
        step(step(s, LifecycleEvent::Completion), LifecycleEvent::Completion)
            == step(s, LifecycleEvent::Completion),
{
}

/// The state a voice reaches from `s` after a whole sequence of events.
pub open spec fn run(s: SoundState, events: Seq<LifecycleEvent>) -> SoundState
    decreases events.len(),
{
    if events.len() == 0 {
        s
    } else {
        run(step(s, events.first()), events.drop_first())
    }
}

/// Law: leaving `Playing` is permanent. Once a voice is in any other state,
/// no sequence of further events — completions or stop requests, in any
/// order — ever shows it playing again.
pub proof fn lemma_departure_is_permanent(s: SoundState, events: Seq<LifecycleEvent>)
    requires
        s != SoundState::Playing,
    ensures
        run(s, events) != SoundState::Playing,
    decreases events.len(),
{
    if events.len() > 0 {
        lemma_departure_is_permanent(step(s, events.first()), events.drop_first());
    }
}

/// The lifecycle flag of one voice: an atomically updated cell shared between
/// the voice's owner, every handle to the voice, and the engine's completion
/// callback. The cell only ever holds state codes; it is written at creation
/// (`Playing`) and by `mark_ended` (`Playing` to `Ended`).
#[derive(Clone)]
pub struct LifecycleFlag {
    cell: Arc<AtomicUsize>,
    init_playing: Ghost<bool>,
}

impl LifecycleFlag {
    /// The identity of the shared cell: two flags with the same identity
    /// observe the same voice.
    pub closed spec fn id(self) -> Arc<AtomicUsize> {
        self.cell
    }

    /// Creation fact: the shared cell was created holding the playing code.
    /// It is established by `new` — the one constructor, where the playing
    /// code is visibly stored — and carried along by every share.
    pub closed spec fn starts_playing(self) -> bool {
        self.init_playing@
    }

    /// A fresh flag for a voice that has just started playing: the cell is
    /// created holding the playing code.
    pub fn new() -> (flag: LifecycleFlag)
        ensures
            flag.starts_playing(),
    {
        LifecycleFlag { cell: Arc::new(AtomicUsize::new(PLAYING_CODE)), init_playing: Ghost(true) }
    }

    /// Another reference to the same shared cell; no new voice state is
    /// created.
    ///
    /// Relies on `Arc::clone`: the clone refers to the same allocation as
    /// `self`, so both flags carry the same cell and the same creation fact.
    #[verifier::external_body]
    pub fn share(&self) -> (flag: LifecycleFlag)
        ensures
            flag.id() == self.id(),
            flag.starts_playing() == self.starts_playing(),
    {
        LifecycleFlag { cell: Arc::clone(&self.cell), init_playing: Ghost(self.starts_playing()) }
    }

    /// The code currently stored in the cell. The engine's completion
    /// callback may change the cell at any moment, so two reads may differ;
    /// every read is interpreted by the total functions `decode_state` and
    /// `code_is_playing`.
    pub fn read_code(&self) -> usize {
        self.cell.load(Ordering::SeqCst)
    }

    /// Record natural completion: move the cell from `Playing` to `Ended`,
    /// and leave it unchanged when it is already terminal. This is the
    /// executable form of `step(s, Completion)`: the compare-exchange
    /// succeeds only from `PLAYING_CODE`, so a terminal cell is never
    /// overwritten, and a second delivery is a no-op. The single atomic
    /// operation never blocks, so the engine's render context is never held
    /// up.
    pub fn mark_ended(&self) {
        let _ = self.cell.compare_exchange(
            PLAYING_CODE,
            ENDED_CODE,
            Ordering::SeqCst,
            Ordering::SeqCst,
        );
    }
}

} // verus!
