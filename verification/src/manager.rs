//! The voice manager: it owns the shared audio context and the decoded
//! source buffer, spawns voices on demand, holds the live set of voices, and
//! sweeps that set, tearing down every voice that is no longer playing.

use vstd::prelude::*;
use web_audio_api::context::AudioContext;
use web_audio_api::AudioBuffer;
use crate::engine;
use crate::engine::clip_decodes;
use crate::state;
use crate::state::PLAYING_CODE;
use crate::voice::Sound;
use crate::voice::SoundHandle;

verus! {

/// The gain applied to every voice, in thousandths of unity.
pub const DEFAULT_GAIN_MILLIS: u32 = 300;

/// Why the manager could not be initialized.
#[derive(Clone, Copy, PartialEq, Eq, Structural, Debug)]
pub enum InitError {
    /// The audio backend could not be started for the requested output sink.
    Backend,
    /// The engine's decoder rejected the clip bytes.
    Decode,
}

/// The voices of `sounds` whose observed lifecycle codes in `codes` mean
/// playing, in their original order: the model of one sweep pass, given the
/// codes the pass read from the voices' shared cells.
pub open spec fn keep_playing(sounds: Seq<Sound>, codes: Seq<usize>) -> Seq<Sound>
    decreases sounds.len(),
{
    if sounds.len() == 0 || codes.len() == 0 {
        Seq::<Sound>::empty()
    } else {
        let rest = keep_playing(sounds.drop_last(), codes.drop_last());
        if codes.last() == PLAYING_CODE {
            rest.push(sounds.last())
        } else {
            rest
        }
    }
}

/// The observed codes that survive a sweep pass: exactly the playing ones.
pub open spec fn playing_only(codes: Seq<usize>) -> Seq<usize>
    decreases codes.len(),
{
    if codes.len() == 0 {
        Seq::<usize>::empty()
    } else {
        let rest = playing_only(codes.drop_last());
        if codes.last() == PLAYING_CODE {
            rest.push(codes.last())
        } else {
            rest
        }
    }
}

/// The voices of `sounds` that a sweep pass evicts under the observed codes
/// in `codes`: the complement of `keep_playing`, in their original order.
pub open spec fn drop_playing(sounds: Seq<Sound>, codes: Seq<usize>) -> Seq<Sound>
    decreases sounds.len(),
{
    if sounds.len() == 0 || codes.len() == 0 {
        Seq::<Sound>::empty()
    } else {
        let rest = drop_playing(sounds.drop_last(), codes.drop_last());
        if codes.last() == PLAYING_CODE {
            rest
        } else {
            rest.push(sounds.last())
        }
    }
}

/// The reclamation log `post` extends `pre` by one record per evicted voice,
/// in eviction order: each record is a torn-down voice — disconnected from
/// the graph exactly once — over the evicted voice's own lifecycle cell.
pub open spec fn reclaim_extends(pre: Seq<Sound>, post: Seq<Sound>, evicted: Seq<Sound>) -> bool {
    &&& post.len() == pre.len() + evicted.len()
    &&& (forall|i: int| 0 <= i < pre.len() ==> post[i] == pre[i])
    &&& (forall|i: int|
        0 <= i < evicted.len() ==> (#[trigger] post[pre.len() + i]).torn_down() && post[pre.len()
            + i].flag_id() == evicted[i].flag_id())
}

/// A sweep never adds a voice: it keeps at most what it was given.
pub proof fn lemma_keep_playing_at_most(sounds: Seq<Sound>, codes: Seq<usize>)
    ensures
        keep_playing(sounds, codes).len() <= sounds.len(),
    decreases sounds.len(),
{
    if sounds.len() > 0 && codes.len() > 0 {
        lemma_keep_playing_at_most(sounds.drop_last(), codes.drop_last());
    }
}

/// A sweep keeps one voice for each playing code it observed.
pub proof fn lemma_keep_playing_len(sounds: Seq<Sound>, codes: Seq<usize>)
    requires
        sounds.len() == codes.len(),
    ensures
        keep_playing(sounds, codes).len() == playing_only(codes).len(),
    decreases sounds.len(),
{
    if sounds.len() > 0 {
        lemma_keep_playing_len(sounds.drop_last(), codes.drop_last());
    }
}

/// Law: a sweep that observes every voice playing removes none.
pub proof fn lemma_sweep_keeps_all_playing(sounds: Seq<Sound>, codes: Seq<usize>)
    requires
        sounds.len() == codes.len(),
        forall|i: int| 0 <= i < codes.len() ==> codes[i] == PLAYING_CODE,
    ensures
        keep_playing(sounds, codes) == sounds,
    decreases sounds.len(),
{
    if sounds.len() > 0 {
        lemma_sweep_keeps_all_playing(sounds.drop_last(), codes.drop_last());
        assert(keep_playing(sounds, codes) =~= sounds);
    }
}

/// Law: a sweep that observes no voice playing removes every voice.
pub proof fn lemma_sweep_drops_all_ended(sounds: Seq<Sound>, codes: Seq<usize>)
    requires
        sounds.len() == codes.len(),
        forall|i: int| 0 <= i < codes.len() ==> codes[i] != PLAYING_CODE,
    ensures
        keep_playing(sounds, codes) == Seq::<Sound>::empty(),
    decreases sounds.len(),
{
    if sounds.len() > 0 {
        lemma_sweep_drops_all_ended(sounds.drop_last(), codes.drop_last());
    }
}

/// Law: sweeping is idempotent. A second sweep that observes the surviving
/// voices under the same codes — no spawn and no completion in between —
/// removes no further voice.
pub proof fn lemma_sweep_idempotent(sounds: Seq<Sound>, codes: Seq<usize>)
    requires
        sounds.len() == codes.len(),
    ensures
        keep_playing(keep_playing(sounds, codes), playing_only(codes)) == keep_playing(
            sounds,
            codes,
        ),
    decreases sounds.len(),
{
    if sounds.len() > 0 {
        let sounds0 = sounds.drop_last();
        let codes0 = codes.drop_last();
        lemma_sweep_idempotent(sounds0, codes0);
        lemma_keep_playing_len(sounds0, codes0);
        if codes.last() == PLAYING_CODE {
            let kept = keep_playing(sounds0, codes0);
            let survivors = playing_only(codes0);
            assert(keep_playing(sounds, codes) == kept.push(sounds.last()));
            assert(playing_only(codes) == survivors.push(codes.last()));
            assert(kept.push(sounds.last()).drop_last() =~= kept);
            assert(survivors.push(codes.last()).drop_last() =~= survivors);
        }
    }
}

/// The voice manager. It owns the engine context, the decoded source buffer
/// shared by all voices, and the live set of voices; `play` adds to the set
/// and `update` sweeps it.
pub struct AudioState {
    context: AudioContext,
    buffer: AudioBuffer,
    active_sounds: Vec<Sound>,
    reclaim_log: Ghost<Seq<Sound>>,
}

impl AudioState {
    /// The live set, in spawn order.
    pub closed spec fn active(self) -> Seq<Sound> {
        self.active_sounds@
    }

    /// The reclamation log: one record per voice this manager has torn down,
    /// in eviction order.
    pub closed spec fn reclaimed(self) -> Seq<Sound> {
        self.reclaim_log@
    }

    /// Every live voice respects its chain discipline and is still wired
    /// into the shared graph; every reclaimed voice was disconnected from
    /// the graph exactly once and never again.
    pub closed spec fn inv(self) -> bool {
        &&& (forall|i: int|
            0 <= i < self.active().len() ==> (#[trigger] self.active()[i]).inv()
                && self.active()[i].chain_connected())
        &&& (forall|i: int| 0 <= i < self.reclaimed().len() ==> (#[trigger] self.reclaimed()[i]).torn_down())
    }

    /// Create the manager: start the engine for the given output sink and
    /// decode the source clip once. Fails with `InitError::Decode` exactly
    /// when the decoder rejects the clip bytes, and with `InitError::Backend`
    /// when the engine cannot start; no manager is produced in either case.
    /// `sink_id` is `""` for the default output device and `"none"` to
    /// render without one.
    pub fn new(clip: &Vec<u8>, sink_id: &str) -> (r: Result<AudioState, InitError>)
        ensures
            r matches Ok(manager) ==> manager.inv() && manager.active().len() == 0
                && manager.reclaimed().len() == 0 && clip_decodes(clip@),
            !clip_decodes(clip@) ==> r is Err,
            (r matches Err(e) && e == InitError::Decode) ==> !clip_decodes(clip@),
    {
        let context = match engine::new_audio_context(sink_id) {
            Ok(context) => context,
            Err(e) => {
                return Err(e);
            },
        };
        match engine::decode_clip(&context, clip) {
            Ok(buffer) => Ok(
                AudioState {
                    context,
                    buffer,
                    active_sounds: Vec::new(),
                    reclaim_log: Ghost(Seq::empty()),
                },
            ),
            Err(e) => Err(e),
        }
    }

    /// How many voices are currently live.
    pub fn active_count(&self) -> (n: usize)
        ensures
            n == self.active().len(),
    {
        self.active_sounds.len()
    }

    /// Spawn one voice from the shared buffer at the fixed gain level, add
    /// it to the live set, and hand back a handle to it. Every voice already
    /// live is untouched.
    pub fn play(&mut self) -> (handle: SoundHandle)
        requires
            old(self).inv(),
        ensures
            final(self).inv(),
            final(self).active().len() == old(self).active().len() + 1,
            final(self).active().drop_last() == old(self).active(),
            final(self).active().last().chain_connected(),
            handle.flag_id() == final(self).active().last().flag_id(),
            final(self).reclaimed() == old(self).reclaimed(),
    {
        let sound = Sound::create(&self.context, &self.buffer, DEFAULT_GAIN_MILLIS);
        let handle = sound.handle();
        self.active_sounds.push(sound);
        proof {
            assert(self.active().drop_last() =~= old(self).active());
            assert forall|i: int|
                0 <= i < self.reclaimed().len() implies (
            #[trigger] self.reclaimed()[i]).torn_down() by {
                assert(old(self).reclaimed()[i].torn_down());
            }
        }
        handle
    }

    /// Sweep the live set: poll each voice's flag once, retain exactly the
    /// voices observed playing, and tear down — exactly once — every voice
    /// observed otherwise. The result is `keep_playing` of the old set under
    /// the codes the sweep read, order kept, and the reclamation log grows
    /// by one torn-down record per evicted voice. Each poll is one atomic
    /// load, so the sweep never blocks on the engine.
    pub fn update(&mut self)
        requires
            old(self).inv(),
        ensures
            final(self).inv(),
            final(self).active().len() <= old(self).active().len(),
            exists|codes: Seq<usize>|
                codes.len() == old(self).active().len() && final(self).active() == keep_playing(
                    old(self).active(),
                    codes,
                ) && reclaim_extends(
                    old(self).reclaimed(),
                    final(self).reclaimed(),
                    drop_playing(old(self).active(), codes),
                ),
    {
        let ghost orig: Seq<Sound> = self.active_sounds@;
        let ghost orig_log: Seq<Sound> = self.reclaim_log@;
        let ghost mut codes: Seq<usize> = Seq::<usize>::empty();
        let mut kept: Vec<Sound> = Vec::new();
        proof {
            assert forall|i: int|
                0 <= i < orig.len() implies (#[trigger] orig[i]).inv()
                && orig[i].chain_connected() by {
                assert(old(self).active()[i].inv() && old(self).active()[i].chain_connected());
            }
            assert(kept@ == keep_playing(orig.take(0), codes));
            assert(reclaim_extends(orig_log, self.reclaim_log@, drop_playing(orig.take(0), codes)));
        }
        while self.active_sounds.len() > 0
            invariant
                codes.len() <= orig.len(),
                self.active_sounds@ == orig.skip(codes.len() as int),
                kept@ == keep_playing(orig.take(codes.len() as int), codes),
                reclaim_extends(orig_log, self.reclaim_log@, drop_playing(orig.take(codes.len() as int), codes)),
                forall|i: int|
                    0 <= i < orig.len() ==> (#[trigger] orig[i]).inv() && orig[i].chain_connected(),
                forall|i: int|
                    0 <= i < kept@.len() ==> (#[trigger] kept@[i]).inv()
                        && kept@[i].chain_connected(),
            decreases self.active_sounds.len(),
        {
            let ghost k = codes.len() as int;
            let mut sound = self.active_sounds.remove(0);
            let ghost sound_snap = sound;
            proof {
                assert(sound_snap == orig[k]);
                assert(self.active_sounds@ =~= orig.skip(k + 1));
            }
            let code = sound.read_code();
            let ghost kept_before = kept@;
            let ghost log_before = self.reclaim_log@;
            if state::code_is_playing(code) {
                kept.push(sound);
            } else {
                sound.teardown();
                proof {
                    self.reclaim_log@ = self.reclaim_log@.push(sound);
                }
            }
            proof {
                let prefix = orig.take(k);
                let codes_prev = codes;
                let evicted_prev = drop_playing(prefix, codes_prev);
                codes = codes.push(code);
                assert(orig.take(k + 1).drop_last() =~= prefix);
                assert(orig.take(k + 1).last() == orig[k]);
                assert(codes.drop_last() =~= codes_prev);
                let evicted = drop_playing(orig.take(k + 1), codes);
                if code == PLAYING_CODE {
                    assert(kept@ == kept_before.push(sound_snap));
                    assert(evicted == evicted_prev);
                } else {
                    assert(evicted == evicted_prev.push(orig[k]));
                    assert(self.reclaim_log@ == log_before.push(sound));
                    assert(sound.torn_down() && sound.flag_id() == sound_snap.flag_id());
                }
                assert(kept@ == keep_playing(orig.take(k + 1), codes));
                assert forall|i: int|
                    0 <= i < evicted.len() implies (#[trigger] self.reclaim_log@[orig_log.len()
                    + i]).torn_down() && self.reclaim_log@[orig_log.len() + i].flag_id()
                    == evicted[i].flag_id() by {
                    if i < evicted_prev.len() {
                        assert(log_before[orig_log.len() + i].torn_down());
                        assert(log_before[orig_log.len() + i].flag_id() == evicted_prev[i].flag_id());
                    }
                }
                assert(reclaim_extends(orig_log, self.reclaim_log@, evicted));
            }
        }
        let ghost kept_final = kept@;
        self.active_sounds = kept;
        proof {
            assert(orig.take(codes.len() as int) =~= orig);
            lemma_keep_playing_at_most(orig, codes);
            assert(codes.len() == old(self).active().len() && self.active() == keep_playing(
                old(self).active(),
                codes,
            ) && reclaim_extends(
                old(self).reclaimed(),
                self.reclaimed(),
                drop_playing(old(self).active(), codes),
            ));
            assert forall|i: int|
                0 <= i < self.active().len() implies (#[trigger] self.active()[i]).inv()
                && self.active()[i].chain_connected() by {
                assert(kept_final[i].inv() && kept_final[i].chain_connected());
            }
            assert forall|i: int|
                0 <= i < self.reclaimed().len() implies (#[trigger] self.reclaimed()[i]).torn_down() by {
                if i < orig_log.len() {
                    assert(self.reclaim_log@[i] == orig_log[i]);
                    assert(old(self).reclaimed()[i].torn_down());
                } else {
                    let j = i - orig_log.len();
                    assert(self.reclaim_log@[orig_log.len() + j].torn_down());
                }
            }
        }
    }

    /// Tear down every remaining voice — exactly once each, recorded in the
    /// reclamation log in order — and empty the live set: the manager must
    /// not go away while voices are still wired into the graph.
    pub fn shutdown(&mut self)
        requires
            old(self).inv(),
        ensures
            final(self).inv(),
            final(self).active().len() == 0,
            reclaim_extends(old(self).reclaimed(), final(self).reclaimed(), old(self).active()),
    {
        let ghost orig: Seq<Sound> = self.active_sounds@;
        let ghost orig_log: Seq<Sound> = self.reclaim_log@;
        let ghost mut done: int = 0;
        proof {
            assert forall|i: int|
                0 <= i < orig.len() implies (#[trigger] orig[i]).inv()
                && orig[i].chain_connected() by {
                assert(old(self).active()[i].inv() && old(self).active()[i].chain_connected());
            }
            assert(reclaim_extends(orig_log, self.reclaim_log@, orig.take(0)));
        }
        while self.active_sounds.len() > 0
            invariant
                0 <= done <= orig.len(),
                self.active_sounds@ == orig.skip(done),
                reclaim_extends(orig_log, self.reclaim_log@, orig.take(done)),
                forall|i: int|
                    0 <= i < orig.len() ==> (#[trigger] orig[i]).inv() && orig[i].chain_connected(),
            decreases self.active_sounds.len(),
        {
            let mut sound = self.active_sounds.remove(0);
            let ghost sound_snap = sound;
            proof {
                assert(sound_snap == orig[done]);
                assert(self.active_sounds@ =~= orig.skip(done + 1));
            }
            sound.teardown();
            proof {
                let log_before = self.reclaim_log@;
                let done_prev = done;
                self.reclaim_log@ = self.reclaim_log@.push(sound);
                done = done + 1;
                assert(orig.take(done).drop_last() =~= orig.take(done_prev));
                assert(orig.take(done).last() == orig[done_prev]);
                assert(sound.torn_down() && sound.flag_id() == sound_snap.flag_id());
                assert forall|i: int|
                    0 <= i < orig.take(done).len() implies (#[trigger] self.reclaim_log@[orig_log.len()
                    + i]).torn_down() && self.reclaim_log@[orig_log.len() + i].flag_id()
                    == orig.take(done)[i].flag_id() by {
                    if i < done_prev {
                        assert(log_before[orig_log.len() + i].torn_down());
                        assert(log_before[orig_log.len() + i].flag_id() == orig.take(done_prev)[i].flag_id());
                    }
                }
                assert(reclaim_extends(orig_log, self.reclaim_log@, orig.take(done)));
            }
        }
        proof {
            assert(orig.take(done) =~= orig);
            assert(reclaim_extends(old(self).reclaimed(), self.reclaimed(), old(self).active()));
            assert forall|i: int|
                0 <= i < self.reclaimed().len() implies (#[trigger] self.reclaimed()[i]).torn_down() by {
                if i < orig_log.len() {
                    assert(self.reclaim_log@[i] == orig_log[i]);
                    assert(old(self).reclaimed()[i].torn_down());
                } else {
                    let j = i - orig_log.len();
                    assert(self.reclaim_log@[orig_log.len() + j].torn_down());
                }
            }
        }
    }
}

} // verus!
