//! Lifecycle tests against the real audio engine, rendering without an
//! output device (sink id "none"). The test clip is a one-second WAV
//! built in memory, so voices finish within seconds.

use std::sync::mpsc;
use std::time::Duration;

use voicepool::state::{ENDED_CODE, PLAYING_CODE};
use voicepool::{AudioState, InitError};
use web_audio_api::context::{AudioContext, AudioContextOptions, BaseAudioContext};

/// Sample rate of the generated test clip.
const CLIP_RATE: u32 = 8000;

/// Samples in the generated test clip: one second.
const CLIP_SAMPLES: u32 = CLIP_RATE;

/// A minimal mono 16-bit PCM WAV holding a soft square wave.
fn test_clip() -> Vec<u8> {
    let data_len = CLIP_SAMPLES * 2;
    let mut bytes: Vec<u8> = Vec::new();
    bytes.extend_from_slice(b"RIFF");
    bytes.extend_from_slice(&(36 + data_len).to_le_bytes());
    bytes.extend_from_slice(b"WAVE");
    bytes.extend_from_slice(b"fmt ");
    bytes.extend_from_slice(&16u32.to_le_bytes());
    bytes.extend_from_slice(&1u16.to_le_bytes()); // PCM
    bytes.extend_from_slice(&1u16.to_le_bytes()); // mono
    bytes.extend_from_slice(&CLIP_RATE.to_le_bytes());
    bytes.extend_from_slice(&(CLIP_RATE * 2).to_le_bytes());
    bytes.extend_from_slice(&2u16.to_le_bytes());
    bytes.extend_from_slice(&16u16.to_le_bytes());
    bytes.extend_from_slice(b"data");
    bytes.extend_from_slice(&data_len.to_le_bytes());
    for i in 0..CLIP_SAMPLES {
        let sample: i16 = if (i / 50) % 2 == 0 { 800 } else { -800 };
        bytes.extend_from_slice(&sample.to_le_bytes());
    }
    bytes
}

/// Block the current thread for `ms` milliseconds.
fn wait_ms(ms: u64) {
    let (_tx, rx) = mpsc::channel::<()>();
    let _ = rx.recv_timeout(Duration::from_millis(ms));
}

fn new_manager() -> AudioState {
    match AudioState::new(&test_clip(), "none") {
        Ok(manager) => manager,
        Err(_) => panic!("manager should initialize with a valid clip"),
    }
}

#[test]
fn initialize_accepts_valid_clip() {
    let manager = new_manager();
    assert_eq!(manager.active_count(), 0);
}

#[test]
fn initialize_rejects_corrupt_clip() {
    let corrupt: Vec<u8> = vec![0, 1, 2, 3, 4, 5, 6, 7];
    match AudioState::new(&corrupt, "none") {
        Ok(_) => panic!("corrupt clip bytes must not produce a manager"),
        Err(e) => assert_eq!(e, InitError::Decode),
    }
}

#[test]
fn initialize_rejects_unknown_sink() {
    match AudioState::new(&test_clip(), "no-such-output-device") {
        Ok(_) => panic!("an unknown sink must not produce a manager"),
        Err(e) => assert_eq!(e, InitError::Backend),
    }
}

#[test]
fn voice_plays_until_completion_then_never_again() {
    let mut manager = new_manager();
    let handle = manager.play();
    assert!(handle.is_playing());
    let (code, playing) = handle.poll();
    assert!(playing);
    assert_eq!(code, PLAYING_CODE);
    wait_ms(3000);
    assert!(!handle.is_playing());
    // The engine's completion callback stored exactly the ended code.
    let (code, playing) = handle.poll();
    assert!(!playing);
    assert_eq!(code, ENDED_CODE);
    // No way back into the playing state.
    wait_ms(100);
    assert!(!handle.is_playing());
    manager.shutdown();
}

#[test]
fn sweep_retains_playing_and_drops_finished() {
    let mut manager = new_manager();
    let _h1 = manager.play();
    let _h2 = manager.play();
    let _h3 = manager.play();
    // Well before the clip duration: all three voices survive the sweep.
    manager.update();
    assert_eq!(manager.active_count(), 3);
    // Well after the clip duration: none survives.
    wait_ms(3000);
    manager.update();
    assert_eq!(manager.active_count(), 0);
}

#[test]
fn sweep_is_idempotent() {
    let mut manager = new_manager();
    let _h1 = manager.play();
    let _h2 = manager.play();
    manager.update();
    let after_first = manager.active_count();
    manager.update();
    assert_eq!(manager.active_count(), after_first);
    wait_ms(3000);
    manager.update();
    assert_eq!(manager.active_count(), 0);
    manager.update();
    assert_eq!(manager.active_count(), 0);
}

#[test]
fn sweep_on_empty_manager_is_harmless() {
    let mut manager = new_manager();
    manager.update();
    assert_eq!(manager.active_count(), 0);
}

#[test]
fn dropped_handle_still_reaches_teardown() {
    let mut manager = new_manager();
    let handle = manager.play();
    drop(handle);
    // The voice is still owned and swept by the manager; shutdown tears the
    // remaining chain down without any sweep having run.
    assert_eq!(manager.active_count(), 1);
    manager.shutdown();
    assert_eq!(manager.active_count(), 0);
}

#[test]
fn shared_handles_observe_the_same_voice() {
    let mut manager = new_manager();
    let first = manager.play();
    let second = first.share();
    let third = first.clone();
    assert!(first.is_playing());
    assert!(second.is_playing());
    assert!(third.is_playing());
    wait_ms(3000);
    assert!(!first.is_playing());
    assert!(!second.is_playing());
    assert!(!third.is_playing());
    manager.shutdown();
}

#[test]
fn voice_teardown_is_idempotent_and_state_independent() {
    let mut options = AudioContextOptions::default();
    options.sink_id = "none".to_string();
    let context = AudioContext::new(options);
    let buffer = context
        .decode_audio_data_sync(std::io::Cursor::new(test_clip()))
        .expect("the generated clip decodes");
    let mut sound = voicepool::Sound::create(&context, &buffer, 300);
    let handle = sound.handle();
    assert!(handle.is_playing());
    // Forced eviction: tear the chain down while the voice is still playing.
    sound.teardown();
    // The lifecycle flag is untouched by teardown, and tearing down again
    // removes nothing further.
    assert!(handle.is_playing());
    sound.teardown();
}

#[test]
fn completion_outlives_manager_sweep_order() {
    // A voice observed mid-playback survives one sweep and is dropped by a
    // later one; the handle agrees with the manager's verdict throughout.
    let mut manager = new_manager();
    let handle = manager.play();
    manager.update();
    assert_eq!(manager.active_count(), 1);
    assert!(handle.is_playing());
    wait_ms(3000);
    assert!(!handle.is_playing());
    manager.update();
    assert_eq!(manager.active_count(), 0);
}
