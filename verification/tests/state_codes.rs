use voicepool::state::{code_is_playing, decode_state, encode_state, SoundState};
use voicepool::state::{ENDED_CODE, PLAYING_CODE, STOPPED_CODE};

#[test]
fn encode_gives_distinct_codes() {
    assert_eq!(encode_state(SoundState::Playing), PLAYING_CODE);
    assert_eq!(encode_state(SoundState::Stopped), STOPPED_CODE);
    assert_eq!(encode_state(SoundState::Ended), ENDED_CODE);
    assert_ne!(PLAYING_CODE, STOPPED_CODE);
    assert_ne!(PLAYING_CODE, ENDED_CODE);
    assert_ne!(STOPPED_CODE, ENDED_CODE);
}

#[test]
fn decode_returns_every_state() {
    assert_eq!(decode_state(PLAYING_CODE), Some(SoundState::Playing));
    assert_eq!(decode_state(STOPPED_CODE), Some(SoundState::Stopped));
    assert_eq!(decode_state(ENDED_CODE), Some(SoundState::Ended));
}

#[test]
fn decode_rejects_unknown_codes() {
    assert_eq!(decode_state(3), None);
    assert_eq!(decode_state(usize::MAX), None);
}

#[test]
fn round_trip_through_codes() {
    for s in [SoundState::Playing, SoundState::Stopped, SoundState::Ended] {
        assert_eq!(decode_state(encode_state(s)), Some(s));
    }
}

#[test]
fn only_the_playing_code_counts_as_playing() {
    assert!(code_is_playing(PLAYING_CODE));
    assert!(!code_is_playing(STOPPED_CODE));
    assert!(!code_is_playing(ENDED_CODE));
    assert!(!code_is_playing(17));
}
