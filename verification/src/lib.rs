//! A small audio voice manager: it spawns short-lived playback voices from a
//! shared decoded source buffer, wires each voice through its own signal
//! chain into a shared output graph, tracks which voices are still playing,
//! and reclaims each voice's graph nodes exactly once when it is done.

pub mod state;
pub mod engine;
pub mod chain;
pub mod voice;
pub mod manager;

pub use manager::AudioState;
pub use manager::InitError;
pub use voice::Sound;
pub use voice::SoundHandle;
pub use state::SoundState;
