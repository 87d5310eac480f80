//! The boundary to the audio engine. The engine renders the node graph on
//! its own real-time context; this module declares the engine types that run
//! through the library and wraps most of the engine calls the core needs:
//! context creation, clip decoding, node-chain construction, and node
//! removal. Completion registration and playback start live with the chain
//! that records them.

use vstd::prelude::*;
use web_audio_api::context::AudioContext;
use web_audio_api::context::AudioContextOptions;
use web_audio_api::context::BaseAudioContext;
use web_audio_api::AudioBuffer;
use web_audio_api::node::AudioBufferSourceNode;
use web_audio_api::node::AudioBufferSourceOptions;
use web_audio_api::node::AudioNode;
use web_audio_api::node::GainNode;
use web_audio_api::node::GainOptions;
use crate::manager::InitError;

verus! {

#[verifier::external_type_specification]
#[verifier::external_body]
pub struct ExAudioContext(AudioContext);

#[verifier::external_type_specification]
#[verifier::external_body]
pub struct ExAudioBuffer(AudioBuffer);

#[verifier::external_type_specification]
#[verifier::external_body]
pub struct ExAudioBufferSourceNode(AudioBufferSourceNode);

#[verifier::external_type_specification]
#[verifier::external_body]
pub struct ExGainNode(GainNode);

/// Whether the engine's decoder accepts a byte sequence as an audio clip.
/// The decoder's verdict is a function of the bytes alone.
pub uninterp spec fn clip_decodes(bytes: Seq<u8>) -> bool;

/// Relies on `AudioContext::try_new`: returns a running context for the
/// given output sink, or an error when the sink is invalid or the audio
/// backend cannot start (it never panics). `sink_id` is `""` for the default
/// output device and `"none"` to render without an output device.
#[verifier::external_body]
pub(crate) fn new_audio_context(sink_id: &str) -> (r: Result<AudioContext, InitError>)
    ensures
        r matches Err(e) ==> e == InitError::Backend,
{
    let mut options = AudioContextOptions::default();
    options.sink_id = sink_id.to_string();
    match AudioContext::try_new(options) {
        Ok(context) => Ok(context),
        Err(_) => Err(InitError::Backend),
    }
}

/// Relies on `BaseAudioContext::decode_audio_data_sync`: decodes a complete
/// in-memory clip into an audio buffer; whether decoding succeeds is decided
/// by the clip bytes alone.
#[verifier::external_body]
pub(crate) fn decode_clip(context: &AudioContext, bytes: &Vec<u8>) -> (r: Result<AudioBuffer, InitError>)
    ensures
        r is Ok <==> clip_decodes(bytes@),
        r matches Err(e) ==> e == InitError::Decode,
{
    match context.decode_audio_data_sync(std::io::Cursor::new(bytes.clone())) {
        Ok(buffer) => Ok(buffer),
        Err(_) => Err(InitError::Decode),
    }
}

/// Relies on `AudioBufferSourceNode::new`, `GainNode::new` and
/// `AudioNode::connect`: allocates a source node bound to `buffer` and a
/// gain node whose gain is `gain_millis` thousandths of unity, and wires
/// source, gain and the context's shared destination in that order. Both
/// nodes are created from `context` itself, so `connect` cannot fault on a
/// context mismatch.
#[verifier::external_body]
pub(crate) fn build_chain(context: &AudioContext, buffer: &AudioBuffer, gain_millis: u32) -> (nodes: (AudioBufferSourceNode, GainNode))
    requires
        gain_millis < 1000,
{
    let mut source_options = AudioBufferSourceOptions::default();
    source_options.buffer = Some(buffer.clone());
    let source = AudioBufferSourceNode::new(context, source_options);
    let mut gain_options = GainOptions::default();
    // Verified sources carry no floating-point syntax, so the engine's gain
    // level is parsed from the decimal spelling of `gain_millis` thousandths.
    if let Ok(level) = format!("0.{:03}", gain_millis).parse() {
        gain_options.gain = level;
    }
    let gain = GainNode::new(context, gain_options);
    source.connect(&gain);
    gain.connect(&context.destination());
    (source, gain)
}

/// Relies on `AudioNode::disconnect`: removes every outgoing connection of
/// the source node from the graph; it never panics.
#[verifier::external_body]
pub(crate) fn disconnect_source(node: &AudioBufferSourceNode) {
    node.disconnect();
}

/// Relies on `AudioNode::disconnect`: removes every outgoing connection of
/// the gain node from the graph; it never panics.
#[verifier::external_body]
pub(crate) fn disconnect_gain(node: &GainNode) {
    node.disconnect();
}

} // verus!
