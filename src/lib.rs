//! Host-side bookkeeping of a progressive GPU path tracer.
//!
//! - `wire`: little-endian byte layout of 32-bit words.
//! - `uniforms`: the fixed layout of the per-frame uniform block and its
//!   image in GPU-visible memory.
//! - `pingpong`: the frame counter and the parity choice between the two
//!   binding sets of the accumulation textures.
//! - `driver`: the per-frame state machine that tells the host which GPU step
//!   comes next and advances the counter once per dispatched frame.

mod driver;
mod pingpong;
mod uniforms;
mod wire;

pub use driver::{after_presented_frame, lemma_frame_cycle, loop_step, FramePhase, LoopAction, LoopEvent, RenderLoop};
pub use pingpong::{binding_slot, frame_after, lemma_ping_pong, lemma_slot_after, next_frame, read_texture, texture_roles, write_texture, BindingPair, FrameCounter, FRAME_WRAP};
pub use uniforms::{lemma_bytes_determine_uniforms, lemma_uniforms_round_trip, CameraBlock, CameraUniforms, FrameUniforms, Vec4Bits, UNIFORM_BYTES, UNIFORM_WORDS};
pub use wire::{decode_words, encode_words, lemma_bytes_round_trip, lemma_words_round_trip, read_word, word_bytes, word_from, words_bytes, words_of_bytes};
