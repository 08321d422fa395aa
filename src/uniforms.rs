//! The per-frame uniform block that the shader reads at binding 0: its fields,
//! their fixed order, and its image as bytes.
//!
//! Floating-point fields are carried as their IEEE-754 bit patterns, so the
//! block is 23 words of 32 bits, 92 bytes, every word little-endian as WGSL
//! lays out host-shareable scalars.

use vstd::prelude::*;
use crate::wire::{decode_words, encode_words, lemma_bytes_round_trip, lemma_words_round_trip, words_bytes, words_of_bytes};

verus! {

/// Number of 32-bit words in a uniform block.
pub const UNIFORM_WORDS: usize = 23;

/// Number of bytes in a uniform block.
pub const UNIFORM_BYTES: usize = 92;

/// Four single-precision lanes `(x, y, z, w)`, each as its bit pattern.
#[derive(Clone, Copy, Debug, PartialEq, Eq, Structural)]
pub struct Vec4Bits {
    pub x: u32,
    pub y: u32,
    pub z: u32,
    pub w: u32,
}

/// The camera basis: eye position and the right, up and forward axes.
#[derive(Clone, Copy, Debug, PartialEq, Eq, Structural)]
pub struct CameraUniforms {
    pub origin: Vec4Bits,
    pub u: Vec4Bits,
    pub v: Vec4Bits,
    pub w: Vec4Bits,
}

/// The camera as the shader sees it: the basis, then the accumulated pitch
/// and yaw angles.
#[derive(Clone, Copy, Debug, PartialEq, Eq, Structural)]
pub struct CameraBlock {
    pub uniforms: CameraUniforms,
    pub pitch: u32,
    pub yaw: u32,
}

/// One frame's uniform block, fields in wire order.
#[derive(Clone, Copy, Debug, PartialEq, Eq, Structural)]
pub struct FrameUniforms {
    pub width: u32,
    pub height: u32,
    pub time: u32,
    pub pad: u32,
    pub camera: CameraBlock,
    pub pad2: u32,
}

impl FrameUniforms {
    /// The block's words in wire order.
    pub open spec fn words(self) -> Seq<u32> {
        let b = self.camera.uniforms;
        seq![
            self.width, self.height, self.time, self.pad,
            b.origin.x, b.origin.y, b.origin.z, b.origin.w,
            b.u.x, b.u.y, b.u.z, b.u.w,
            b.v.x, b.v.y, b.v.z, b.v.w,
            b.w.x, b.w.y, b.w.z, b.w.w,
            self.camera.pitch, self.camera.yaw, self.pad2,
        ]
    }

    /// The block whose words, in wire order, are the first 23 of `ws`.
    pub open spec fn from_words(ws: Seq<u32>) -> FrameUniforms {
        FrameUniforms {
            width: ws[0],
            height: ws[1],
            time: ws[2],
            pad: ws[3],
            camera: CameraBlock {
                uniforms: CameraUniforms {
                    origin: Vec4Bits { x: ws[4], y: ws[5], z: ws[6], w: ws[7] },
                    u: Vec4Bits { x: ws[8], y: ws[9], z: ws[10], w: ws[11] },
                    v: Vec4Bits { x: ws[12], y: ws[13], z: ws[14], w: ws[15] },
                    w: Vec4Bits { x: ws[16], y: ws[17], z: ws[18], w: ws[19] },
                },
                pitch: ws[20],
                yaw: ws[21],
            },
            pad2: ws[22],
        }
    }

    /// The block's image in GPU-visible memory.
    pub open spec fn bytes(self) -> Seq<u8> {
        words_bytes(self.words())
    }

    /// The block that a frame uploads: its resolution, the field of view in
    /// the time slot and again in the last pad slot, and the frame index in
    /// the first pad slot. `fov` and `frame` are the bit patterns of the
    /// single-precision field of view and frame index.
    pub fn for_frame(width: u32, height: u32, fov: u32, frame: u32, camera: CameraBlock) -> (r:
        FrameUniforms)
        ensures
            r == (FrameUniforms { width, height, time: fov, pad: frame, camera, pad2: fov }),
    {
        FrameUniforms { width, height, time: fov, pad: frame, camera, pad2: fov }
    }

    /// The block's words in wire order.
    pub fn to_words(&self) -> (r: Vec<u32>)
        ensures
            r@ == self.words(),
    {
        let b = &self.camera.uniforms;
        let r = vec![
            self.width, self.height, self.time, self.pad,
            b.origin.x, b.origin.y, b.origin.z, b.origin.w,
            b.u.x, b.u.y, b.u.z, b.u.w,
            b.v.x, b.v.y, b.v.z, b.v.w,
            b.w.x, b.w.y, b.w.z, b.w.w,
            self.camera.pitch, self.camera.yaw, self.pad2,
        ];
        assert(r@ =~= self.words());
        r
    }

    /// The block whose words, in wire order, `ws` holds.
    pub fn from_word_slice(ws: &[u32]) -> (r: Option<FrameUniforms>)
        ensures
            r.is_some() <==> ws@.len() == UNIFORM_WORDS,
            r matches Some(u) ==> u == FrameUniforms::from_words(ws@) && u.words() == ws@,
    {
        if ws.len() != UNIFORM_WORDS {
            return None;
        }
        let u = FrameUniforms {
            width: ws[0],
            height: ws[1],
            time: ws[2],
            pad: ws[3],
            camera: CameraBlock {
                uniforms: CameraUniforms {
                    origin: Vec4Bits { x: ws[4], y: ws[5], z: ws[6], w: ws[7] },
                    u: Vec4Bits { x: ws[8], y: ws[9], z: ws[10], w: ws[11] },
                    v: Vec4Bits { x: ws[12], y: ws[13], z: ws[14], w: ws[15] },
                    w: Vec4Bits { x: ws[16], y: ws[17], z: ws[18], w: ws[19] },
                },
                pitch: ws[20],
                yaw: ws[21],
            },
            pad2: ws[22],
        };
        assert(u.words() =~= ws@);
        Some(u)
    }

    /// The block's image in GPU-visible memory, ready for a buffer write.
    pub fn encode(&self) -> (r: Vec<u8>)
        ensures
            r@ == self.bytes(),
            r@.len() == UNIFORM_BYTES,
    {
        let ws = self.to_words();
        encode_words(ws.as_slice())
    }

    /// The block that a 92-byte image holds; `None` for an image of any
    /// other length.
    pub fn decode(b: &[u8]) -> (r: Option<FrameUniforms>)
        ensures
            r.is_some() <==> b@.len() == UNIFORM_BYTES,
            r matches Some(u) ==> u.bytes() == b@,
    {
        if b.len() != UNIFORM_BYTES {
            return None;
        }
        let ws = decode_words(b);
        proof {
            lemma_bytes_round_trip(b@);
        }
        FrameUniforms::from_word_slice(ws.as_slice())
    }
}

/// Decoding the image of a block gives the block back: no field is lost,
/// moved or reordered on the way through memory.
pub proof fn lemma_uniforms_round_trip(u: FrameUniforms)
    ensures
        u.bytes().len() == UNIFORM_BYTES,
        words_of_bytes(u.bytes()) == u.words(),
        FrameUniforms::from_words(words_of_bytes(u.bytes())) == u,
{
    lemma_words_round_trip(u.words());
}

/// Two blocks with the same image are the same block.
pub proof fn lemma_bytes_determine_uniforms(a: FrameUniforms, b: FrameUniforms)
    requires
        a.bytes() == b.bytes(),
    ensures
        a == b,
{
    lemma_uniforms_round_trip(a);
    lemma_uniforms_round_trip(b);
}

} // verus!
