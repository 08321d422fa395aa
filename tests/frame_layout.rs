use path_tracer::{
    decode_words, encode_words, read_word, CameraBlock, CameraUniforms, FrameUniforms, Vec4Bits,
    UNIFORM_BYTES, UNIFORM_WORDS,
};

fn lanes(x: f32, y: f32, z: f32, w: f32) -> Vec4Bits {
    Vec4Bits { x: x.to_bits(), y: y.to_bits(), z: z.to_bits(), w: w.to_bits() }
}

fn sample_camera() -> CameraBlock {
    CameraBlock {
        uniforms: CameraUniforms {
            origin: lanes(0.0, 0.0, 0.0, 0.0),
            u: lanes(-1.0, 0.0, 0.0, 0.0),
            v: lanes(0.0, 1.0, 0.0, 0.0),
            w: lanes(0.0, 0.0, -1.0, 0.0),
        },
        pitch: 0.25f32.to_bits(),
        yaw: (-0.5f32).to_bits(),
    }
}

#[test]
fn words_are_little_endian() {
    let bytes = encode_words(&[0x0403_0201, 0xdead_beef]);
    assert_eq!(bytes, vec![0x01, 0x02, 0x03, 0x04, 0xef, 0xbe, 0xad, 0xde]);
    assert_eq!(read_word(&bytes, 4), 0xdead_beef);
    assert_eq!(decode_words(&bytes), vec![0x0403_0201, 0xdead_beef]);
}

#[test]
fn empty_word_sequence_has_no_bytes() {
    assert!(encode_words(&[]).is_empty());
    assert!(decode_words(&[]).is_empty());
}

#[test]
fn trailing_partial_word_is_left_out() {
    assert_eq!(decode_words(&[1, 0, 0, 0, 9, 9, 9]), vec![1]);
}

#[test]
fn block_has_fixed_size() {
    let u = FrameUniforms::for_frame(1920, 1200, 10.0f32.to_bits(), 0, sample_camera());
    assert_eq!(u.to_words().len(), UNIFORM_WORDS);
    assert_eq!(u.encode().len(), UNIFORM_BYTES);
    assert_eq!(UNIFORM_BYTES, 92);
}

#[test]
fn for_frame_places_fov_and_index() {
    let fov = 10.0f32.to_bits();
    let frame = 7.0f32.to_bits();
    let u = FrameUniforms::for_frame(1920, 1200, fov, frame, sample_camera());
    assert_eq!(u.time, fov);
    assert_eq!(u.pad, frame);
    assert_eq!(u.pad2, fov);
    assert_eq!(u.camera, sample_camera());
}

#[test]
fn packed_block_reads_back_field_for_field() {
    let k = 41u32;
    let camera = sample_camera();
    let u = FrameUniforms::for_frame(1920, 1200, 10.0f32.to_bits(), (k as f32).to_bits(), camera);
    let bytes = u.encode();
    assert_eq!(&bytes[0..4], &[0x80, 0x07, 0x00, 0x00]);
    assert_eq!(&bytes[4..8], &[0xb0, 0x04, 0x00, 0x00]);
    assert_eq!(f32::from_bits(read_word(&bytes, 8)), 10.0);
    assert_eq!(f32::from_bits(read_word(&bytes, 12)), 41.0);
    assert_eq!(f32::from_bits(read_word(&bytes, 16 + 4 * 4)), -1.0);
    assert_eq!(f32::from_bits(read_word(&bytes, 16 + 9 * 4)), 1.0);
    assert_eq!(f32::from_bits(read_word(&bytes, 16 + 14 * 4)), -1.0);
    assert_eq!(f32::from_bits(read_word(&bytes, 80)), 0.25);
    assert_eq!(f32::from_bits(read_word(&bytes, 84)), -0.5);
    assert_eq!(f32::from_bits(read_word(&bytes, 88)), 10.0);
    let back = FrameUniforms::decode(&bytes).unwrap();
    assert_eq!(back, u);
    assert_eq!(back.width, 1920);
    assert_eq!(back.height, 1200);
    assert_eq!(back.camera, camera);
}

#[test]
fn words_follow_wire_order() {
    let u = FrameUniforms::for_frame(1, 2, 3, 4, sample_camera());
    let ws = u.to_words();
    assert_eq!(&ws[0..4], &[1, 2, 3, 4]);
    assert_eq!(ws[8], (-1.0f32).to_bits());
    assert_eq!(ws[20], 0.25f32.to_bits());
    assert_eq!(ws[22], 3);
    assert_eq!(FrameUniforms::from_word_slice(&ws), Some(u));
}

#[test]
fn word_slice_of_wrong_length_is_refused() {
    assert_eq!(FrameUniforms::from_word_slice(&[0; 22]), None);
    assert_eq!(FrameUniforms::from_word_slice(&[0; 24]), None);
}

#[test]
fn image_of_wrong_length_is_refused() {
    assert_eq!(FrameUniforms::decode(&[0; 91]), None);
    assert_eq!(FrameUniforms::decode(&[0; 93]), None);
    assert_eq!(FrameUniforms::decode(&[]), None);
}

#[test]
fn any_full_image_decodes_and_reencodes() {
    let bytes: Vec<u8> = (0..92u32).map(|i| (i * 7 + 3) as u8).collect();
    let u = FrameUniforms::decode(&bytes).unwrap();
    assert_eq!(u.encode(), bytes);
    assert_eq!(u.width, 0x18_11_0a_03);
}
