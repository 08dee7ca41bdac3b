use framehost::clamp_dim;
use framehost::uniform::FRAME_COUNTER_OFFSET;
use framehost::uniform::MOUSE_OFFSET;
use framehost::uniform::RES_OFFSET;
use framehost::uniform::UNIFORM_BLOCK_BYTES;
use framehost::uniform::Uniform;
use framehost::uniform::UniformChannel;

/// The sixteen words of the orthographic projection for the given
/// dimensions, exactly as the boundary derives them with glam.
fn ortho_words(width: u32, height: u32) -> [u32; 16] {
    let aspect = width as f32 / height as f32;
    let m = glam::Mat4::orthographic_lh(0.0, aspect, 0.0, 1.0, 0.0, 100.0);
    m.to_cols_array().map(f32::to_bits)
}

#[test]
fn projection_records_exact_aspect() {
    // The projection's recorded ratio is exactly width / height.
    let mut u = Uniform::new(1280, 720);
    assert_eq!(u.proj.num, 1280);
    assert_eq!(u.proj.den, 720);
    u.update_proj(640, 480);
    assert_eq!(u.proj.num, 640);
    assert_eq!(u.proj.den, 480);
    // Cross-multiplied ratio equality: num/den == 640/480.
    assert_eq!(u.proj.num as u64 * 480, u.proj.den as u64 * 640);
}

#[test]
fn derived_matrix_aspect_matches_dimensions() {
    // The matrix the boundary derives for the recorded parameters has
    // aspect ratio width/height within floating-point tolerance:
    // m00 == 2 / (w/h) and m11 == 2, so m11 / m00 == w/h.
    let words = ortho_words(1280, 720);
    let m00 = f32::from_bits(words[0]);
    let m11 = f32::from_bits(words[5]);
    let aspect = m11 / m00;
    assert!((aspect - 1280.0 / 720.0).abs() < 1e-5);
}

#[test]
fn clamp_applies_before_projection_update() {
    // A zero dimension never reaches the projection: clamping comes
    // first, so the ratio is derived from the clamped values.
    let w = clamp_dim(0);
    let h = clamp_dim(0);
    let mut u = Uniform::new(1280, 720);
    u.update_proj(w, h);
    assert_eq!(u.proj.num, 1);
    assert_eq!(u.proj.den, 1);
}

#[test]
fn block_layout_is_stable() {
    let mut u = Uniform::new(1920, 1080);
    u.set_mouse(77, 88);
    let words = ortho_words(1920, 1080);
    let bytes = u.encode(&words);
    assert_eq!(bytes.len(), UNIFORM_BLOCK_BYTES);
    // Matrix words at the front, little-endian.
    for (i, w) in words.iter().enumerate() {
        assert_eq!(&bytes[4 * i..4 * i + 4], &w.to_le_bytes());
    }
    // Resolution, mouse, counter at their fixed offsets.
    assert_eq!(&bytes[RES_OFFSET..RES_OFFSET + 4], &1920u32.to_le_bytes());
    assert_eq!(&bytes[RES_OFFSET + 4..RES_OFFSET + 8], &1080u32.to_le_bytes());
    assert_eq!(&bytes[MOUSE_OFFSET..MOUSE_OFFSET + 4], &77u32.to_le_bytes());
    assert_eq!(&bytes[MOUSE_OFFSET + 4..MOUSE_OFFSET + 8], &88u32.to_le_bytes());
    assert_eq!(
        &bytes[FRAME_COUNTER_OFFSET..FRAME_COUNTER_OFFSET + 4],
        &0u32.to_le_bytes()
    );
    // Padding to the 16-byte multiple is zeroed.
    assert!(bytes[FRAME_COUNTER_OFFSET + 4..].iter().all(|b| *b == 0));
}

#[test]
fn flush_synchronizes_device_mirror() {
    let words = ortho_words(800, 600);
    let mut ch = UniformChannel::new(800, 600, words);
    ch.advance_frame();
    assert_eq!(ch.cpu.time, 1);
    assert_eq!(ch.device.time, 0, "device mirror lags until the flush");
    let bytes = ch.flush();
    assert_eq!(ch.device.time, 1);
    assert_eq!(
        &bytes[FRAME_COUNTER_OFFSET..FRAME_COUNTER_OFFSET + 4],
        &1u32.to_le_bytes()
    );
}

#[test]
fn initial_buffer_matches_first_flush() {
    let words = ortho_words(1280, 720);
    let (mut ch, initial) = framehost::uniform::create_uniform_buffer(1280, 720, words);
    assert_eq!(initial.len(), UNIFORM_BLOCK_BYTES);
    assert_eq!(ch.cpu.res, [1280, 720]);
    assert_eq!(ch.device.time, ch.cpu.time);
    // Flushing without any mutation re-produces the same block.
    let again = ch.flush();
    assert_eq!(initial, again);
}

#[test]
fn frame_counter_wraps_at_ceiling() {
    let mut u = Uniform::new(1, 1);
    u.time = u32::MAX;
    u.advance_frame();
    assert_eq!(u.time, 0);
}
