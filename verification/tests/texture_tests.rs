use stars::texture::{
    draw_origin, encode_texture_png, inverse_sqrt_seed, perlin_seed, squared_offset,
    TextureError, TEXTURE_HEIGHT, TEXTURE_WIDTH,
};

#[test]
fn origin_centres_texture() {
    assert_eq!(draw_origin(100, 300, 1), -50);
    assert_eq!(draw_origin(100, 301, 1), -50);
    assert_eq!(draw_origin(400, 20, 2), 380);
}

#[test]
fn origin_halves_toward_zero() {
    // -301 / 2 == -150 with truncation
    assert_eq!(draw_origin(100, 301, -1), 250);
}

#[test]
fn origin_reinterprets_large_extent() {
    // 0xffff_fffe is -2 as an i32
    assert_eq!(draw_origin(10, 0xffff_fffe, 1), 11);
}

#[test]
fn seed_truncates_nanosecond_timestamp() {
    let secs: u64 = 1_700_000_000;
    let nanos: u32 = 123_456_789;
    let total: u128 = secs as u128 * 1_000_000_000 + nanos as u128;
    assert_eq!(perlin_seed(secs, nanos) as u128, total % (1u128 << 32));
    assert_eq!(perlin_seed(0, 7), 7);
    assert_eq!(perlin_seed(5, 0), (5_000_000_000u64 % (1u64 << 32)) as u32);
}

#[test]
fn squared_offsets() {
    assert_eq!(squared_offset(0, 150), 22500);
    assert_eq!(squared_offset(299, 150), 22201);
    assert_eq!(squared_offset(150, 150), 0);
}

#[test]
fn inverse_sqrt_seed_of_one() {
    assert_eq!(inverse_sqrt_seed(1.0f32.to_bits() as i32), 0x3f7759df);
    assert_eq!(inverse_sqrt_seed(0), 0x5f3759df);
    assert_eq!(inverse_sqrt_seed(-3), 0x5f3759df + 2);
}

#[test]
fn inverse_sqrt_seed_gives_close_estimate() {
    for n in [0.25f32, 1.0, 2.0, 100.0, 22500.0, 12345.0] {
        let y = f32::from_bits(inverse_sqrt_seed(n.to_bits() as i32) as u32);
        let y = y * (1.5 - 0.5 * n * y * y);
        let exact = 1.0 / n.sqrt();
        assert!((y - exact).abs() / exact < 0.01);
    }
}

#[test]
fn encodes_png_of_right_size() {
    let len = (TEXTURE_WIDTH * TEXTURE_HEIGHT * 4) as usize;
    let mut pixels = vec![0u8; len];
    pixels[4 * 150 + 3] = 255;
    pixels[4 * 150] = 200;
    let png = encode_texture_png(TEXTURE_WIDTH, TEXTURE_HEIGHT, pixels.clone()).unwrap();
    assert_eq!(&png[..8], &[137, 80, 78, 71, 13, 10, 26, 10]);
    assert_ne!(png, pixels);
    let decoded = image::load_from_memory(&png).unwrap().to_rgba8();
    assert_eq!(decoded.dimensions(), (TEXTURE_WIDTH, TEXTURE_HEIGHT));
    assert_eq!(decoded.into_raw(), pixels);
}

#[test]
fn rejects_buffer_of_wrong_size() {
    assert!(matches!(
        encode_texture_png(2, 2, vec![0u8; 15]),
        Err(TextureError::BufferSize)
    ));
    assert!(matches!(
        encode_texture_png(2, 2, vec![0u8; 17]),
        Err(TextureError::BufferSize)
    ));
}

#[test]
fn empty_image_reports_encoder_error() {
    assert!(matches!(
        encode_texture_png(0, 5, Vec::new()),
        Err(TextureError::Encoding(_))
    ));
    assert!(matches!(
        encode_texture_png(7, 0, Vec::new()),
        Err(TextureError::Encoding(_))
    ));
}

#[test]
fn one_pixel_image_encodes() {
    let png = encode_texture_png(1, 1, vec![1, 2, 3, 4]).unwrap();
    let decoded = image::load_from_memory(&png).unwrap().to_rgba8();
    assert_eq!(decoded.into_raw(), vec![1, 2, 3, 4]);
}
