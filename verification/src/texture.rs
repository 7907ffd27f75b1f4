use vstd::prelude::*;

verus! {

/// Rounds towards zero when halving, as integer division does.
pub open spec fn half_toward_zero(v: int) -> int {
    if v >= 0 {
        v / 2
    } else {
        -((-v) / 2)
    }
}

/// Halving toward zero gives the half of `v` that is closest to zero:
/// twice the half falls short of `v` by at most one, on the side of zero,
/// and has the sign of `v`.
pub proof fn lemma_half_toward_zero_halves(v: int)
    ensures
        v >= 0 ==> 0 <= v - 2 * half_toward_zero(v) <= 1 && half_toward_zero(v) >= 0,
        v < 0 ==> -1 <= v - 2 * half_toward_zero(v) <= 0 && half_toward_zero(v) <= 0,
{
}

/// The screen coordinate at which a texture of `extent` pixels, drawn at
/// `scale`, starts so that it is centred on `pos`: `pos` minus half the
/// scaled extent. The extent is reinterpreted as an `i32` first, as the
/// renderer's coordinates are.
pub fn draw_origin(pos: i32, extent: u32, scale: i32) -> (origin: i32)
    requires
        i32::MIN <= (extent as i32) * scale <= i32::MAX,
        i32::MIN <= pos - half_toward_zero((extent as i32) * scale) <= i32::MAX,
    ensures
        origin == pos - half_toward_zero((extent as i32) * scale),
        (extent as i32) * scale >= 0 ==> 0 <= (extent as i32) * scale - 2 * (pos - origin) <= 1,
        (extent as i32) * scale < 0 ==> -1 <= (extent as i32) * scale - 2 * (pos - origin) <= 0,
{
    proof {
        lemma_half_toward_zero_halves((extent as i32) * scale);
    }
    let size: i32 = (extent as i32) * scale;
    let half: i32 = size / 2;
    pos - half
}

/// The seed of the noise that textures one star frame: the time stamp in
/// nanoseconds (`secs` whole seconds and `subsec_nanos` more) truncated to
/// its low 32 bits.
pub fn perlin_seed(secs: u64, subsec_nanos: u32) -> (seed: u32)
    requires
        secs * 1_000_000_000 + subsec_nanos <= u64::MAX,
    ensures
        seed == (secs * 1_000_000_000 + subsec_nanos) % 0x1_0000_0000,
{
    let total: u64 = secs * 1_000_000_000 + subsec_nanos as u64;
    let seed: u32 = total as u32;
    assert(seed == total % 0x1_0000_0000) by (bit_vector)
        requires
            seed == total as u32,
    ;
    seed
}

/// The square of the offset of pixel coordinate `a` from the centre
/// coordinate `centre`.
pub fn squared_offset(a: i32, centre: i32) -> (sq: i32)
    requires
        i32::MIN <= a - centre <= i32::MAX,
        (a - centre) * (a - centre) <= i32::MAX,
    ensures
        sq == (a - centre) * (a - centre),
{
    let d: i32 = a - centre;
    assert(d * d >= 0) by (nonlinear_arith);
    d * d
}

/// The bit-level first guess of the fast inverse square root: the magic
/// constant `0x5f3759df` minus the bit pattern of the (single-precision)
/// input shifted right by one, i.e. minus half of it rounded down.
/// Bit patterns below `-1_100_041_280` (negative inputs of large magnitude)
/// would overflow and are not accepted.
pub fn inverse_sqrt_seed(bits: i32) -> (seed: i32)
    requires
        bits >= -1_100_041_280,
    ensures
        seed == 0x5f3759df - (bits >> 1),
        2 * (0x5f3759df - seed) <= bits < 2 * (0x5f3759df - seed) + 2,
{
    assert((bits >> 1) >= -550_020_640 && 2 * (bits >> 1) <= bits && bits < 2 * (bits >> 1) + 2)
        by (bit_vector)
        requires
            bits >= -1_100_041_280,
    ;
    0x5f3759df - (bits >> 1)
}

/// Width in pixels of a generated star texture.
pub const TEXTURE_WIDTH: u32 = 300;

/// Height in pixels of a generated star texture.
pub const TEXTURE_HEIGHT: u32 = 300;

/// The PNG file that the `image` crate writes for an 8-bit RGBA image of
/// `width` by `height` pixels whose row-major samples are `pixels`, or
/// `None` where its encoder reports an error.
pub uninterp spec fn png_rgba8_encoding(width: u32, height: u32, pixels: Seq<u8>) -> Option<
    Seq<u8>,
>;

#[verifier::external_type_specification]
#[verifier::external_body]
pub struct ExImageError(image::ImageError);

/// Encodes an RGBA image as PNG with the `image` crate:
/// `ImageBuffer::from_raw`, then `DynamicImage::write_to` with
/// `ImageOutputFormat::Png` into an in-memory buffer. The claims are that
/// the outcome is a function of the image (named `png_rgba8_encoding`), and
/// that it succeeds exactly when both dimensions are positive: the `png`
/// encoder refuses only a zero width or height before writing, and writing
/// into a `Vec` does not fail. Nothing is stated of the bytes themselves.
/// A buffer of the wrong size is not accepted (`from_raw` would give
/// nothing to encode).
#[verifier::external_body]
fn encode_png_rgba8(width: u32, height: u32, pixels: Vec<u8>) -> (r: Result<
    Vec<u8>,
    image::ImageError,
>)
    requires
        pixels@.len() == width * height * 4,
    ensures
        r is Ok <==> png_rgba8_encoding(width, height, pixels@) is Some,
        r is Ok <==> (width > 0 && height > 0),
        r matches Ok(bytes) ==> bytes@ == png_rgba8_encoding(width, height, pixels@).unwrap(),
{
    let img = image::RgbaImage::from_raw(width, height, pixels).unwrap();
    let mut out = std::io::Cursor::new(Vec::new());
    image::DynamicImage::ImageRgba8(img).write_to(&mut out, image::ImageOutputFormat::Png)?;
    Ok(out.into_inner())
}

/// Why a texture could not be encoded.
#[derive(Debug)]
pub enum TextureError {
    /// The pixel buffer does not hold exactly four samples per pixel.
    BufferSize,
    /// The PNG encoder reported this error.
    Encoding(image::ImageError),
}

/// Encodes a star texture (row-major RGBA samples of a `width` by `height`
/// image) as a PNG file held in memory.
pub fn encode_texture_png(width: u32, height: u32, pixels: Vec<u8>) -> (r: Result<
    Vec<u8>,
    TextureError,
>)
    ensures
        pixels@.len() != width * height * 4 ==> r matches Err(TextureError::BufferSize),
        pixels@.len() == width * height * 4 && width > 0 && height > 0 ==> {
            &&& png_rgba8_encoding(width, height, pixels@) is Some
            &&& r matches Ok(bytes) && bytes@ == png_rgba8_encoding(width, height, pixels@).unwrap()
        },
        pixels@.len() == width * height * 4 && (width == 0 || height == 0) ==> r matches Err(
            TextureError::Encoding(_),
        ),
{
    let w: u128 = width as u128;
    let h: u128 = height as u128;
    assert(w * h <= 0xffff_ffff * 0xffff_ffff) by (nonlinear_arith)
        requires
            w <= 0xffff_ffff,
            h <= 0xffff_ffff,
    ;
    let expected: u128 = w * h * 4;
    if pixels.len() as u128 != expected {
        return Err(TextureError::BufferSize);
    }
    match encode_png_rgba8(width, height, pixels) {
        Ok(bytes) => Ok(bytes),
        Err(e) => Err(TextureError::Encoding(e)),
    }
}

} // verus!
