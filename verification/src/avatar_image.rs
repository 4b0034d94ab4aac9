//! In-memory avatar bitmaps, modelled as an opaque pixel buffer together
//! with its dimensions, and the trusted operations on it.

use vstd::prelude::*;

verus! {

/// The `image` crate's bitmap type, opaque to verification.
#[verifier::external_type_specification]
#[verifier::external_body]
pub struct ExDynamicImage(image::DynamicImage);

/// An RGBA color with 8-bit channels.
#[derive(Clone, Copy, Debug, PartialEq, Eq, Structural)]
pub struct Rgba {
    pub r: u8,
    pub g: u8,
    pub b: u8,
    pub a: u8,
}

/// An avatar bitmap. The pixel data is opaque; the dimensions are
/// carried beside it so that contracts can speak of them. The fields
/// are private: only the trusted operations in this module build an
/// `Avatar`, and each of them sets the carried dimensions to those of
/// the bitmap it stores, so the two never drift apart.
#[derive(Debug)]
pub struct Avatar {
    image: image::DynamicImage,
    width: u32,
    height: u32,
}

impl Avatar {
    /// The bitmap's width in pixels.
    pub closed spec fn spec_width(&self) -> u32 {
        self.width
    }

    /// The bitmap's height in pixels.
    pub closed spec fn spec_height(&self) -> u32 {
        self.height
    }

    #[verifier::when_used_as_spec(spec_width)]
    pub fn width(&self) -> (w: u32)
        ensures
            w == self.spec_width(),
    {
        self.width
    }

    #[verifier::when_used_as_spec(spec_height)]
    pub fn height(&self) -> (h: u32)
        ensures
            h == self.spec_height(),
    {
        self.height
    }

}

/// Largest pixel stride the underlying buffers use (RGBA with 32-bit
/// floating-point channels), in bytes per pixel.
pub const MAX_BYTES_PER_PIXEL: u64 = 16;

/// A width/height pair small enough that every pixel buffer of those
/// dimensions fits in one allocation.
pub open spec fn fits_in_memory(width: u32, height: u32) -> bool {
    MAX_BYTES_PER_PIXEL * (width as nat) * (height as nat) <= usize::MAX as nat
}

/// What decoding a byte buffer yields: the dimensions of the image the
/// bytes hold, or nothing where they decode to no image. Decoding
/// depends on the bytes alone, so naming its result is sound.
pub uninterp spec fn decoded_dims(bytes: Seq<u8>) -> Option<(u32, u32)>;

/// Relies on image::RgbaImage::from_pixel: a width x height buffer holding
/// the one pixel everywhere. It panics only when the buffer cannot fit in
/// a single allocation, which the precondition rules out.
#[verifier::external_body]
pub fn solid_avatar(size: u32, color: &Rgba) -> (av: Avatar)
    requires
        fits_in_memory(size, size),
    ensures
        av.width() == size,
        av.height() == size,
{
    let img = image::RgbaImage::from_pixel(size, size, image::Rgba([color.r, color.g, color.b, color.a]));
    Avatar { image: image::DynamicImage::ImageRgba8(img), width: size, height: size }
}

/// Relies on image::load_from_memory: decodes a byte buffer in any of the
/// supported formats, returning an error (never panicking) on bytes it
/// cannot decode. The result is a function of the bytes alone: it
/// succeeds exactly where `decoded_dims` names dimensions, and the
/// decoded bitmap has those dimensions.
#[verifier::external_body]
pub fn decode_avatar(bytes: &[u8]) -> (r: Result<Avatar, crate::avatar_provider::FetchError>)
    ensures
        r is Ok <==> decoded_dims(bytes@) is Some,
        r matches Ok(av) ==> decoded_dims(bytes@) == Some((av.spec_width(), av.spec_height())),
        r matches Err(e) ==> e == crate::avatar_provider::FetchError::ImageError,
{
    match image::load_from_memory(bytes) {
        Ok(img) => {
            let width = img.width();
            let height = img.height();
            Ok(Avatar { image: img, width, height })
        }
        Err(_) => Err(crate::avatar_provider::FetchError::ImageError),
    }
}

/// Relies on image::DynamicImage::write_to with the JPEG format: encodes
/// the bitmap into an in-memory byte buffer. The encoder converts the
/// color type as needed and refuses only dimensions outside 1..=65535,
/// so encoding an avatar within those bounds succeeds.
#[verifier::external_body]
pub fn encode_jpeg(av: &Avatar) -> (r: Result<Vec<u8>, crate::avatar_provider::FetchError>)
    ensures
        (1 <= av.spec_width() <= 65535 && 1 <= av.spec_height() <= 65535) ==> r is Ok,
        r matches Err(e) ==> e == crate::avatar_provider::FetchError::ImageError,
{
    let mut buf = std::io::Cursor::new(Vec::new());
    match av.image.write_to(&mut buf, image::ImageFormat::Jpeg) {
        Ok(()) => Ok(buf.into_inner()),
        Err(_) => Err(crate::avatar_provider::FetchError::ImageError),
    }
}

/// Dimensions that image::DynamicImage::crop_imm gives a cut-out: the
/// requested rectangle, clamped to the source image.
pub open spec fn clamped_crop_len(requested: u32, offset: u32, available: u32) -> int {
    let off = if offset <= available {
        offset as int
    } else {
        available as int
    };
    if requested <= available - off {
        requested as int
    } else {
        available - off
    }
}

/// Relies on image::DynamicImage::crop_imm: a cut-out delimited by the
/// given rectangle, clamped to the image bounds.
#[verifier::external_body]
pub fn crop_avatar(av: &Avatar, x: u32, y: u32, width: u32, height: u32) -> (r: Avatar)
    ensures
        r.spec_width() as int == clamped_crop_len(width, x, av.spec_width()),
        r.spec_height() as int == clamped_crop_len(height, y, av.spec_height()),
{
    let img = av.image.crop_imm(x, y, width, height);
    let width = img.width();
    let height = img.height();
    Avatar { image: img, width, height }
}

/// Relies on image::DynamicImage::thumbnail_exact: scales the image to
/// exactly the given dimensions with an integer sampling algorithm.
#[verifier::external_body]
pub fn scale_avatar(av: &Avatar, width: u32, height: u32) -> (r: Avatar)
    requires
        fits_in_memory(width, height),
    ensures
        r.spec_width() == width,
        r.spec_height() == height,
{
    let img = av.image.thumbnail_exact(width, height);
    Avatar { image: img, width, height }
}

/// Relies on image::DynamicImage::huerotate: rotates every pixel's hue by
/// the given number of degrees, keeping the dimensions.
#[verifier::external_body]
pub fn hue_rotate_avatar(av: &Avatar, degrees: i32) -> (r: Avatar)
    ensures
        r.spec_width() == av.spec_width(),
        r.spec_height() == av.spec_height(),
{
    let img = av.image.huerotate(degrees);
    let width = img.width();
    let height = img.height();
    Avatar { image: img, width, height }
}

/// Relies on image::DynamicImage::invert: inverts every pixel's channels
/// in place, keeping the dimensions.
#[verifier::external_body]
pub fn invert_avatar(av: &mut Avatar)
    ensures
        final(av).spec_width() == old(av).spec_width(),
        final(av).spec_height() == old(av).spec_height(),
{
    av.image.invert();
}

/// Relies on rand::random: one byte drawn from the thread-local generator.
/// Nothing is promised of the value.
#[verifier::external_body]
pub fn random_byte() -> u8 {
    rand::random::<u8>()
}

/// Relies on rand::random_range: a value drawn uniformly from the
/// inclusive range, which must be non-empty or the call panics.
#[verifier::external_body]
pub fn random_in_range(lo: i32, hi: i32) -> (r: i32)
    requires
        lo <= hi,
    ensures
        lo <= r <= hi,
{
    rand::random_range(lo..=hi)
}

/// A color drawn uniformly at random, fully opaque.
pub fn random_color() -> (c: Rgba)
    ensures
        c.a == 255,
{
    Rgba { r: random_byte(), g: random_byte(), b: random_byte(), a: 255 }
}

/// Cuts the largest centered square out of the image and scales it to
/// `size` x `size`, as providers do to normalize an avatar.
pub fn crop_and_resize(av: &Avatar, size: u32) -> (r: Avatar)
    requires
        fits_in_memory(size, size),
    ensures
        r.width() == size,
        r.height() == size,
{
    let aw = av.width();
    let ah = av.height();
    let side = if aw <= ah {
        aw
    } else {
        ah
    };
    let x = (aw - side) / 2;
    let y = (ah - side) / 2;
    let square = crop_avatar(av, x, y, side, side);
    assert(square.width() == side && square.height() == side);
    scale_avatar(&square, size, size)
}

} // verus!
