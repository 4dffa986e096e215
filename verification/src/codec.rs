//! Decoding pictures and scaling them down to thumbnails.

use vstd::prelude::*;
use crate::raster::{
    law_thumbnail_scale, raster_len, raster_len_at_most, scaled_length, thumbnail_dimensions, thumbnail_size,
    Raster, RasterView, Thumbnail, ThumbnailView,
};

verus! {

/// Why a file gave no thumbnail.
#[derive(Clone, Copy, Debug, PartialEq, Eq, Structural)]
pub enum DecodeError {
    /// The file could not be read.
    Unreadable,
    /// The bytes are no picture in a format that can be decoded, or a damaged one.
    InvalidFormat,
    /// The picture has no pixels: its width or its height is zero.
    ZeroDimension,
    /// The picture is too large to be scaled down in one piece, or its
    /// thumbnail would not fit into one buffer.
    TooLarge,
}

/// Trusted: `image::ImageError`, the error of the decoder. Nothing is known of
/// it here; it is only taken from the decoder and turned into `DecodeError`.
#[verifier::external_type_specification]
#[verifier::external_body]
pub struct ExImageError(image::ImageError);

/// The bytes that `image::imageops::thumbnail` gives for an 8-bit RGB
/// picture of `width` by `height` with the bytes `pixels`, resized to
/// `new_width` by `new_height`.
pub uninterp spec fn thumbnail_pixels(
    pixels: Seq<u8>,
    width: u32,
    height: u32,
    new_width: u32,
    new_height: u32,
) -> Seq<u8>;

/// Trusted: `image::load_from_memory`, then `DynamicImage::into_rgb8`. The
/// format is guessed from the first bytes and the whole picture decoded.
/// Which bytes decode, and to which pixels, is the decoder's own matter and
/// may differ from one machine to the next; nothing is said of it. What is
/// said: a decoded picture comes with exactly three bytes for each of its
/// `width * height` pixels.
#[verifier::external_body]
fn load_rgb8(bytes: &[u8]) -> (res: Result<Raster, image::ImageError>)
    ensures
        res matches Ok(raster) ==> raster.wf(),
{
    let decoded = image::load_from_memory(bytes)?.into_rgb8();
    let (width, height) = decoded.dimensions();
    Ok(Raster { width, height, pixels: decoded.into_raw() })
}

/// The most source pixels that may go into one pixel of a thumbnail.
pub const MAX_BLOCK_PIXELS: u64 = 0x100_0000;

/// More source pixels in a row than go into one pixel of the result when a
/// side of `length` pixels is resized to `new_length`: the quotient of the
/// two, and room for what is lost where the sides of a block are found in
/// single precision, which grows with the length.
pub open spec fn block_side(length: nat, new_length: nat) -> nat
    recommends
        new_length > 0,
{
    length / new_length + length / 0x20_0000 + 4
}

/// Whether a picture of `width` by `height` pixels can be resized to
/// `new_width` by `new_height`: the result fits into one buffer, and where
/// it has pixels at all, not too many pixels of the source go into one
/// pixel of the result.
pub open spec fn can_resample(width: nat, height: nat, new_width: nat, new_height: nat) -> bool {
    &&& raster_len(new_width, new_height) <= isize::MAX
    &&& new_width > 0 && new_height > 0 ==> block_side(width, new_width) * block_side(height, new_height)
        <= MAX_BLOCK_PIXELS
}

/// Trusted: `image::imageops::thumbnail` on an 8-bit RGB picture. The result
/// has the size asked for, with three bytes for each pixel, and depends on
/// the source and the new size alone.
///
/// The inputs that are left out are those on which it may fail. It
/// allocates the result in one piece, which must not be longer than
/// `isize::MAX`. For each pixel of the result it adds up a block of source
/// pixels in 32-bit counters, up to 255 for each pixel and half the number
/// of pixels on top, so a block must not have more than `MAX_BLOCK_PIXELS`
/// pixels. The two ends of a block along a side are found in single
/// precision as `i * ratio` and `i * ratio + ratio`, each rounded up to a
/// whole number, with `ratio` the quotient of the two lengths. Each
/// operation rounds its result by at most one part in 2^24, and none of the
/// results passes the length of the side by more than that. So the two ends
/// lie less than `length / new_length + length / 2^21 + 1` apart, and a
/// block has fewer than `block_side` pixels each way, whatever the length.
#[verifier::external_body]
fn resample(image: &Raster, new_width: u32, new_height: u32) -> (out: Raster)
    requires
        image.wf(),
        can_resample(image.width as nat, image.height as nat, new_width as nat, new_height as nat),
    ensures
        out.width == new_width,
        out.height == new_height,
        out.wf(),
        out.pixels@ == thumbnail_pixels(
            image.pixels@,
            image.width,
            image.height,
            new_width,
            new_height,
        ),
{
    let source = image::ImageBuffer::<image::Rgb<u8>, &[u8]>::from_raw(
        image.width,
        image.height,
        image.pixels.as_slice(),
    ).unwrap();
    let scaled = image::imageops::thumbnail(&source, new_width, new_height);
    Raster { width: new_width, height: new_height, pixels: scaled.into_raw() }
}

/// Whether a picture of `width` by `height` pixels can be resized to
/// `new_width` by `new_height`.
fn check_can_resample(width: u32, height: u32, new_width: u32, new_height: u32) -> (ok: bool)
    ensures
        ok == can_resample(width as nat, height as nat, new_width as nat, new_height as nat),
{
    if !raster_len_at_most(new_width, new_height, isize::MAX as usize) {
        return false;
    }
    if new_width == 0 || new_height == 0 {
        return true;
    }
    let across: u128 = (width / new_width) as u128 + (width / 0x20_0000) as u128 + 4;
    let down: u128 = (height / new_height) as u128 + (height / 0x20_0000) as u128 + 4;
    assert(across * down <= 0x2_0000_0000 * 0x2_0000_0000) by (nonlinear_arith)
        requires
            across <= 0x2_0000_0000,
            down <= 0x2_0000_0000,
    ;
    across * down <= MAX_BLOCK_PIXELS as u128
}

/// Whether the thumbnail of a `width` by `height` source can be made.
pub open spec fn can_scale(width: nat, height: nat, max_height: nat) -> bool {
    let size = thumbnail_size(width, height, max_height);
    can_resample(width, height, size.0, size.1)
}

/// The thumbnail raster of a source: the source resized to its thumbnail size.
pub open spec fn scaled_raster(source: RasterView, max_height: nat) -> RasterView {
    let size = thumbnail_size(source.width, source.height, max_height);
    RasterView {
        width: size.0,
        height: size.1,
        pixels: thumbnail_pixels(
            source.pixels,
            source.width as u32,
            source.height as u32,
            size.0 as u32,
            size.1 as u32,
        ),
    }
}

/// What scaling a decoded picture down gives: an error where the picture is
/// not one that can be scaled, else its thumbnail.
pub open spec fn create_thumbnail_spec(index: nat, source: RasterView, max_height: u32) -> Result<
    ThumbnailView,
    DecodeError,
> {
    if !source.wf() {
        Err(DecodeError::InvalidFormat)
    } else if source.width == 0 || source.height == 0 {
        Err(DecodeError::ZeroDimension)
    } else if !can_scale(source.width, source.height, max_height as nat) {
        Err(DecodeError::TooLarge)
    } else {
        Ok(ThumbnailView { index, image: scaled_raster(source, max_height as nat) })
    }
}

/// A thumbnail or the reason why there is none, over the view of the thumbnail.
pub open spec fn outcome_view(res: Result<Thumbnail, DecodeError>) -> Result<ThumbnailView, DecodeError> {
    match res {
        Ok(thumbnail) => Ok(thumbnail@),
        Err(error) => Err(error),
    }
}

/// Whether `res` is what scaling the decoded picture `source` down gives.
pub open spec fn scaled_from(
    res: Result<Thumbnail, DecodeError>,
    index: nat,
    source: RasterView,
    max_height: u32,
) -> bool {
    &&& source.wf()
    &&& outcome_view(res) == create_thumbnail_spec(index, source, max_height)
    &&& res matches Ok(thumbnail) ==> thumbnail.image.wf()
}

/// Every picture with pixels that can be scaled gets its thumbnail, and the
/// thumbnail is to scale: as high as asked for, and as wide as the source is
/// wide times `max_height / height`, rounded down.
pub proof fn law_thumbnail_to_scale(index: nat, source: RasterView, max_height: u32)
    requires
        source.wf(),
        source.width > 0,
        source.height > 0,
        can_scale(source.width, source.height, max_height as nat),
    ensures
        create_thumbnail_spec(index, source, max_height) matches Ok(thumbnail) && {
            let max = max_height as nat;
            &&& thumbnail.index == index
            &&& thumbnail.image.height == max
            &&& thumbnail.image.width == scaled_length(source.width, source.height, max)
            &&& thumbnail.image.width * source.height <= source.width * max
            &&& source.width * max < (u32::MAX + 1) * source.height ==> {
                &&& thumbnail.image.width == (source.width * max) / source.height
                &&& source.width * max < (thumbnail.image.width + 1) * source.height
            }
        },
{
    law_thumbnail_scale(source.width, source.height, max_height as nat);
}

/// Scales a decoded picture down to a thumbnail `max_height` pixels high and
/// stamps it with `index`.
///
/// Both sides are scaled by `max_height / height` and rounded down, so the
/// thumbnail is `max_height` high and `width * max_height / height` wide.
/// A picture without pixels, or whose bytes do not match its size, gives an
/// error, and so does one that is too large to be scaled.
pub fn create_thumbnail(index: usize, image: &Raster, max_height: u32) -> (res: Result<
    Thumbnail,
    DecodeError,
>)
    ensures
        outcome_view(res) == create_thumbnail_spec(index as nat, image@, max_height),
        res is Ok <==> image.wf() && image.width > 0 && image.height > 0 && can_scale(
            image.width as nat,
            image.height as nat,
            max_height as nat,
        ),
        res matches Ok(thumbnail) ==> {
            &&& thumbnail.index == index
            &&& thumbnail.image.wf()
            &&& thumbnail.image.height == max_height
            &&& thumbnail.image.width == scaled_length(
                image.width as nat,
                image.height as nat,
                max_height as nat,
            )
        },
{
    if !image.is_well_formed() {
        return Err(DecodeError::InvalidFormat);
    }
    if image.width == 0 || image.height == 0 {
        return Err(DecodeError::ZeroDimension);
    }
    let (new_width, new_height) = thumbnail_dimensions(image.width, image.height, max_height);
    if !check_can_resample(image.width, image.height, new_width, new_height) {
        return Err(DecodeError::TooLarge);
    }
    let scaled = resample(image, new_width, new_height);
    Ok(Thumbnail { index, image: scaled })
}

/// Decodes the contents of a picture file and scales the picture down to a
/// thumbnail `max_height` pixels high, stamped with `index`.
///
/// `contents` is what reading the file gave, `None` where it could not be
/// read. Whether the bytes decode is the decoder's matter: where they do
/// not, the answer is `InvalidFormat`; where they do, it is what
/// `create_thumbnail` gives for the decoded picture.
pub fn decode_and_scale(contents: &Option<Vec<u8>>, index: usize, max_height: u32) -> (res: Result<
    Thumbnail,
    DecodeError,
>)
    ensures
        *contents is None ==> res == Err::<Thumbnail, DecodeError>(DecodeError::Unreadable),
        *contents is Some ==> res == Err::<Thumbnail, DecodeError>(DecodeError::InvalidFormat) || exists|
            source: RasterView,
        | scaled_from(res, index as nat, source, max_height),
        res matches Ok(thumbnail) ==> {
            &&& thumbnail.index == index
            &&& thumbnail.image.wf()
            &&& thumbnail.image.height == max_height
        },
{
    match contents {
        None => Err(DecodeError::Unreadable),
        Some(bytes) => match load_rgb8(bytes.as_slice()) {
            Err(_) => Err(DecodeError::InvalidFormat),
            Ok(image) => {
                let res = create_thumbnail(index, &image, max_height);
                assert(scaled_from(res, index as nat, image@, max_height));
                res
            },
        },
    }
}

/// Decodes the contents of a picture file at its full size.
///
/// `contents` is what reading the file gave, `None` where it could not be
/// read. Whether the bytes decode is the decoder's matter; a picture that
/// comes out has three bytes for each of its pixels.
pub fn read_image(contents: &Option<Vec<u8>>) -> (res: Result<Raster, DecodeError>)
    ensures
        *contents is None ==> res == Err::<Raster, DecodeError>(DecodeError::Unreadable),
        *contents is Some ==> match res {
            Ok(raster) => raster.wf(),
            Err(error) => error == DecodeError::InvalidFormat,
        },
{
    match contents {
        None => Err(DecodeError::Unreadable),
        Some(bytes) => match load_rgb8(bytes.as_slice()) {
            Ok(image) => Ok(image),
            Err(_) => Err(DecodeError::InvalidFormat),
        },
    }
}

} // verus!
