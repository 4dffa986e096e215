//! Rasters, thumbnails, and the size a thumbnail is scaled to.

use vstd::prelude::*;

verus! {

/// The height, in pixels, of the thumbnails that the gallery shows.
pub const MAX_THUMB_HEIGHT: u32 = 150;

/// What a raster is: its size in pixels and its bytes, row by row, three to a pixel.
pub struct RasterView {
    pub width: nat,
    pub height: nat,
    pub pixels: Seq<u8>,
}

/// An 8-bit RGB raster.
#[derive(Debug)]
pub struct Raster {
    pub width: u32,
    pub height: u32,
    pub pixels: Vec<u8>,
}

impl View for Raster {
    type V = RasterView;

    open spec fn view(&self) -> RasterView {
        RasterView { width: self.width as nat, height: self.height as nat, pixels: self.pixels@ }
    }
}

/// The number of bytes that a raster of the given size holds.
pub open spec fn raster_len(width: nat, height: nat) -> nat {
    width * height * 3
}

/// Whether a raster of `width` by `height` pixels has at most `limit` bytes.
pub fn raster_len_at_most(width: u32, height: u32, limit: usize) -> (within: bool)
    ensures
        within == (raster_len(width as nat, height as nat) <= limit),
{
    assert(width as u128 * height as u128 <= 0xffff_ffff * 0xffff_ffff) by (nonlinear_arith)
        requires
            width as u128 <= 0xffff_ffff,
            height as u128 <= 0xffff_ffff,
    ;
    let bytes: u128 = width as u128 * height as u128 * 3;
    bytes <= limit as u128
}

impl RasterView {
    /// The bytes are exactly those of `width * height` pixels.
    pub open spec fn wf(self) -> bool {
        self.pixels.len() == raster_len(self.width, self.height)
    }
}

impl Raster {
    /// The bytes are exactly those of `width * height` pixels.
    pub open spec fn wf(&self) -> bool {
        self@.wf()
    }

    /// The raster without pixels, which stands where no picture is yet.
    pub fn empty() -> (r: Raster)
        ensures
            r@ == (RasterView { width: 0, height: 0, pixels: Seq::empty() }),
            r.wf(),
    {
        Raster { width: 0, height: 0, pixels: Vec::new() }
    }

    /// Whether the bytes of the raster are exactly those of its pixels.
    pub fn is_well_formed(&self) -> (ok: bool)
        ensures
            ok == self.wf(),
    {
        let n: usize = self.pixels.len();
        if !raster_len_at_most(self.width, self.height, n) {
            return false;
        }
        if n == 0 {
            return true;
        }
        !raster_len_at_most(self.width, self.height, n - 1)
    }

    /// Whether the raster has no pixels.
    pub fn is_empty(&self) -> (b: bool)
        ensures
            b == (self.width == 0 || self.height == 0),
    {
        self.width == 0 || self.height == 0
    }

    /// Whether two rasters have the same size and the same bytes.
    pub fn same(&self, other: &Raster) -> (b: bool)
        ensures
            b == (self@ == other@),
    {
        if self.width != other.width || self.height != other.height {
            return false;
        }
        if self.pixels.len() != other.pixels.len() {
            return false;
        }
        let n: usize = self.pixels.len();
        let mut i: usize = 0;
        while i < n
            invariant
                n == self.pixels.len(),
                n == other.pixels.len(),
                i <= n,
                forall|j: int| 0 <= j < i ==> self.pixels[j] == other.pixels[j],
            decreases n - i,
        {
            if self.pixels[i] != other.pixels[i] {
                return false;
            }
            i += 1;
        }
        assert(self.pixels@ =~= other.pixels@);
        true
    }
}

impl Clone for Raster {
    fn clone(&self) -> (r: Raster)
        ensures
            r@ == self@,
    {
        let pixels = self.pixels.clone();
        assert(pixels@ =~= self.pixels@);
        Raster { width: self.width, height: self.height, pixels }
    }
}

/// What a thumbnail is: its place among the pictures of its folder, and its raster.
pub struct ThumbnailView {
    pub index: nat,
    pub image: RasterView,
}

/// A scaled-down picture, stamped with its place among the pictures of its folder.
#[derive(Debug)]
pub struct Thumbnail {
    pub index: usize,
    pub image: Raster,
}

impl View for Thumbnail {
    type V = ThumbnailView;

    open spec fn view(&self) -> ThumbnailView {
        ThumbnailView { index: self.index as nat, image: self.image@ }
    }
}

impl Thumbnail {
    /// Whether two thumbnails have the same place and the same raster.
    pub fn same(&self, other: &Thumbnail) -> (b: bool)
        ensures
            b == (self@ == other@),
    {
        self.index == other.index && self.image.same(&other.image)
    }
}

impl Clone for Thumbnail {
    fn clone(&self) -> (t: Thumbnail)
        ensures
            t@ == self@,
    {
        Thumbnail { index: self.index, image: self.image.clone() }
    }
}

/// A length of the source scaled by `max_height / source_height` and rounded
/// down, or the largest `u32` where that is smaller.
pub open spec fn scaled_length(length: nat, source_height: nat, max_height: nat) -> nat
    recommends
        source_height > 0,
{
    let exact = (length * max_height) / source_height;
    if exact > u32::MAX {
        u32::MAX as nat
    } else {
        exact
    }
}

/// The size of the thumbnail of a `width` by `height` source: both sides
/// scaled by `max_height / height`, rounded down.
///
/// The law is taken in exact arithmetic: the product `side * max_height` is
/// divided by `height` as whole numbers, and no rounded scale factor takes
/// part. So the height is always `max_height` itself, and a 21 by 7 source
/// scaled to the height 150 is 450 wide. A product of double-precision
/// numbers, with the scale factor rounded first, falls just short of the
/// whole number on some sizes and would give 449 there, and 149 for the
/// height of a source that is 281 high; that is not what is computed here.
pub open spec fn thumbnail_size(width: nat, height: nat, max_height: nat) -> (nat, nat)
    recommends
        height > 0,
{
    (scaled_length(width, height, max_height), scaled_length(height, height, max_height))
}

/// Computes the size of the thumbnail of a `width` by `height` source.
pub fn thumbnail_dimensions(width: u32, height: u32, max_height: u32) -> (dims: (u32, u32))
    requires
        height > 0,
    ensures
        (dims.0 as nat, dims.1 as nat) == thumbnail_size(width as nat, height as nat, max_height as nat),
        dims.1 == max_height,
{
    let new_width: u32 = scale_length(width, height, max_height);
    let new_height: u32 = scale_length(height, height, max_height);
    proof {
        lemma_height_scales_to_max(height as nat, max_height as nat);
    }
    (new_width, new_height)
}

fn scale_length(length: u32, source_height: u32, max_height: u32) -> (scaled: u32)
    requires
        source_height > 0,
    ensures
        scaled == scaled_length(length as nat, source_height as nat, max_height as nat),
{
    assert(length as u64 * max_height as u64 <= 0xffff_ffff * 0xffff_ffff) by (nonlinear_arith)
        requires
            length as u64 <= 0xffff_ffff,
            max_height as u64 <= 0xffff_ffff,
    ;
    let product: u64 = length as u64 * max_height as u64;
    let exact: u64 = product / source_height as u64;
    if exact > u32::MAX as u64 {
        u32::MAX
    } else {
        exact as u32
    }
}

/// The scale law of thumbnails. The thumbnail of a source is exactly
/// `max_height` high. Its width is the width of the source times
/// `max_height / height`, rounded down: the widest for which
/// `thumbnail_width * height` does not pass `width * max_height`, as long
/// as that fits into 32 bits.
pub proof fn law_thumbnail_scale(width: nat, height: nat, max_height: nat)
    requires
        height > 0,
        max_height <= u32::MAX,
    ensures
        thumbnail_size(width, height, max_height).1 == max_height,
        thumbnail_size(width, height, max_height).0 <= u32::MAX,
        thumbnail_size(width, height, max_height).0 * height <= width * max_height,
        width * max_height < (u32::MAX + 1) * height ==> {
            &&& thumbnail_size(width, height, max_height).0 == (width * max_height) / height
            &&& width * max_height < (thumbnail_size(width, height, max_height).0 + 1) * height
        },
{
    lemma_height_scales_to_max(height, max_height);
    let product = width * max_height;
    let exact = product / height;
    assert(exact * height <= product < (exact + 1) * height) by (nonlinear_arith)
        requires
            exact == product / height,
            height > 0,
            product >= 0,
    ;
    if exact > u32::MAX {
        assert(u32::MAX * height <= exact * height) by (nonlinear_arith)
            requires
                exact > u32::MAX,
                height > 0,
        ;
        assert((u32::MAX + 1) * height <= exact * height) by (nonlinear_arith)
            requires
                exact >= u32::MAX + 1,
                height > 0,
        ;
    }
}

/// The height of a source always scales to the thumbnail height itself.
pub proof fn lemma_height_scales_to_max(height: nat, max_height: nat)
    requires
        height > 0,
        max_height <= u32::MAX,
    ensures
        scaled_length(height, height, max_height) == max_height,
{
    assert((height * max_height) / height == max_height) by (nonlinear_arith)
        requires
            height > 0,
    ;
}

} // verus!
