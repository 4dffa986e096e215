//! Telling pictures from other files by their first bytes.

use vstd::prelude::*;

verus! {

/// The eight bytes that every PNG file starts with.
pub open spec fn png_signature() -> Seq<u8> {
    seq![0x89u8, 0x50u8, 0x4eu8, 0x47u8, 0x0du8, 0x0au8, 0x1au8, 0x0au8]
}

/// The three bytes that every JPEG file starts with.
pub open spec fn jpeg_signature() -> Seq<u8> {
    seq![0xffu8, 0xd8u8, 0xffu8]
}

/// Whether a file that starts with `header` is in a format that the gallery shows.
pub open spec fn is_supported_header(header: Seq<u8>) -> bool {
    png_signature().is_prefix_of(header) || jpeg_signature().is_prefix_of(header)
}

/// The container format that the first bytes of a file point to.
#[derive(Clone, Copy, Debug, PartialEq, Eq, Structural)]
enum SniffedFormat {
    Png,
    Jpeg,
    /// Any other format, or none that is known.
    Other,
}

/// What was found of one entry of a directory without decoding it.
#[derive(Debug)]
pub struct FileProbe {
    /// The entry's path.
    pub path: String,
    /// Whether the entry is a regular file.
    pub is_file: bool,
    /// The first bytes of the file, or `None` where it could not be opened or read.
    pub header: Option<Vec<u8>>,
}

impl FileProbe {
    /// Whether the entry is a file in a format that the gallery shows.
    pub open spec fn displayable(&self) -> bool {
        &&& self.is_file
        &&& self.header matches Some(header)
        &&& is_supported_header(header@)
    }
}

/// Trusted: `image::guess_format`, which compares the start of `header` with
/// a fixed table of signatures and returns the format of the first that
/// matches. The PNG signature stands first in that table and the JPEG
/// signature second, they differ in their first byte, and no other entry
/// gives either format; so each of the two is reported exactly for the
/// headers that start with its signature. Every other outcome, an error
/// among them, is `Other` here.
#[verifier::external_body]
fn guess_format(header: &[u8]) -> (format: SniffedFormat)
    ensures
        format == SniffedFormat::Png <==> png_signature().is_prefix_of(header@),
        format == SniffedFormat::Jpeg <==> jpeg_signature().is_prefix_of(header@),
{
    match image::guess_format(header) {
        Ok(image::ImageFormat::Png) => SniffedFormat::Png,
        Ok(image::ImageFormat::Jpeg) => SniffedFormat::Jpeg,
        Ok(_) => SniffedFormat::Other,
        Err(_) => SniffedFormat::Other,
    }
}

/// Whether an entry is a picture that the gallery shows: a regular file whose
/// first bytes are those of a PNG or a JPEG file. An entry that could not be
/// read is no picture; that is no error.
pub fn is_displayable_image(file: &FileProbe) -> (shown: bool)
    ensures
        shown == file.displayable(),
{
    if !file.is_file {
        return false;
    }
    match &file.header {
        Some(header) => {
            let format = guess_format(header.as_slice());
            match format {
                SniffedFormat::Png => true,
                SniffedFormat::Jpeg => true,
                SniffedFormat::Other => false,
            }
        },
        None => false,
    }
}

} // verus!
