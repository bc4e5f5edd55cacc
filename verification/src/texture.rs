//! The source image: decoding the bytes of an image file into pixels that
//! can be uploaded.

use vstd::prelude::*;

verus! {

/// Bytes of one pixel of the source image: red, green, blue and alpha, eight
/// bits each.
pub const BYTES_PER_PIXEL: u32 = 4;

/// The error of the decoder.
#[verifier::external_type_specification]
#[verifier::external_body]
pub struct ExImageError(image::ImageError);

/// The bytes start as a JPEG file does.
pub open spec fn jpeg_signature(bytes: Seq<u8>) -> bool {
    bytes.len() >= 3 && bytes[0] == 0xff && bytes[1] == 0xd8 && bytes[2] == 0xff
}

/// The length that the segment at `pos` declares: the two bytes after its
/// marker, most significant first.
pub open spec fn segment_length(bytes: Seq<u8>, pos: int) -> int {
    bytes[pos + 2] * 256 + bytes[pos + 3]
}

/// At `pos` stands a whole application or comment segment: a marker with
/// code `E0` to `EF` or `FE`, and a length that covers at least itself and
/// does not reach beyond the end.
pub open spec fn metadata_segment(bytes: Seq<u8>, pos: int) -> bool {
    &&& 0 <= pos
    &&& pos + 4 <= bytes.len()
    &&& bytes[pos] == 0xff
    &&& (0xe0 <= bytes[pos + 1] <= 0xef || bytes[pos + 1] == 0xfe)
    &&& segment_length(bytes, pos) >= 2
    &&& pos + 2 + segment_length(bytes, pos) <= bytes.len()
}

/// Where the application and comment segments that follow one another from
/// `pos` on end.
pub open spec fn metadata_end(bytes: Seq<u8>, pos: int) -> int
    decreases bytes.len() - pos,
{
    if metadata_segment(bytes, pos) {
        metadata_end(bytes, pos + 2 + segment_length(bytes, pos))
    } else {
        pos
    }
}

/// From `start` on, the marker of a lossless frame occurs: a byte `FF`
/// followed by `C3`.
pub open spec fn lossless_marker_from(bytes: Seq<u8>, start: int) -> bool {
    exists|i: int|
        start <= i && 0 <= i && i + 1 < bytes.len() && #[trigger] bytes[i] == 0xff && bytes[i + 1]
            == 0xc3
}

/// The bytes are those of a JPEG file that may hold a lossless frame: after
/// the application and comment segments at its start, the marker of such a
/// frame occurs. Such a file is not decoded. A file whose tables or image
/// data happen to hold the two bytes of that marker is refused with it.
pub open spec fn names_lossless_frame(bytes: Seq<u8>) -> bool {
    jpeg_signature(bytes) && lossless_marker_from(bytes, metadata_end(bytes, 2))
}

/// Whether the bytes are those of a JPEG file that may hold a lossless
/// frame.
pub fn holds_lossless_frame(bytes: &[u8]) -> (r: bool)
    ensures
        r == names_lossless_frame(bytes@),
{
    if bytes.len() < 3 || bytes[0] != 0xff || bytes[1] != 0xd8 || bytes[2] != 0xff {
        return false;
    }
    let mut pos: usize = 2;
    loop
        invariant
            2 <= pos <= bytes@.len(),
            metadata_end(bytes@, pos as int) == metadata_end(bytes@, 2),
        ensures
            2 <= pos <= bytes@.len(),
            metadata_end(bytes@, 2) == pos,
        decreases bytes@.len() - pos,
    {
        if bytes.len() - pos < 4 {
            break ;
        }
        let code: u8 = bytes[pos + 1];
        if bytes[pos] != 0xff || !((0xe0 <= code && code <= 0xef) || code == 0xfe) {
            break ;
        }
        let length: usize = bytes[pos + 2] as usize * 256 + bytes[pos + 3] as usize;
        if length < 2 || bytes.len() - pos - 2 < length {
            break ;
        }
        pos = pos + 2 + length;
    }
    let mut i: usize = pos;
    while i < bytes.len() - 1
        invariant
            bytes@.len() >= 3,
            jpeg_signature(bytes@),
            metadata_end(bytes@, 2) == pos,
            pos <= i <= bytes@.len(),
            forall|j: int|
                pos <= j < i && j + 1 < bytes@.len() ==> !(#[trigger] bytes@[j] == 0xff && bytes@[j
                    + 1] == 0xc3),
        decreases bytes@.len() - i,
    {
        if bytes[i] == 0xff && bytes[i + 1] == 0xc3 {
            assert(lossless_marker_from(bytes@, pos as int));
            return true;
        }
        i = i + 1;
    }
    false
}

/// The decoded image as the decoder hands it over, in whatever pixel format
/// the file has.
#[verifier::external_type_specification]
#[verifier::external_body]
pub struct ExDynamicImage(image::DynamicImage);

/// Decodes an image file held in memory, with `image::load_from_memory`,
/// which guesses the format from the first bytes. Nothing is claimed of the
/// outcome: whether the bytes decode, and to which pixels, is the decoder's
/// matter, and it may round differently from one machine to another. The
/// JPEG decoder takes a byte for the code of a marker only directly after a
/// byte `FF`, and it passes over application and comment segments by their
/// declared length; a file in which it could meet the marker of a lossless
/// frame is left out, since the buffers of such a frame may not fit.
#[verifier::external_body]
fn load_from_memory(bytes: &[u8]) -> (r: Result<image::DynamicImage, image::ImageError>)
    requires
        !names_lossless_frame(bytes@),
{
    image::load_from_memory(bytes)
}

/// Converts a decoded image to 8-bit RGBA, with `DynamicImage::to_rgba8`,
/// and hands out the width, the height and the pixel buffer. The buffer that
/// the conversion allocates has four bytes for each pixel. The conversion
/// gives up where that count does not fit the machine; it is applied only to
/// what the decoder handed over, which the decoder's own limit on memory
/// keeps far below that.
#[verifier::external_body]
fn to_rgba8(img: &image::DynamicImage) -> (r: (u32, u32, Vec<u8>))
    ensures
        r.2@.len() == BYTES_PER_PIXEL * r.0 * r.1,
{
    let rgba = img.to_rgba8();
    (rgba.width(), rgba.height(), rgba.into_raw())
}

/// What the decoder says of the bytes it rejected, with the `Display` of
/// `image::ImageError`. Nothing is claimed of the text.
#[verifier::external_body]
fn describe(error: &image::ImageError) -> (reason: String) {
    format!("{}", error)
}

/// Why the bytes of an image file gave no source image.
#[derive(Debug, Clone, PartialEq, Eq)]
pub enum LoadError {
    /// The decoder rejected the bytes, for the reason it gave.
    Decode(String),
    /// The bytes are those of a JPEG file that may hold a lossless frame.
    Unsupported,
    /// The image has no pixels.
    ZeroSized,
    /// The image is wider or higher than the device allows, or a row of it
    /// has more bytes than a 32-bit number can count.
    TooLarge,
    /// The pixel buffer does not have four bytes for each pixel.
    Malformed,
}

/// A decoded source image, ready to be uploaded: the pixels row by row, and
/// the layout of the rows.
#[derive(Debug, Clone)]
pub struct Texture {
    pub width: u32,
    pub height: u32,
    /// Four bytes per pixel: red, green, blue, alpha.
    pub pixels: Vec<u8>,
    pub bytes_per_row: u32,
    pub rows_per_image: u32,
}

impl Texture {
    /// Why an image of the given size, with a pixel buffer of the given
    /// length, cannot be a source image on a device whose images are at most
    /// `max_dimension` wide and high; nothing where it can.
    pub open spec fn rejection(width: u32, height: u32, len: nat, max_dimension: u32) -> Option<
        LoadError,
    > {
        if width == 0 || height == 0 {
            Some(LoadError::ZeroSized)
        } else if width > max_dimension || height > max_dimension || BYTES_PER_PIXEL * width
            > u32::MAX {
            Some(LoadError::TooLarge)
        } else if len != BYTES_PER_PIXEL * width * height {
            Some(LoadError::Malformed)
        } else {
            None
        }
    }

    /// The invariant of a source image: it has pixels, four bytes for each,
    /// and the row layout says so.
    pub open spec fn wf(self) -> bool {
        &&& self.width >= 1
        &&& self.height >= 1
        &&& self.bytes_per_row == BYTES_PER_PIXEL * self.width
        &&& self.rows_per_image == self.height
        &&& self.pixels@.len() == BYTES_PER_PIXEL * self.width * self.height
    }

    /// What `from_image` returns for the given arguments.
    pub open spec fn accepts(
        r: Result<Texture, LoadError>,
        width: u32,
        height: u32,
        pixels: Seq<u8>,
        max_dimension: u32,
    ) -> bool {
        match Texture::rejection(width, height, pixels.len(), max_dimension) {
            Some(e) => r == Err::<Texture, LoadError>(e),
            None => {
                &&& r is Ok
                &&& r->Ok_0.wf()
                &&& r->Ok_0.width == width
                &&& r->Ok_0.height == height
                &&& r->Ok_0.pixels@ == pixels
            },
        }
    }

    /// What `from_bytes` may return for the given bytes: a JPEG file that may
    /// hold a lossless frame is refused as unsupported; of any other bytes
    /// the decoder decides, and where it gives an image, the result is what
    /// `from_image` makes of it.
    pub open spec fn loads(r: Result<Texture, LoadError>, bytes: Seq<u8>, max_dimension: u32) -> bool {
        if names_lossless_frame(bytes) {
            r == Err::<Texture, LoadError>(LoadError::Unsupported)
        } else {
            ||| r matches Err(LoadError::Decode(_))
            ||| exists|width: u32, height: u32, pixels: Seq<u8>|
                pixels.len() == BYTES_PER_PIXEL * width * height && #[trigger] Texture::accepts(
                    r,
                    width,
                    height,
                    pixels,
                    max_dimension,
                )
        }
    }

    /// The source image that the bytes of an image file hold, for a device
    /// whose images are at most `max_dimension` wide and high.
    pub fn from_bytes(bytes: &[u8], max_dimension: u32) -> (r: Result<Texture, LoadError>)
        ensures
            Texture::loads(r, bytes@, max_dimension),
            r is Ok ==> r->Ok_0.wf() && r->Ok_0.width <= max_dimension && r->Ok_0.height
                <= max_dimension,
            !(r matches Err(LoadError::Malformed)),
    {
        if holds_lossless_frame(bytes) {
            return Err(LoadError::Unsupported);
        }
        match load_from_memory(bytes) {
            Ok(img) => {
                let (width, height, pixels) = to_rgba8(&img);
                let ghost decoded = pixels@;
                let r = Texture::from_image(width, height, pixels, max_dimension);
                assert(Texture::accepts(r, width, height, decoded, max_dimension));
                r
            },
            Err(error) => Err(LoadError::Decode(describe(&error))),
        }
    }

    /// The source image of the given size and pixels, for a device whose
    /// images are at most `max_dimension` wide and high.
    pub fn from_image(width: u32, height: u32, pixels: Vec<u8>, max_dimension: u32) -> (r: Result<
        Texture,
        LoadError,
    >)
        ensures
            Texture::accepts(r, width, height, pixels@, max_dimension),
    {
        if width == 0 || height == 0 {
            return Err(LoadError::ZeroSized);
        }
        if width > max_dimension || height > max_dimension || width > u32::MAX / BYTES_PER_PIXEL {
            return Err(LoadError::TooLarge);
        }
        let bytes_per_row: u32 = BYTES_PER_PIXEL * width;
        assert(bytes_per_row as u64 * height as u64 <= 0xffff_ffff * 0xffff_ffff)
            by (nonlinear_arith)
            requires
                bytes_per_row <= 0xffff_ffff,
                height <= 0xffff_ffff,
        ;
        let expected: u64 = bytes_per_row as u64 * height as u64;
        assert(expected == BYTES_PER_PIXEL * width * height);
        if pixels.len() as u64 != expected {
            return Err(LoadError::Malformed);
        }
        Ok(Texture { width, height, pixels, bytes_per_row, rows_per_image: height })
    }

    /// Width and height of the image.
    pub fn size(&self) -> (s: (u32, u32))
        ensures
            s == (self.width, self.height),
    {
        (self.width, self.height)
    }
}

} // verus!
