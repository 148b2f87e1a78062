//! The checks made on an image's header before control is handed to it.
//!
//! The header fields read are those of the image header of the security
//! reference manual: the image length at byte offset 0x20 and the offset of
//! the certificate header at byte offset 0x28, both little-endian words.
use vstd::prelude::*;

verus! {

/// Byte offset of the image length in the image header.
pub const IMAGE_LEN_OFFSET: usize = 0x20;

/// Byte offset of the certificate header offset in the image header.
pub const CERT_OFFSET_OFFSET: usize = 0x28;

/// Number of bytes of the image that the checks read.
pub const IMAGE_HEADER_BYTES: usize = 0x2C;

/// Smallest acceptable image length: that of a vector table.
pub const MIN_IMAGE_LEN: u32 = 0x40;

/// The header fields that the checks read.
#[derive(Clone, Copy, Debug, PartialEq, Eq, Structural)]
pub struct ImageHeader {
    pub image_len: u32,
    pub cert_off: u32,
}

/// The little-endian word at byte offset `off` of `bytes`.
pub open spec fn le_u32_at(bytes: Seq<u8>, off: int) -> u32 {
    (bytes[off] as int + bytes[off + 1] as int * 0x100 + bytes[off + 2] as int * 0x1_0000
        + bytes[off + 3] as int * 0x100_0000) as u32
}

/// The header fields held by the start of an image.
pub open spec fn header_of(image: Seq<u8>) -> ImageHeader {
    ImageHeader {
        image_len: le_u32_at(image, IMAGE_LEN_OFFSET as int),
        cert_off: le_u32_at(image, CERT_OFFSET_OFFSET as int),
    }
}

/// An image may be started only if it is at least a vector table long and
/// its certificate header offset is word-aligned and lies inside the image.
pub open spec fn header_is_valid(header: ImageHeader) -> bool {
    &&& header.image_len >= MIN_IMAGE_LEN
    &&& header.cert_off % 4 == 0
    &&& header.cert_off < header.image_len
}

fn read_u32_le(bytes: &[u8], off: usize) -> (ret: u32)
    requires
        off + 4 <= bytes@.len(),
    ensures
        ret == le_u32_at(bytes@, off as int),
{
    (bytes[off] as u32) + (bytes[off + 1] as u32) * 0x100 + (bytes[off + 2] as u32) * 0x1_0000 + (
    bytes[off + 3] as u32) * 0x100_0000
}

impl ImageHeader {
    /// The header fields held by the start of `image`.
    pub fn read(image: &[u8]) -> (ret: ImageHeader)
        requires
            image@.len() >= IMAGE_HEADER_BYTES,
        ensures
            ret == header_of(image@),
    {
        ImageHeader {
            image_len: read_u32_le(image, IMAGE_LEN_OFFSET),
            cert_off: read_u32_le(image, CERT_OFFSET_OFFSET),
        }
    }

    /// Whether an image with this header may be started.
    pub fn is_valid(&self) -> (ret: bool)
        ensures
            ret == header_is_valid(*self),
    {
        let cert_off = self.cert_off;
        assert((cert_off & 0x3) == 0 <==> cert_off % 4 == 0) by (bit_vector);
        self.image_len >= MIN_IMAGE_LEN && (cert_off & 0x3) == 0 && cert_off < self.image_len
    }
}

/// The guard run before handing control to an image: reads the header at the
/// start of `image` and returns it as `Ok` when the image may be started,
/// and as `Err` (for the report) when it may not, in which case the caller
/// halts rather than jump to a possibly corrupt image.
pub fn check_image_header(image: &[u8]) -> (ret: Result<ImageHeader, ImageHeader>)
    requires
        image@.len() >= IMAGE_HEADER_BYTES,
    ensures
        ret is Ok <==> header_is_valid(header_of(image@)),
        ret is Ok <==> ({
            let image_len = image@[0x20] as int + image@[0x21] as int * 0x100 + image@[0x22] as int
                * 0x1_0000 + image@[0x23] as int * 0x100_0000;
            let cert_off = image@[0x28] as int + image@[0x29] as int * 0x100 + image@[0x2A] as int
                * 0x1_0000 + image@[0x2B] as int * 0x100_0000;
            image_len >= 0x40 && cert_off % 4 == 0 && cert_off < image_len
        }),
        match ret {
            Ok(header) => header == header_of(image@),
            Err(header) => header == header_of(image@),
        },
{
    let header = ImageHeader::read(image);
    if header.is_valid() {
        Ok(header)
    } else {
        Err(header)
    }
}

/// The header check over the raw words: an image is started exactly when its
/// length word (little-endian at 0x20) is at least 0x40, its certificate
/// offset word (little-endian at 0x28) is a multiple of four, and that offset
/// is below the length. No other condition, such as an upper bound on the
/// length, refuses an image.
pub proof fn lemma_header_check_over_raw_words(image: Seq<u8>)
    requires
        image.len() >= 0x2C,
    ensures
        ({
            let image_len = image[0x20] as int + image[0x21] as int * 0x100 + image[0x22] as int
                * 0x1_0000 + image[0x23] as int * 0x100_0000;
            let cert_off = image[0x28] as int + image[0x29] as int * 0x100 + image[0x2A] as int
                * 0x1_0000 + image[0x2B] as int * 0x100_0000;
            &&& header_of(image).image_len == image_len
            &&& header_of(image).cert_off == cert_off
            &&& header_is_valid(header_of(image)) <==> (image_len >= 0x40 && cert_off % 4 == 0
                && cert_off < image_len)
        }),
{
}

/// Validity of a header, over its two fields: at least 0x40 bytes long,
/// certificate offset word-aligned and inside the image, with no bound on
/// the length.
pub proof fn lemma_header_validity(image_len: u32, cert_off: u32)
    ensures
        header_is_valid(ImageHeader { image_len, cert_off }) <==> (image_len >= 0x40 && cert_off
            % 4 == 0 && cert_off < image_len),
        cert_off % 4 == 0 && cert_off < image_len ==> header_is_valid(
            ImageHeader { image_len: 0xFFFF_FFFF, cert_off },
        ),
{
}

} // verus!
