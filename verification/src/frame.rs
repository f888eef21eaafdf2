//! The frame pipeline: one encoded image per tick, decoded into a raster
//! that can be shown.

use image::codecs::jpeg::JpegDecoder;
use image::DynamicImage;
use image::ImageDecoder;
use image::ImageError;
use vstd::prelude::*;

verus! {

/// The error type of the `image` crate. Nothing is known of a value of it.
#[verifier::external_type_specification]
#[verifier::external_body]
pub struct ExImageError(ImageError);

/// Why a tick has no new frame.
#[derive(Clone, Copy, Debug, PartialEq, Eq, Structural)]
pub enum FrameError {
    /// The stream delivered no image.
    StreamRead,
    /// The image could not be decoded into a raster.
    Codec,
}

/// A decoded image: `height` rows of `width` pixels, four bytes per pixel in
/// the order red, green, blue, alpha, with alpha not premultiplied.
#[derive(Debug, PartialEq, Eq)]
pub struct Raster {
    pub width: u32,
    pub height: u32,
    pub rgba: Vec<u8>,
}

/// The number of bytes that `width` times `height` pixels take.
pub open spec fn raster_bytes(width: u32, height: u32) -> int {
    4 * ((width as int) * (height as int))
}

impl Raster {
    /// The pixel bytes are exactly those of `width` times `height` pixels.
    pub open spec fn wf(&self) -> bool {
        self.rgba@.len() == raster_bytes(self.width, self.height)
    }
}

/// One frame of a tick: the encoded image as the stream delivered it, and
/// its raster.
#[derive(Debug, PartialEq, Eq)]
pub struct Frame<'a> {
    pub jpg: &'a [u8],
    pub rgb: Raster,
}

/// The code of the marker that opens the header of a lossless frame with
/// Huffman coding.
pub const LOSSLESS_FRAME: u8 = 0xC3;

/// The longest side, in pixels, of an image that is handed to the decoder.
pub const MAX_SIDE: u32 = 65528;

/// Whether `code` is the code of a marker that opens a frame header.
pub open spec fn frame_code(code: u8) -> bool {
    0xC0 <= code <= 0xCF && code != 0xC4 && code != 0xC8 && code != 0xCC
}

/// Whether `code` is the code of a marker whose segment may stand before the
/// frame header and is passed over by its declared length: a quantisation or
/// Huffman table, a restart interval, a comment, or application data.
pub open spec fn passed_code(code: u8) -> bool {
    code == 0xDB || code == 0xC4 || code == 0xDD || code == 0xFE || 0xE0 <= code <= 0xEF
}

/// Where the code of the next marker stands, looking from index `from` on: a
/// marker is a byte `0xFF` followed by a code that is neither `0x00` nor
/// `0xFF`; bytes before it are passed over.
pub open spec fn marker_from(bytes: Seq<u8>, from: int) -> Option<int>
    decreases bytes.len() - from,
{
    if from < 0 || from + 1 >= bytes.len() {
        None
    } else if bytes[from] == 0xFF && bytes[from + 1] != 0xFF && bytes[from + 1] != 0x00 {
        Some(from + 1)
    } else {
        marker_from(bytes, from + 1)
    }
}

/// The length that the segment of the marker code at `at` declares: the two
/// bytes after the code, high byte first. It counts those two bytes.
pub open spec fn declared_length(bytes: Seq<u8>, at: int) -> int {
    bytes[at + 1] as int * 256 + bytes[at + 2] as int
}

/// The code of the first frame header that a walk over the marker segments
/// reaches, starting at index `from`. The walk passes tables, restart
/// intervals, comments and application data by their declared lengths. It
/// ends without a frame header at any other marker, at a segment that is cut
/// short or declares less than its own two length bytes, and at the end of
/// the bytes.
pub open spec fn frame_code_from(bytes: Seq<u8>, from: int) -> Option<u8>
    decreases bytes.len() - from,
{
    match marker_from(bytes, from) {
        None => None,
        Some(at) => {
            let code = bytes[at];
            if frame_code(code) {
                Some(code)
            } else if passed_code(code) && from <= at && at + 2 < bytes.len() && 2
                <= declared_length(bytes, at) && at + declared_length(bytes, at) < bytes.len() {
                frame_code_from(bytes, at + 1 + declared_length(bytes, at))
            } else {
                None
            }
        },
    }
}

/// The code of the first frame header of a JPEG image: the bytes begin with
/// the start-of-image marker, and a walk over the segments after it reaches
/// a frame header.
pub open spec fn first_frame_code(bytes: Seq<u8>) -> Option<u8> {
    if bytes.len() >= 2 && bytes[0] == 0xFF && bytes[1] == 0xD8 {
        frame_code_from(bytes, 2)
    } else {
        None
    }
}

/// The frame size that the header of a JPEG image declares, as
/// `JpegDecoder::new` of the `image` crate reads it: width, then height;
/// `None` where that call refuses the bytes.
pub uninterp spec fn jpeg_frame_size(bytes: Seq<u8>) -> Option<(u32, u32)>;

/// Whether bytes are handed to the decoder: their first frame header is not
/// that of a lossless frame, and the frame size that the header declares has
/// no side above [`MAX_SIDE`].
pub open spec fn admitted(bytes: Seq<u8>) -> bool {
    &&& first_frame_code(bytes) != Some(LOSSLESS_FRAME)
    &&& jpeg_frame_size(bytes) matches Some(size) && size.0 <= MAX_SIDE && size.1 <= MAX_SIDE
}

/// Calls `JpegDecoder::new` of the `image` crate on a byte slice and, where
/// that succeeds, `dimensions` on the decoder. The call reads the marker
/// segments up to the first frame header and nothing else, so what it returns
/// depends on the bytes alone; the contract gives that result its name.
#[verifier::external_body]
fn jpeg_size(jpg: &[u8]) -> (size: Option<(u32, u32)>)
    ensures
        size == jpeg_frame_size(jpg@),
{
    match JpegDecoder::new(jpg) {
        Ok(decoder) => Some(decoder.dimensions()),
        Err(_) => None,
    }
}

/// Calls `JpegDecoder::new`, `DynamicImage::from_decoder` and
/// `DynamicImage::to_rgba8` of the `image` crate in turn and takes the result
/// apart into width, height and pixel bytes. Nothing is claimed of them.
///
/// The decoder behind these calls can panic in two cases, which the
/// condition leaves out. It can panic while it decodes a lossless frame: it
/// decodes the frame whose header it reaches first, by the walk that
/// [`first_frame_code`] states, and only the code [`LOSSLESS_FRAME`] leads it
/// to lossless decoding. And it counts the rows and columns of blocks in
/// sixteen bits, eight pixels to a block, which overflows for a side above
/// [`MAX_SIDE`].
#[verifier::external_body]
fn decode_rgba8(jpg: &[u8]) -> Result<(u32, u32, Vec<u8>), ImageError>
    requires
        admitted(jpg@),
{
    let decoder = JpegDecoder::new(jpg)?;
    let buffer = DynamicImage::from_decoder(decoder)?.to_rgba8();
    Ok((buffer.width(), buffer.height(), buffer.into_raw()))
}

/// Looks for the next marker from index `from` on and gives the index of its
/// code.
fn marker_after(jpg: &[u8], from: usize) -> (found: Option<usize>)
    ensures
        found matches Some(at) ==> marker_from(jpg@, from as int) == Some(at as int) && from < at
            < jpg@.len(),
        found is None ==> marker_from(jpg@, from as int) is None,
{
    if jpg.len() < 2 {
        return None;
    }
    let last: usize = jpg.len() - 1;
    let mut i: usize = from;
    while i < last
        invariant
            last == jpg@.len() - 1,
            from <= i,
            marker_from(jpg@, from as int) == marker_from(jpg@, i as int),
        decreases last - i,
    {
        if jpg[i] == 0xFF && jpg[i + 1] != 0xFF && jpg[i + 1] != 0x00 {
            return Some(i + 1);
        }
        i += 1;
    }
    None
}

/// Walks the marker segments of a JPEG image to its first frame header and
/// gives the code of the marker that opens it.
pub fn frame_code_of(jpg: &[u8]) -> (code: Option<u8>)
    ensures
        code == first_frame_code(jpg@),
{
    if jpg.len() < 2 || jpg[0] != 0xFF || jpg[1] != 0xD8 {
        return None;
    }
    let mut from: usize = 2;
    loop
        invariant
            2 <= from <= jpg@.len(),
            first_frame_code(jpg@) == frame_code_from(jpg@, from as int),
        decreases jpg@.len() - from,
    {
        let at = match marker_after(jpg, from) {
            Some(at) => at,
            None => return None,
        };
        let code: u8 = jpg[at];
        if 0xC0 <= code && code <= 0xCF && code != 0xC4 && code != 0xC8 && code != 0xCC {
            return Some(code);
        }
        let passed = code == 0xDB || code == 0xC4 || code == 0xDD || code == 0xFE || (0xE0 <= code
            && code <= 0xEF);
        if !passed || jpg.len() - at <= 2 {
            return None;
        }
        let declared: usize = jpg[at + 1] as usize * 256 + jpg[at + 2] as usize;
        if declared < 2 || declared >= jpg.len() - at {
            return None;
        }
        from = at + 1 + declared;
    }
}

/// Makes a raster of what a decoder delivered, if the bytes are those of
/// `width` times `height` pixels of four bytes.
pub fn raster_from_rgba(width: u32, height: u32, rgba: Vec<u8>) -> (r: Result<Raster, FrameError>)
    ensures
        rgba@.len() == raster_bytes(width, height) <==> r is Ok,
        r matches Ok(raster) ==> raster.width == width && raster.height == height && raster.rgba
            == rgba && raster.wf(),
        r matches Err(e) ==> e == FrameError::Codec,
{
    assert((width as int) * (height as int) <= 0xffff_ffff * 0xffff_ffff) by (nonlinear_arith)
        requires
            0 <= width <= 0xffff_ffff,
            0 <= height <= 0xffff_ffff,
    ;
    assert(0 <= (width as int) * (height as int)) by (nonlinear_arith)
        requires
            0 <= width,
            0 <= height,
    ;
    let pixels: u128 = (width as u128) * (height as u128);
    let wanted: u128 = 4 * pixels;
    if rgba.len() as u128 == wanted {
        Ok(Raster { width, height, rgba })
    } else {
        Err(FrameError::Codec)
    }
}

/// Reads the frame size that the header of a JPEG image declares: width,
/// then height; `None` where the decoder refuses the bytes.
pub fn frame_size(jpg: &[u8]) -> (size: Option<(u32, u32)>)
    ensures
        size == jpeg_frame_size(jpg@),
{
    jpeg_size(jpg)
}

/// What a decoding amounts to, given the frame size that the header declares
/// and the width, height and pixel bytes that the decoder delivered, each
/// `None` where the decoder refused: a raster, where the delivered size is the
/// declared one and the bytes are those of that many pixels.
pub open spec fn decoding_result(
    size: Option<(u32, u32)>,
    decoded: Option<(u32, u32, Vec<u8>)>,
) -> Result<Raster, FrameError> {
    match (size, decoded) {
        (Some((width, height)), Some((w, h, rgba))) => if w == width && h == height
            && rgba@.len() == raster_bytes(width, height) {
            Ok(Raster { width, height, rgba })
        } else {
            Err(FrameError::Codec)
        },
        _ => Err(FrameError::Codec),
    }
}

/// Makes the raster of a decoding from the frame size that the header
/// declares and from what the decoder delivered.
pub fn raster_of_decoding(size: Option<(u32, u32)>, decoded: Option<(u32, u32, Vec<u8>)>) -> (r:
    Result<Raster, FrameError>)
    ensures
        r == decoding_result(size, decoded),
{
    match (size, decoded) {
        (Some((width, height)), Some((w, h, rgba))) => {
            if w == width && h == height {
                raster_from_rgba(width, height, rgba)
            } else {
                Err(FrameError::Codec)
            }
        },
        _ => Err(FrameError::Codec),
    }
}

/// Decodes a JPEG image into a raster.
///
/// Bytes that are not [`admitted`] are refused without being decoded: those
/// whose first frame header is that of a lossless frame, those whose header
/// the decoder does not accept, and those that declare a side above
/// [`MAX_SIDE`]. Whether the image behind an admitted header decodes is the
/// decoder's decision. A raster that is returned has the size that the header
/// declares and four bytes for each pixel.
pub fn decode(jpg_img: &[u8]) -> (r: Result<Raster, FrameError>)
    ensures
        !admitted(jpg_img@) ==> r is Err,
        r matches Ok(raster) ==> jpeg_frame_size(jpg_img@) == Some((raster.width, raster.height))
            && raster.wf(),
        r matches Err(e) ==> e == FrameError::Codec,
{
    match frame_code_of(jpg_img) {
        Some(code) => {
            if code == LOSSLESS_FRAME {
                return Err(FrameError::Codec);
            }
        },
        None => {},
    }
    let size = frame_size(jpg_img);
    match size {
        Some((width, height)) => {
            if width > MAX_SIDE || height > MAX_SIDE {
                return Err(FrameError::Codec);
            }
        },
        None => {
            return Err(FrameError::Codec);
        },
    }
    let decoded = match decode_rgba8(jpg_img) {
        Ok(parts) => Some(parts),
        Err(_) => None,
    };
    raster_of_decoding(size, decoded)
}

/// Makes the frame of a tick from what the stream delivered: nothing gives a
/// stream-read error, an image is decoded.
pub fn next_frame<'a>(fetched: Option<&'a [u8]>) -> (r: Result<Frame<'a>, FrameError>)
    ensures
        fetched is None ==> r == Err::<Frame<'a>, FrameError>(FrameError::StreamRead),
        fetched matches Some(jpg) ==> {
            &&& !admitted(jpg@) ==> r is Err
            &&& r matches Ok(frame) ==> {
                &&& frame.jpg == jpg
                &&& jpeg_frame_size(jpg@) == Some((frame.rgb.width, frame.rgb.height))
                &&& frame.rgb.wf()
            }
            &&& r matches Err(e) ==> e == FrameError::Codec
        },
{
    match fetched {
        None => Err(FrameError::StreamRead),
        Some(jpg) => match decode(jpg) {
            Ok(rgb) => Ok(Frame { jpg, rgb }),
            Err(e) => Err(e),
        },
    }
}

/// What the preview holds between ticks: the last raster that decoded, and
/// the status line.
pub struct Preview {
    pub raster: Option<Raster>,
    pub message: String,
}

/// The status line for a tick without a new frame.
pub open spec fn frame_error_text(e: FrameError) -> Seq<char> {
    match e {
        FrameError::StreamRead => "Failed to fetch frame"@,
        FrameError::Codec => "Failed to decode jpg buffer"@,
    }
}

/// Executable form of [`frame_error_text`].
pub fn frame_error_message(e: FrameError) -> (s: String)
    ensures
        s@ == frame_error_text(e),
{
    match e {
        FrameError::StreamRead => "Failed to fetch frame".to_string(),
        FrameError::Codec => "Failed to decode jpg buffer".to_string(),
    }
}

impl Preview {
    /// A preview that has shown nothing yet.
    pub fn new() -> (p: Preview)
        ensures
            p.raster is None,
            p.message@.len() == 0,
    {
        Preview { raster: None, message: String::new() }
    }

    /// Takes the outcome of a tick's frame. A new raster replaces the one
    /// shown and leaves the status line alone; a failure leaves the raster
    /// that is shown in place and puts its text on the status line.
    pub fn show(&mut self, frame: Result<Raster, FrameError>)
        ensures
            frame matches Ok(raster) ==> {
                &&& final(self).raster == Some(raster)
                &&& final(self).message == old(self).message
            },
            frame matches Err(e) ==> {
                &&& final(self).raster == old(self).raster
                &&& final(self).message@ == frame_error_text(e)
            },
    {
        match frame {
            Ok(raster) => {
                self.raster = Some(raster);
            },
            Err(e) => {
                self.message = frame_error_message(e);
            },
        }
    }
}

} // verus!
