//! Reading the depth and colour images of a frame out of the archive.

use vstd::prelude::*;
use std::io::Cursor;
use byteorder::{BigEndian, ReadBytesExt};
use png::HasParameters;
use crate::archive::{buffer_of, get_buffer, EntriesMap, FileEntry};
use crate::chunks::{check_plain, is_colour_png, is_depth_png};
use crate::display::{GrayImage, GrayImageView};
use crate::error::SessionError;

verus! {

/// One row of the association table: the depth and colour images of a frame
/// and their timestamps (bit patterns of double precision numbers).
pub struct Association {
    pub depth_timestamp: u64,
    pub depth_file_path: String,
    pub color_timestamp: u64,
    pub color_file_path: String,
}

/// The mathematical content of an [`Association`].
pub ghost struct AssociationView {
    pub depth_timestamp: u64,
    pub depth_file_path: Seq<char>,
    pub color_timestamp: u64,
    pub color_file_path: Seq<char>,
}

impl View for Association {
    type V = AssociationView;

    open spec fn view(&self) -> AssociationView {
        AssociationView {
            depth_timestamp: self.depth_timestamp,
            depth_file_path: self.depth_file_path@,
            color_timestamp: self.color_timestamp,
            color_file_path: self.color_file_path@,
        }
    }
}

/// A depth map, one 16-bit sample per pixel, row by row.
pub struct DepthMap {
    pub width: usize,
    pub height: usize,
    pub data: Vec<u16>,
}

/// The mathematical content of a [`DepthMap`].
pub ghost struct DepthMapView {
    pub width: nat,
    pub height: nat,
    pub data: Seq<u16>,
}

impl View for DepthMap {
    type V = DepthMapView;

    open spec fn view(&self) -> DepthMapView {
        DepthMapView { width: self.width as nat, height: self.height as nat, data: self.data@ }
    }
}

/// What the `png` crate decodes from a PNG file when no transformation is
/// asked for: width, height and the bytes of the first frame as the file
/// stores its samples; `None` where the file cannot be decoded.
pub uninterp spec fn png_frame(input: Seq<u8>) -> Option<(u32, u32, Seq<u8>)>;

/// Decodes the first frame of a PNG file with `png::Decoder`: `read_info`
/// under `Transformations::IDENTITY`, then `Reader::next_frame` into a buffer
/// of `OutputInfo::buffer_size()` bytes.
///
/// Trusted: on a plain file with one 16-bit sample per pixel the call
/// returns, and the result is what [`png_frame`] names, `None` where the
/// crate reports an error. Other files are not handed to the decoder: it
/// misplaces the rows of interlaced 16-bit images, and a later header would
/// change the image while it is read.
#[verifier::external_body]
fn decode_png_frame(input: &[u8]) -> (frame: Option<(u32, u32, Vec<u8>)>)
    requires
        is_depth_png(input@),
    ensures
        match frame {
            Some((width, height, data)) => png_frame(input@) == Some((width, height, data@)),
            None => png_frame(input@) is None,
        },
{
    let mut decoder = png::Decoder::new(input);
    decoder.set(png::Transformations::IDENTITY);
    let (info, mut reader) = decoder.read_info().ok()?;
    let mut buffer = vec![0; info.buffer_size()];
    reader.next_frame(&mut buffer).ok()?;
    Some((info.width, info.height, buffer))
}

/// What the `image` crate makes of a PNG file: width, height and the pixels
/// of its conversion to 8-bit grayscale; `None` where the file cannot be
/// loaded.
pub uninterp spec fn png_luma(input: Seq<u8>) -> Option<(u32, u32, Seq<u8>)>;

/// Loads a PNG file with `image::load` and converts it to grayscale with
/// `DynamicImage::to_luma`.
///
/// Trusted: on a plain file with 8-bit samples the call returns, and the
/// result is what [`png_luma`] names, `None` where the crate reports an
/// error. Other files are not handed to the decoder: it expects a palette
/// wherever the header announces one, and reads interlaced and transparent
/// images through paths that this library does not rely on.
#[verifier::external_body]
fn decode_png_luma(input: &[u8]) -> (luma: Option<(u32, u32, Vec<u8>)>)
    requires
        is_colour_png(input@),
    ensures
        match luma {
            Some((width, height, data)) => png_luma(input@) == Some((width, height, data@)),
            None => png_luma(input@) is None,
        },
{
    let img = image::load(Cursor::new(input), image::ImageFormat::PNG).ok()?;
    let luma = img.to_luma();
    let (width, height) = luma.dimensions();
    Some((width, height, luma.into_raw()))
}

/// The `i`-th big-endian 16-bit word of `src`.
pub open spec fn be_word(src: Seq<u8>, i: int) -> u16 {
    (256 * src[2 * i] + src[2 * i + 1]) as u16
}

/// Reads `n` big-endian 16-bit words from the start of `src` with
/// `byteorder::ReadBytesExt::read_u16_into::<BigEndian>` on a cursor.
///
/// Trusted: with at least `2 * n` bytes to read the call succeeds, and word
/// `i` of the result is made of bytes `2i` (high) and `2i + 1` (low).
#[verifier::external_body]
fn read_be_u16(src: &[u8], n: usize) -> (words: Vec<u16>)
    requires
        2 * n <= src@.len(),
    ensures
        words@.len() == n,
        forall|i: int| 0 <= i < n ==> #[trigger] words@[i] == be_word(src@, i),
{
    let mut words = vec![0u16; n];
    let _ = Cursor::new(src).read_u16_into::<BigEndian>(&mut words);
    words
}

/// The depth map that a decoded frame holds: its first `width * height`
/// big-endian words. There is none where the frame could not be decoded or
/// holds fewer bytes than that.
pub open spec fn depth_of(frame: Option<(u32, u32, Seq<u8>)>) -> Option<DepthMapView> {
    match frame {
        Some((width, height, data)) => if 2 * (width * height) <= data.len() {
            Some(
                DepthMapView {
                    width: width as nat,
                    height: height as nat,
                    data: Seq::new((width * height) as nat, |i: int| be_word(data, i)),
                },
            )
        } else {
            None
        },
        None => None,
    }
}

/// Makes a depth map of a decoded frame.
pub fn depth_from_frame(frame: Option<(u32, u32, Vec<u8>)>) -> (result: Result<DepthMap, SessionError>)
    ensures
        match depth_of(
            match frame {
                Some((width, height, data)) => Some((width, height, data@)),
                None => None,
            },
        ) {
            Some(depth) => result is Ok && result->Ok_0@ == depth,
            None => result == Err::<DepthMap, SessionError>(SessionError::ImageDecodeFailure),
        },
{
    match frame {
        Some((width, height, data)) => {
            assert(width * height <= 0xffff_ffff * 0xffff_ffff) by (nonlinear_arith)
                requires
                    0 <= width <= 0xffff_ffff,
                    0 <= height <= 0xffff_ffff,
            ;
            let count: u64 = (width as u64) * (height as u64);
            let available: u64 = (data.len() / 2) as u64;
            if count <= available {
                let n = count as usize;
                let words = read_be_u16(data.as_slice(), n);
                assert(words@ =~= Seq::new((width * height) as nat, |i: int| be_word(data@, i)));
                Ok(DepthMap { width: width as usize, height: height as usize, data: words })
            } else {
                Err(SessionError::ImageDecodeFailure)
            }
        },
        None => Err(SessionError::ImageDecodeFailure),
    }
}

/// The depth map of a file: what a plain PNG file with one 16-bit sample per
/// pixel decodes to. There is none for any other file.
pub open spec fn depth_of_file(buffer: Seq<u8>) -> Option<DepthMapView> {
    if is_depth_png(buffer) {
        depth_of(png_frame(buffer))
    } else {
        None
    }
}

/// Decodes a 16-bit depth image from the bytes of a PNG file. Files that
/// are not plain 16-bit grayscale are refused before they are decoded.
pub fn read_png_16bits_buf(buffer: &[u8]) -> (result: Result<DepthMap, SessionError>)
    ensures
        match depth_of_file(buffer@) {
            Some(depth) => result is Ok && result->Ok_0@ == depth,
            None => result == Err::<DepthMap, SessionError>(SessionError::ImageDecodeFailure),
        },
{
    if !check_plain(buffer, 2, true) {
        return Err(SessionError::ImageDecodeFailure);
    }
    depth_from_frame(decode_png_frame(buffer))
}

/// The gray image that a grayscale conversion holds. There is none where the
/// file could not be loaded or the number of pixels is not `width * height`.
pub open spec fn gray_of(luma: Option<(u32, u32, Seq<u8>)>) -> Option<GrayImageView> {
    match luma {
        Some((width, height, data)) => if data.len() == width * height {
            Some(GrayImageView { width: width as nat, height: height as nat, pixels: data })
        } else {
            None
        },
        None => None,
    }
}

/// Makes a gray image of a grayscale conversion.
pub fn gray_from_luma(luma: Option<(u32, u32, Vec<u8>)>) -> (result: Result<GrayImage, SessionError>)
    ensures
        match gray_of(
            match luma {
                Some((width, height, data)) => Some((width, height, data@)),
                None => None,
            },
        ) {
            Some(gray) => result is Ok && result->Ok_0@ == gray,
            None => result == Err::<GrayImage, SessionError>(SessionError::ImageDecodeFailure),
        },
{
    match luma {
        Some((width, height, data)) => {
            assert(width * height <= 0xffff_ffff * 0xffff_ffff) by (nonlinear_arith)
                requires
                    0 <= width <= 0xffff_ffff,
                    0 <= height <= 0xffff_ffff,
            ;
            let count: u64 = (width as u64) * (height as u64);
            if data.len() as u64 == count {
                Ok(GrayImage { width: width as usize, height: height as usize, pixels: data })
            } else {
                Err(SessionError::ImageDecodeFailure)
            }
        },
        None => Err(SessionError::ImageDecodeFailure),
    }
}

/// The gray image of a file: what a plain PNG file with 8-bit samples
/// converts to. There is none for any other file.
pub open spec fn gray_of_file(buffer: Seq<u8>) -> Option<GrayImageView> {
    if is_colour_png(buffer) {
        gray_of(png_luma(buffer))
    } else {
        None
    }
}

/// Decodes a colour image from the bytes of a PNG file and converts it to
/// grayscale. Files that are not plain 8-bit images are refused before they
/// are decoded.
pub fn read_png_luma_buf(buffer: &[u8]) -> (result: Result<GrayImage, SessionError>)
    ensures
        match gray_of_file(buffer@) {
            Some(gray) => result is Ok && result->Ok_0@ == gray,
            None => result == Err::<GrayImage, SessionError>(SessionError::ImageDecodeFailure),
        },
{
    if !check_plain(buffer, 1, false) {
        return Err(SessionError::ImageDecodeFailure);
    }
    gray_from_luma(decode_png_luma(buffer))
}

/// The depth map and gray image of a frame, or the first failure met on the
/// way: the depth file is looked up and decoded first, then the colour file.
pub open spec fn image_pair_of(
    assoc: AssociationView,
    file: Seq<u8>,
    entries: Map<Seq<char>, FileEntry>,
) -> Result<(DepthMapView, GrayImageView), SessionError> {
    match buffer_of(assoc.depth_file_path, file, entries) {
        None => Err(SessionError::ArchiveEntryMissing),
        Some(depth_buffer) => match depth_of_file(depth_buffer) {
            None => Err(SessionError::ImageDecodeFailure),
            Some(depth) => match buffer_of(assoc.color_file_path, file, entries) {
                None => Err(SessionError::ArchiveEntryMissing),
                Some(color_buffer) => match gray_of_file(color_buffer) {
                    None => Err(SessionError::ImageDecodeFailure),
                    Some(gray) => Ok((depth, gray)),
                },
            },
        },
    }
}

/// Reads the depth and colour images that an association names.
pub fn read_image_pair(assoc: &Association, file: &[u8], entries: &EntriesMap) -> (result: Result<
    (DepthMap, GrayImage),
    SessionError,
>)
    requires
        entries.wf(),
    ensures
        match image_pair_of(assoc@, file@, entries@) {
            Ok((depth, gray)) => result is Ok && result->Ok_0.0@ == depth && result->Ok_0.1@ == gray,
            Err(error) => result is Err && result->Err_0 == error,
        },
{
    let depth_buffer = match get_buffer(assoc.depth_file_path.as_str(), file, entries) {
        Ok(buffer) => buffer,
        Err(error) => return Err(error),
    };
    let depth = match read_png_16bits_buf(depth_buffer) {
        Ok(depth) => depth,
        Err(error) => return Err(error),
    };
    let color_buffer = match get_buffer(assoc.color_file_path.as_str(), file, entries) {
        Ok(buffer) => buffer,
        Err(error) => return Err(error),
    };
    let gray = match read_png_luma_buf(color_buffer) {
        Ok(gray) => gray,
        Err(error) => return Err(error),
    };
    Ok((depth, gray))
}

} // verus!
