//! Cutting the selected rectangle out of the full capture.
//!
//! The full capture and the crop are PNG files. The host reads and writes the
//! files; this module turns the bytes of the one into the bytes of the other,
//! and says when nothing is to be written.

use crate::text::{decimal, format_u64};
use image::GenericImage;
use vstd::prelude::*;
use vstd::string::StringExecFns;

verus! {

/// The name of the crop file in the cache directory.
pub const CROP_FILE: &'static str = "cut.png";

/// What `image` decodes from the bytes of a PNG file: width, height and the
/// pixels as RGBA bytes, row by row; or the text of its error.
pub uninterp spec fn png_decoded(bytes: Seq<u8>) -> Result<(u32, u32, Seq<u8>), Seq<char>>;

/// The bytes of the PNG file that `image` encodes from RGBA pixels, or the
/// text of its error.
pub uninterp spec fn png_encoded(width: u32, height: u32, pixels: Seq<u8>) -> Result<
    Seq<u8>,
    Seq<char>,
>;

/// The RGBA bytes of the rectangle of `width` by `height` pixels whose top
/// left corner is at (`left`, `top`) in an image `source_width` pixels wide.
pub open spec fn cropped_pixels(
    pixels: Seq<u8>,
    source_width: u32,
    left: u32,
    top: u32,
    width: u32,
    height: u32,
) -> Seq<u8> {
    Seq::new(
        (4 * width * height) as nat,
        |i: int|
            pixels[4 * ((top + (i / 4) / (width as int)) * source_width + left + (i / 4) % (
            width as int)) + i % 4],
    )
}

/// The rectangle lies inside an image of the given size.
pub open spec fn within_bounds(
    source_width: u32,
    source_height: u32,
    left: u32,
    top: u32,
    width: u32,
    height: u32,
) -> bool {
    left + width <= source_width && top + height <= source_height
}

/// An image as RGBA bytes, four for each pixel, row by row.
#[derive(Debug)]
pub struct Raster {
    width: u32,
    height: u32,
    pixels: Vec<u8>,
}

impl Raster {
    #[verifier::type_invariant]
    spec fn four_bytes_per_pixel(&self) -> bool {
        self.pixels@.len() == 4 * self.width * self.height
    }

    pub closed spec fn spec_width(&self) -> u32 {
        self.width
    }

    pub closed spec fn spec_height(&self) -> u32 {
        self.height
    }

    pub closed spec fn spec_pixels(&self) -> Seq<u8> {
        self.pixels@
    }

    /// The image of the given size and bytes, where there are four bytes for
    /// each pixel.
    pub fn new(width: u32, height: u32, pixels: Vec<u8>) -> (res: Option<Raster>)
        ensures
            res is Some <==> pixels@.len() == 4 * width * height,
            res matches Some(r) ==> r.spec_width() == width && r.spec_height() == height
                && r.spec_pixels() == pixels@,
    {
        assert(width as u128 * height as u128 <= 0xffff_ffffu128 * 0xffff_ffffu128)
            by (nonlinear_arith)
            requires
                width <= 0xffff_ffffu32,
                height <= 0xffff_ffffu32,
        ;
        let needed: u128 = 4 * (width as u128 * height as u128);
        assert(needed == 4 * width * height) by (nonlinear_arith)
            requires
                needed == 4 * (width as int * height as int),
        ;
        if pixels.len() as u128 == needed {
            Some(Raster { width, height, pixels })
        } else {
            None
        }
    }

    #[verifier::when_used_as_spec(spec_width)]
    pub fn width(&self) -> (res: u32)
        ensures
            res == self.spec_width(),
    {
        self.width
    }

    #[verifier::when_used_as_spec(spec_height)]
    pub fn height(&self) -> (res: u32)
        ensures
            res == self.spec_height(),
    {
        self.height
    }

    /// The RGBA bytes, four for each pixel.
    pub fn pixels(&self) -> (res: &Vec<u8>)
        ensures
            res@ == self.spec_pixels(),
            res@.len() == 4 * self.width() * self.height(),
    {
        proof {
            use_type_invariant(self);
        }
        &self.pixels
    }
}

/// Why no crop was written.
#[derive(Debug)]
pub enum CutError {
    /// The full capture is no PNG file that `image` reads.
    Decode(String),
    /// The rectangle reaches beyond the full capture.
    OutOfBounds { left: u32, top: u32, width: u32, height: u32, source_width: u32, source_height: u32 },
    /// `image` could not encode the crop.
    Encode(String),
}

/// The text of `CutError::message`.
pub open spec fn cut_error_text(error: CutError) -> Seq<char> {
    match error {
        CutError::Decode(m) => "failed to decode the full capture: "@ + m@,
        CutError::OutOfBounds { left, top, width, height, source_width, source_height } => {
            "crop rectangle at ("@ + decimal(left as nat) + ", "@ + decimal(top as nat)
                + ") of size "@ + decimal(width as nat) + "x"@ + decimal(height as nat)
                + " exceeds the capture of size "@ + decimal(source_width as nat) + "x"@ + decimal(
                source_height as nat,
            )
        },
        CutError::Encode(m) => "failed to encode the crop: "@ + m@,
    }
}

impl CutError {
    /// The error in words, with the numbers that it is about.
    pub fn message(&self) -> (res: String)
        ensures
            res@ == cut_error_text(*self),
    {
        match self {
            CutError::Decode(m) => {
                let mut out = String::from_str("failed to decode the full capture: ");
                out.append(m.as_str());
                out
            },
            CutError::OutOfBounds { left, top, width, height, source_width, source_height } => {
                let mut out = String::from_str("crop rectangle at (");
                out.append(format_u64(*left as u64).as_str());
                out.append(", ");
                out.append(format_u64(*top as u64).as_str());
                out.append(") of size ");
                out.append(format_u64(*width as u64).as_str());
                out.append("x");
                out.append(format_u64(*height as u64).as_str());
                out.append(" exceeds the capture of size ");
                out.append(format_u64(*source_width as u64).as_str());
                out.append("x");
                out.append(format_u64(*source_height as u64).as_str());
                out
            },
            CutError::Encode(m) => {
                let mut out = String::from_str("failed to encode the crop: ");
                out.append(m.as_str());
                out
            },
        }
    }
}

/// What a crop request came to.
#[derive(Debug)]
pub enum CutOutcome {
    /// There is no full capture: nothing is written.
    Skipped,
    /// The bytes to write to the crop file, in place of what it held.
    Written(Vec<u8>),
    /// The crop failed: nothing is written.
    Failed(CutError),
}

impl CutOutcome {
    /// What the crop file holds after the outcome, where it held `before`.
    pub open spec fn crop_file_after(self, before: Option<Seq<u8>>) -> Option<Seq<u8>> {
        match self {
            CutOutcome::Written(bytes) => Some(bytes@),
            _ => before,
        }
    }
}

/// Decodes a PNG file with `image::load_from_memory_with_format`, and hands
/// the image out as RGBA bytes (`DynamicImage::to_rgba8`); an error is
/// handed out as its text. Nothing of this is proved here: the contract
/// names the result, and the raster is taken to hold four bytes for each
/// pixel, as every buffer that `to_rgba8` makes does.
#[verifier::external_body]
fn decode_png(bytes: &Vec<u8>) -> (res: Result<Raster, String>)
    ensures
        match png_decoded(bytes@) {
            Ok((w, h, p)) => res matches Ok(r) && r.spec_width() == w && r.spec_height() == h
                && r.spec_pixels() == p,
            Err(m) => res matches Err(e) && e@ == m,
        },
{
    match image::load_from_memory_with_format(bytes, image::ImageFormat::Png) {
        Ok(decoded) => {
            let rgba = decoded.to_rgba8();
            Ok(Raster { width: rgba.width(), height: rgba.height(), pixels: rgba.into_raw() })
        },
        Err(e) => Err(e.to_string()),
    }
}

/// Copies a rectangle out of an image with `GenericImage::sub_image` and
/// `SubImage::to_image`, on a buffer made by `ImageBuffer::from_raw`. The
/// contract says what `to_image` does and is not proved here: the pixel at
/// (x, y) of the result is the pixel at (`left` + x, `top` + y) of the
/// source. `sub_image` panics on a rectangle that leaves the source, so the
/// contract asks for one inside it.
#[verifier::external_body]
fn copy_rectangle(source: &Raster, left: u32, top: u32, width: u32, height: u32) -> (res: Raster)
    requires
        within_bounds(source.spec_width(), source.spec_height(), left, top, width, height),
    ensures
        res.spec_width() == width,
        res.spec_height() == height,
        res.spec_pixels() == cropped_pixels(
            source.spec_pixels(),
            source.spec_width(),
            left,
            top,
            width,
            height,
        ),
{
    let mut buffer =
        image::RgbaImage::from_raw(source.width, source.height, source.pixels.clone()).unwrap();
    let cut = buffer.sub_image(left, top, width, height).to_image();
    Raster { width: cut.width(), height: cut.height(), pixels: cut.into_raw() }
}

/// Encodes RGBA pixels as a PNG file with `image::write_buffer_with_format`;
/// an error is handed out as its text. Nothing of this is proved here: the
/// contract names the result.
#[verifier::external_body]
fn encode_png(raster: &Raster) -> (res: Result<Vec<u8>, String>)
    ensures
        match png_encoded(raster.spec_width(), raster.spec_height(), raster.spec_pixels()) {
            Ok(b) => res matches Ok(v) && v@ == b,
            Err(m) => res matches Err(e) && e@ == m,
        },
{
    let mut out = std::io::Cursor::new(Vec::new());
    match image::write_buffer_with_format(
        &mut out,
        &raster.pixels,
        raster.width,
        raster.height,
        image::ColorType::Rgba8,
        image::ImageFormat::Png,
    ) {
        Ok(()) => Ok(out.into_inner()),
        Err(e) => Err(e.to_string()),
    }
}

/// The rectangle of `source`, or the error that names how far it reaches
/// beyond the source.
pub fn crop_raster(source: &Raster, left: u32, top: u32, width: u32, height: u32) -> (res: Result<
    Raster,
    CutError,
>)
    ensures
        res is Ok <==> within_bounds(source.width(), source.height(), left, top, width, height),
        res matches Ok(r) ==> r.width() == width && r.height() == height && r.spec_pixels()
            == cropped_pixels(source.spec_pixels(), source.width(), left, top, width, height),
        res matches Err(e) ==> e == (CutError::OutOfBounds {
            left,
            top,
            width,
            height,
            source_width: source.width(),
            source_height: source.height(),
        }),
{
    if left as u64 + width as u64 <= source.width() as u64 && top as u64 + height as u64
        <= source.height() as u64 {
        Ok(copy_rectangle(source, left, top, width, height))
    } else {
        Err(
            CutError::OutOfBounds {
                left,
                top,
                width,
                height,
                source_width: source.width(),
                source_height: source.height(),
            },
        )
    }
}

/// What `cut_image` comes to on the bytes of the full capture.
pub open spec fn cut_matches(
    full_capture: Option<Seq<u8>>,
    left: u32,
    top: u32,
    width: u32,
    height: u32,
    outcome: CutOutcome,
) -> bool {
    match full_capture {
        None => outcome is Skipped,
        Some(bytes) => match png_decoded(bytes) {
            Err(m) => outcome matches CutOutcome::Failed(CutError::Decode(e)) && e@ == m,
            Ok((sw, sh, pixels)) => if within_bounds(sw, sh, left, top, width, height) {
                match png_encoded(width, height, cropped_pixels(pixels, sw, left, top, width, height)) {
                    Ok(b) => outcome matches CutOutcome::Written(v) && v@ == b,
                    Err(m) => outcome matches CutOutcome::Failed(CutError::Encode(e)) && e@ == m,
                }
            } else {
                outcome == CutOutcome::Failed(
                    CutError::OutOfBounds {
                        left,
                        top,
                        width,
                        height,
                        source_width: sw,
                        source_height: sh,
                    },
                )
            },
        },
    }
}

/// A crop beyond the bounds of the capture fails and leaves the crop file as
/// it was: whatever the file held before, it holds the same after an outcome
/// of `cut_image` on a rectangle that reaches beyond the decoded capture.
pub proof fn lemma_crop_beyond_bounds_writes_nothing(
    full_capture: Seq<u8>,
    left: u32,
    top: u32,
    width: u32,
    height: u32,
    outcome: CutOutcome,
    before: Option<Seq<u8>>,
)
    requires
        cut_matches(Some(full_capture), left, top, width, height, outcome),
        png_decoded(full_capture) matches Ok((sw, sh, _)) && !within_bounds(
            sw,
            sh,
            left,
            top,
            width,
            height,
        ),
    ensures
        outcome matches CutOutcome::Failed(CutError::OutOfBounds { .. }),
        outcome.crop_file_after(before) == before,
{
}

/// Cuts the rectangle out of the full capture. `full_capture` holds the bytes
/// of the capture file, or nothing where there is no such file. Without a
/// capture nothing happens. A rectangle that reaches beyond the capture is an
/// error, and leaves the crop file as it was.
pub fn cut_image(full_capture: Option<&Vec<u8>>, left: u32, top: u32, width: u32, height: u32) -> (res:
    CutOutcome)
    ensures
        cut_matches(
            match full_capture {
                Some(b) => Some(b@),
                None => None,
            },
            left,
            top,
            width,
            height,
            res,
        ),
{
    let bytes = match full_capture {
        Some(bytes) => bytes,
        None => {
            return CutOutcome::Skipped;
        },
    };
    let source = match decode_png(bytes) {
        Ok(source) => source,
        Err(message) => {
            return CutOutcome::Failed(CutError::Decode(message));
        },
    };
    let cut = match crop_raster(&source, left, top, width, height) {
        Ok(cut) => cut,
        Err(error) => {
            return CutOutcome::Failed(error);
        },
    };
    match encode_png(&cut) {
        Ok(encoded) => CutOutcome::Written(encoded),
        Err(message) => CutOutcome::Failed(CutError::Encode(message)),
    }
}

} // verus!
