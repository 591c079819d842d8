use vstd::prelude::*;

use crate::buffer::EvcxrContent;

verus! {

/// The raw pixel layouts the PNG codec encodes losslessly: grayscale,
/// grayscale with alpha, RGB and RGBA, each with 8-bit or 16-bit channels.
/// Sixteen-bit channels are held as two native-endian bytes per sample.
#[derive(Clone, Copy, PartialEq, Eq, Structural, Debug)]
pub enum PixelFormat {
    L8,
    La8,
    Rgb8,
    Rgba8,
    L16,
    La16,
    Rgb16,
    Rgba16,
}

impl PixelFormat {
    /// How many bytes one pixel occupies in the raw sample buffer.
    pub open spec fn spec_bytes_per_pixel(self) -> nat {
        match self {
            PixelFormat::L8 => 1,
            PixelFormat::La8 => 2,
            PixelFormat::Rgb8 => 3,
            PixelFormat::Rgba8 => 4,
            PixelFormat::L16 => 2,
            PixelFormat::La16 => 4,
            PixelFormat::Rgb16 => 6,
            PixelFormat::Rgba16 => 8,
        }
    }

    /// How many bytes one pixel occupies in the raw sample buffer.
    pub fn bytes_per_pixel(self) -> (r: u32)
        ensures
            r == self.spec_bytes_per_pixel(),
    {
        match self {
            PixelFormat::L8 => 1,
            PixelFormat::La8 => 2,
            PixelFormat::Rgb8 => 3,
            PixelFormat::Rgba8 => 4,
            PixelFormat::L16 => 2,
            PixelFormat::La16 => 4,
            PixelFormat::Rgb16 => 6,
            PixelFormat::Rgba16 => 8,
        }
    }
}

/// The state a pixel grid presents in contracts: its dimensions, its pixel
/// layout, and the raw sample bytes, row after row.
pub ghost struct GridView {
    pub width: nat,
    pub height: nat,
    pub format: PixelFormat,
    pub data: Seq<u8>,
}

/// A two-dimensional pixel grid held as raw channel bytes in the layout
/// `format` names, rows from top to bottom. This is the typed input of the
/// image converter.
pub struct PixelGrid {
    width: u32,
    height: u32,
    format: PixelFormat,
    data: Vec<u8>,
}

impl View for PixelGrid {
    type V = GridView;

    closed spec fn view(&self) -> GridView {
        GridView {
            width: self.width as nat,
            height: self.height as nat,
            format: self.format,
            data: self.data@,
        }
    }
}

impl PixelGrid {
    /// A grid is well formed when it holds exactly one pixel's bytes for
    /// every cell of its width-by-height plane.
    pub open spec fn wf(self) -> bool {
        self@.data.len() == self@.width * self@.height * self@.format.spec_bytes_per_pixel()
    }

    /// Builds a grid from raw samples, or returns `None` when the byte
    /// count does not match the dimensions and layout.
    pub fn new(width: u32, height: u32, format: PixelFormat, data: Vec<u8>) -> (r: Option<
        PixelGrid,
    >)
        ensures
            match r {
                Some(g) => g@.width == width && g@.height == height && g@.format == format
                    && g@.data == data@ && g.wf(),
                None => data@.len() != width * height * format.spec_bytes_per_pixel(),
            },
    {
        proof {
            assert((width as int) * (height as int) * (format.spec_bytes_per_pixel() as int)
                <= 0xffff_ffffu64 * 0xffff_ffffu64 * 8) by (nonlinear_arith)
                requires
                    width <= 0xffff_ffffu64 && height <= 0xffff_ffffu64
                        && format.spec_bytes_per_pixel() <= 8,
            ;
        }
        let need: u128 = (width as u128) * (height as u128) * (format.bytes_per_pixel() as u128);
        if (data.len() as u128) == need {
            Some(PixelGrid { width, height, format, data })
        } else {
            None
        }
    }

    /// The grid's width in pixels.
    pub fn width(&self) -> (r: u32)
        ensures
            r == self@.width,
    {
        self.width
    }

    /// The grid's height in pixels.
    pub fn height(&self) -> (r: u32)
        ensures
            r == self@.height,
    {
        self.height
    }

    /// The grid's pixel layout.
    pub fn format(&self) -> (r: PixelFormat)
        ensures
            r == self@.format,
    {
        self.format
    }

    /// The raw sample bytes.
    pub fn data(&self) -> (r: &[u8])
        ensures
            r@ == self@.data,
    {
        self.data.as_slice()
    }
}

/// The PNG encoding of a raw pixel grid, as the external codec produces it.
pub uninterp spec fn png_of(width: nat, height: nat, format: PixelFormat, data: Seq<u8>) -> Seq<
    u8,
>;

/// Whether the external PNG codec accepts a raw pixel grid: like the
/// encoding itself, a function of the dimensions, the layout and the
/// samples alone.
pub uninterp spec fn png_accepts(width: nat, height: nat, format: PixelFormat, data: Seq<u8>) -> bool;

/// Relies on image's PngEncoder: compresses the raw samples (native-endian
/// for 16-bit channels) into a PNG byte stream, or reports that the codec
/// refused the input; with the byte count matching the dimensions, which
/// of the two happens is decided by the grid alone.
#[verifier::external_body]
fn encode_png(width: u32, height: u32, format: PixelFormat, data: &[u8]) -> (r: Result<
    Vec<u8>,
    crate::ContentError,
>)
    requires
        data@.len() == width * height * format.spec_bytes_per_pixel(),
    ensures
        r is Ok <==> png_accepts(width as nat, height as nat, format, data@),
        r matches Ok(v) ==> v@ == png_of(width as nat, height as nat, format, data@),
        r matches Err(e) ==> e == crate::ContentError::CodecFailure,
{
    let color = match format {
        PixelFormat::L8 => image::ExtendedColorType::L8, PixelFormat::La8 => image::ExtendedColorType::La8,
        PixelFormat::Rgb8 => image::ExtendedColorType::Rgb8, PixelFormat::Rgba8 => image::ExtendedColorType::Rgba8,
        PixelFormat::L16 => image::ExtendedColorType::L16, PixelFormat::La16 => image::ExtendedColorType::La16,
        PixelFormat::Rgb16 => image::ExtendedColorType::Rgb16, PixelFormat::Rgba16 => image::ExtendedColorType::Rgba16,
    };
    let mut out = std::io::Cursor::new(Vec::new());
    let enc = image::codecs::png::PngEncoder::new(&mut out);
    match image::ImageEncoder::write_image(enc, data, width, height, color) {
        Ok(()) => Ok(out.into_inner()),
        Err(_) => Err(crate::ContentError::CodecFailure),
    }
}

impl EvcxrContent {
    /// Compresses the pixel grid to PNG through the external codec and
    /// returns the bytes in a buffer tagged `image/png`, cursor at the
    /// start: owed exactly on the grids the codec accepts. A codec failure
    /// aborts the conversion: no partial buffer comes back.
    pub fn from_imagebuffer(img: &PixelGrid) -> (r: Result<EvcxrContent, crate::ContentError>)
        requires
            img.wf(),
        ensures
            r is Ok <==> png_accepts(img@.width, img@.height, img@.format, img@.data),
            r matches Ok(b) ==> b@.mime == "image/png"@ && b@.pos == 0 && b@.data == png_of(
                img@.width,
                img@.height,
                img@.format,
                img@.data,
            ),
            r matches Err(e) ==> e == crate::ContentError::CodecFailure,
    {
        match encode_png(img.width(), img.height(), img.format(), img.data()) {
            Ok(bytes) => Ok(EvcxrContent::from_parts("image/png", bytes)),
            Err(e) => Err(e),
        }
    }
}

} // verus!
