//! Screenshots: which formats can be captured, how large a readback is, and
//! how captured 8-bit pixels are turned into RGBA8 rows for saving.
use vstd::prelude::*;

use crate::types::{EngineError, Format};

verus! {

/// The name `{:?}` prints for a format: the variant's name.
pub open spec fn format_debug_text(f: Format) -> Seq<char> {
    match f {
        Format::Rgba8Unorm => "Rgba8Unorm"@,
        Format::Bgra8Unorm => "Bgra8Unorm"@,
        Format::Rgba8Srgb => "Rgba8Srgb"@,
        Format::Bgra8Srgb => "Bgra8Srgb"@,
        Format::Rgba16Float => "Rgba16Float"@,
        Format::Rgba32Float => "Rgba32Float"@,
        Format::Depth32Float => "Depth32Float"@,
        Format::Depth24Stencil8 => "Depth24Stencil8"@,
    }
}

/// The variant name of `f`.
pub fn format_debug_name(f: Format) -> (r: &'static str)
    ensures
        r@ == format_debug_text(f),
{
    match f {
        Format::Rgba8Unorm => "Rgba8Unorm",
        Format::Bgra8Unorm => "Bgra8Unorm",
        Format::Rgba8Srgb => "Rgba8Srgb",
        Format::Bgra8Srgb => "Bgra8Srgb",
        Format::Rgba16Float => "Rgba16Float",
        Format::Rgba32Float => "Rgba32Float",
        Format::Depth32Float => "Depth32Float",
        Format::Depth24Stencil8 => "Depth24Stencil8",
    }
}

/// Bytes per pixel of a format a screenshot can be taken in: four for the
/// 8-bit RGBA and BGRA formats (linear or sRGB), eight for `Rgba16Float`;
/// zero marks a format that cannot be captured.
pub open spec fn capture_bytes_per_pixel(f: Format) -> u32 {
    match f {
        Format::Rgba8Unorm | Format::Bgra8Unorm | Format::Rgba8Srgb | Format::Bgra8Srgb => 4,
        Format::Rgba16Float => 8,
        _ => 0,
    }
}

/// Whether a format stores its pixels in blue-green-red-alpha order.
pub open spec fn is_bgra(f: Format) -> bool {
    f == Format::Bgra8Unorm || f == Format::Bgra8Srgb
}

/// The message a screenshot of an unsupported format is refused with.
pub open spec fn unsupported_capture_message(f: Format) -> Seq<char> {
    "ScreenshotCapture: unsupported format "@ + format_debug_text(f)
}

/// Bytes per pixel of a capturable format, or `InvalidInput` for any other.
pub fn bytes_per_pixel(format: Format) -> (r: Result<u32, EngineError>)
    ensures
        capture_bytes_per_pixel(format) != 0 ==> r == Ok::<u32, EngineError>(capture_bytes_per_pixel(format)),
        capture_bytes_per_pixel(format) == 0 ==> (r matches Err(EngineError::InvalidInput(m))
            && m@ == unsupported_capture_message(format)),
{
    match format {
        Format::Rgba8Unorm | Format::Bgra8Unorm | Format::Rgba8Srgb | Format::Bgra8Srgb => Ok(4),
        Format::Rgba16Float => Ok(8),
        _ => {
            let mut m = String::from_str("ScreenshotCapture: unsupported format ");
            m.append(format_debug_name(format));
            Err(EngineError::InvalidInput(m))
        },
    }
}

/// Index of the raw byte that lands at output byte `i` when BGRA pixels are
/// turned into RGBA: blue and red trade places, green and alpha stay.
pub open spec fn bgra_source_index(i: int) -> int {
    let c = i % 4;
    let base = i - c;
    if c == 0 {
        base + 2
    } else if c == 2 {
        base
    } else {
        i
    }
}

/// The RGBA8 bytes of an 8-bit capture: the raw bytes themselves for RGBA
/// order, with each pixel's first and third bytes swapped for BGRA order.
pub open spec fn rgba8_of(raw: Seq<u8>, bgra: bool) -> Seq<u8> {
    if bgra {
        Seq::new(raw.len(), |i: int| raw[bgra_source_index(i)])
    } else {
        raw
    }
}

/// Turning BGRA into RGBA twice gives back the bytes it started from.
pub proof fn lemma_bgra_swap_involution(raw: Seq<u8>)
    requires
        raw.len() % 4 == 0,
    ensures
        rgba8_of(rgba8_of(raw, true), true) == raw,
{
    let once = rgba8_of(raw, true);
    assert forall|i: int| 0 <= i < raw.len() implies 0 <= #[trigger] bgra_source_index(i) < raw.len()
        && bgra_source_index(bgra_source_index(i)) == i by {
        lemma_bgra_index(i, raw.len() as int);
        lemma_bgra_index(bgra_source_index(i), raw.len() as int);
    }
    assert(rgba8_of(once, true) =~= raw);
}

/// Bounds and the swap of one output index.
proof fn lemma_bgra_index(i: int, len: int)
    requires
        0 <= i < len,
        len % 4 == 0,
    ensures
        0 <= bgra_source_index(i) < len,
        bgra_source_index(i) % 4 == (if i % 4 == 0 { 2 } else if i % 4 == 2 { 0 } else { i % 4 }),
        bgra_source_index(i) - bgra_source_index(i) % 4 == i - i % 4,
        i % 4 != 0 && i % 4 != 2 ==> bgra_source_index(i) == i,
{
    assert((i - i % 4) % 4 == 0) by (nonlinear_arith)
        requires 0 <= i;
    assert(i - i % 4 + 4 <= len) by (nonlinear_arith)
        requires 0 <= i < len, len % 4 == 0;
}

/// RGBA8 bytes from the raw bytes of an 8-bit capture of `width` by
/// `height` pixels in `format`.
pub fn rgba8_from_raw(raw: &[u8], format: Format, width: u32, height: u32) -> (r: Vec<u8>)
    requires
        capture_bytes_per_pixel(format) == 4,
        width * height <= u32::MAX,
        raw@.len() == width * height * 4,
    ensures
        r@ == rgba8_of(raw@, is_bgra(format)),
{
    let bgra = match format {
        Format::Bgra8Unorm | Format::Bgra8Srgb => true,
        _ => false,
    };
    let mut out: Vec<u8> = Vec::new();
    let mut i: usize = 0;
    let n = raw.len();
    assert(n % 4 == 0) by (nonlinear_arith)
        requires n == width * height * 4;
    while i < n
        invariant
            n == raw@.len(),
            n % 4 == 0,
            i % 4 == 0,
            i <= n,
            out@.len() == i,
            bgra == is_bgra(format),
            forall|j: int| 0 <= j < i ==> out@[j] == #[trigger] rgba8_of(raw@, bgra)[j],
        decreases n - i,
    {
        assert(i + 4 <= n);
        if bgra {
            out.push(raw[i + 2]);
            out.push(raw[i + 1]);
            out.push(raw[i]);
            out.push(raw[i + 3]);
        } else {
            out.push(raw[i]);
            out.push(raw[i + 1]);
            out.push(raw[i + 2]);
            out.push(raw[i + 3]);
        }
        assert forall|j: int| i <= j < i + 4 implies out@[j] == #[trigger] rgba8_of(raw@, bgra)[j] by {
            assert(j % 4 == j - i);
        }
        i = i + 4;
    }
    assert(out@ =~= rgba8_of(raw@, bgra));
    out
}

/// The size and format of a screenshot readback.
#[derive(Clone, Copy, Debug, PartialEq, Eq, Structural)]
pub struct ScreenshotCapture {
    pub width: u32,
    pub height: u32,
    pub format: Format,
}

impl ScreenshotCapture {
    /// A capture of `width` by `height` pixels in `format`; `InvalidInput`
    /// for a format that cannot be captured.
    pub fn new(width: u32, height: u32, format: Format) -> (r: Result<ScreenshotCapture, EngineError>)
        ensures
            capture_bytes_per_pixel(format) != 0 ==> r == Ok::<ScreenshotCapture, EngineError>(
                ScreenshotCapture { width, height, format }),
            capture_bytes_per_pixel(format) == 0 ==> (r matches Err(EngineError::InvalidInput(m))
                && m@ == unsupported_capture_message(format)),
    {
        match bytes_per_pixel(format) {
            Ok(_) => Ok(ScreenshotCapture { width, height, format }),
            Err(e) => Err(e),
        }
    }

    /// Bytes the readback buffer holds: width times height times the
    /// format's bytes per pixel.
    pub fn readback_size(&self) -> (r: u64)
        requires
            capture_bytes_per_pixel(self.format) != 0,
            self.width * self.height * capture_bytes_per_pixel(self.format) <= u64::MAX,
        ensures
            r == self.width * self.height * capture_bytes_per_pixel(self.format),
    {
        let bpp: u64 = match self.format {
            Format::Rgba16Float => 8,
            _ => 4,
        };
        let w = self.width as u64;
        let h = self.height as u64;
        assert(w * h <= w * h * bpp) by (nonlinear_arith)
            requires bpp >= 1, w >= 0, h >= 0;
        w * h * bpp
    }

    /// The captured pixels as RGBA8 bytes, from the raw readback of an 8-bit
    /// capture.
    pub fn read_rgba8_pixels(&self, raw: &[u8]) -> (r: Vec<u8>)
        requires
            capture_bytes_per_pixel(self.format) == 4,
            self.width * self.height <= u32::MAX,
            raw@.len() == self.width * self.height * 4,
        ensures
            r@ == rgba8_of(raw@, is_bgra(self.format)),
    {
        rgba8_from_raw(raw, self.format, self.width, self.height)
    }

    /// The width in pixels.
    pub fn width(&self) -> (r: u32)
        ensures
            r == self.width,
    {
        self.width
    }

    /// The height in pixels.
    pub fn height(&self) -> (r: u32)
        ensures
            r == self.height,
    {
        self.height
    }

    /// The pixel format.
    pub fn format(&self) -> (r: Format)
        ensures
            r == self.format,
    {
        self.format
    }
}

} // verus!
