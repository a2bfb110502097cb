//! The logic of the managed-lifetime surface: its option object, its result
//! object with a single status field, and the byte layouts it exchanges
//! with the host (four bytes per color).
use crate::quantize::{QuantizeError, QuantizeOutcome, palette_seq, indices_seq};
use crate::types::{PngxBridgeLosslessOptions, PngxBridgeQuantParams, RgbaColor};
use vstd::prelude::*;

verus! {

/// Status codes of the managed surface.
pub const STATUS_OK: i32 = 0;
pub const STATUS_QUALITY_TOO_LOW: i32 = 1;
pub const STATUS_ERROR: i32 = 2;
pub const STATUS_PIXEL_LENGTH_MISMATCH: i32 = 3;
pub const STATUS_ZERO_DIMENSION: i32 = 4;

/// Lossless options with individually settable fields.
#[derive(Debug, Clone, Copy, PartialEq, Eq, Structural)]
pub struct WasmLosslessOptions {
    pub optimization_level: u8,
    pub strip_safe: bool,
    pub optimize_alpha: bool,
}

impl WasmLosslessOptions {
    /// The defaults of the raw-pointer surface: level 5, safe stripping,
    /// alpha optimization on.
    pub fn new() -> (r: Self)
        ensures
            r.optimization_level == 5,
            r.strip_safe,
            r.optimize_alpha,
    {
        WasmLosslessOptions { optimization_level: 5, strip_safe: true, optimize_alpha: true }
    }

    pub fn set_optimization_level(&mut self, level: u8)
        ensures
            *final(self) == (WasmLosslessOptions { optimization_level: level, ..*old(self) }),
    {
        self.optimization_level = level;
    }

    pub fn set_strip_safe(&mut self, strip: bool)
        ensures
            *final(self) == (WasmLosslessOptions { strip_safe: strip, ..*old(self) }),
    {
        self.strip_safe = strip;
    }

    pub fn set_optimize_alpha(&mut self, optimize: bool)
        ensures
            *final(self) == (WasmLosslessOptions { optimize_alpha: optimize, ..*old(self) }),
    {
        self.optimize_alpha = optimize;
    }

    /// The same settings as options of the raw-pointer surface.
    pub fn to_bridge_options(&self) -> (r: PngxBridgeLosslessOptions)
        ensures
            r.optimization_level == self.optimization_level,
            r.strip_safe == self.strip_safe,
            r.optimize_alpha == self.optimize_alpha,
    {
        PngxBridgeLosslessOptions {
            optimization_level: self.optimization_level,
            strip_safe: self.strip_safe,
            optimize_alpha: self.optimize_alpha,
        }
    }
}

impl Default for WasmLosslessOptions {
    fn default() -> (r: Self)
        ensures
            r == PngxBridgeLosslessOptions::spec_default().to_managed(),
    {
        Self::new()
    }
}

impl PngxBridgeLosslessOptions {
    pub open spec fn to_managed(self) -> WasmLosslessOptions {
        WasmLosslessOptions {
            optimization_level: self.optimization_level,
            strip_safe: self.strip_safe,
            optimize_alpha: self.optimize_alpha,
        }
    }
}

/// The result object of the managed surface: the palette as four bytes per
/// color, the indices, the quality (-1 when unknown) and a status code.
#[derive(Debug, Clone)]
pub struct WasmQuantResult {
    pub palette: Vec<u8>,
    pub indices: Vec<u8>,
    pub quality: i32,
    pub status: i32,
}

impl WasmQuantResult {
    pub fn palette(&self) -> (r: Vec<u8>)
        ensures
            r@ == self.palette@,
    {
        self.palette.clone()
    }

    pub fn indices(&self) -> (r: Vec<u8>)
        ensures
            r@ == self.indices@,
    {
        self.indices.clone()
    }

    pub fn quality(&self) -> (r: i32)
        ensures
            r == self.quality,
    {
        self.quality
    }

    pub fn status(&self) -> (r: i32)
        ensures
            r == self.status,
    {
        self.status
    }

    /// A result with no buffers.
    pub fn failure(status: i32, quality: i32) -> (r: Self)
        ensures
            r.palette@.len() == 0,
            r.indices@.len() == 0,
            r.quality == quality,
            r.status == status,
    {
        WasmQuantResult { palette: Vec::new(), indices: Vec::new(), quality, status }
    }
}

/// The four bytes of a color, in the order red, green, blue, alpha.
pub open spec fn color_bytes(c: RgbaColor) -> Seq<u8> {
    seq![c.r, c.g, c.b, c.a]
}

/// Colors laid out as four bytes each.
pub open spec fn colors_as_bytes(colors: Seq<RgbaColor>) -> Seq<u8>
    decreases colors.len(),
{
    if colors.len() == 0 {
        Seq::empty()
    } else {
        colors_as_bytes(colors.drop_last()) + color_bytes(colors.last())
    }
}

/// The color spelled by the four bytes that start at `4 * i`.
pub open spec fn color_at(bytes: Seq<u8>, i: int) -> RgbaColor {
    RgbaColor { r: bytes[4 * i], g: bytes[4 * i + 1], b: bytes[4 * i + 2], a: bytes[4 * i + 3] }
}

/// Reads whole four-byte groups as colors; a trailing partial group is
/// ignored.
pub fn colors_from_bytes(bytes: &[u8]) -> (r: Vec<RgbaColor>)
    ensures
        r@.len() == bytes@.len() / 4,
        forall|i: int| 0 <= i < r@.len() ==> #[trigger] r@[i] == color_at(bytes@, i),
{
    let len = bytes.len();
    let n = len / 4;
    let mut out: Vec<RgbaColor> = Vec::new();
    let mut i: usize = 0;
    while i < n
        invariant
            len == bytes@.len(),
            n == len / 4,
            i <= n,
            out@.len() == i,
            forall|j: int| 0 <= j < i ==> #[trigger] out@[j] == color_at(bytes@, j),
        decreases n - i,
    {
        assert(4 * i + 3 < bytes@.len()) by (nonlinear_arith)
            requires i < n, n == len / 4, len == bytes@.len();
        let k = 4 * i;
        out.push(RgbaColor { r: bytes[k], g: bytes[k + 1], b: bytes[k + 2], a: bytes[k + 3] });
        i = i + 1;
    }
    out
}

/// Lays colors out as four bytes each.
pub fn colors_to_bytes(colors: &[RgbaColor]) -> (r: Vec<u8>)
    requires
        colors@.len() * 4 <= usize::MAX,
    ensures
        r@ == colors_as_bytes(colors@),
{
    let mut out: Vec<u8> = Vec::new();
    let mut i: usize = 0;
    while i < colors.len()
        invariant
            i <= colors@.len(),
            out@ == colors_as_bytes(colors@.subrange(0, i as int)),
        decreases colors@.len() - i,
    {
        let c = colors[i];
        out.push(c.r);
        out.push(c.g);
        out.push(c.b);
        out.push(c.a);
        proof {
            let next = colors@.subrange(0, i + 1);
            assert(next.drop_last() =~= colors@.subrange(0, i as int));
            assert(next.last() == c);
            assert(out@ =~= colors_as_bytes(next));
        }
        i = i + 1;
    }
    assert(colors@.subrange(0, colors@.len() as int) =~= colors@);
    out
}

/// The managed surface's answer to a quantization outcome.
pub open spec fn managed_result_matches(r: Result<QuantizeOutcome, QuantizeError>, res: WasmQuantResult) -> bool {
    match r {
        Ok(o) => {
            &&& res.status == STATUS_OK
            &&& res.palette@ == colors_as_bytes(palette_seq(o))
            &&& res.indices@ == indices_seq(o)
            &&& res.quality == o.quality
        },
        Err(e) => {
            &&& res.status == (if e == QuantizeError::QualityTooLow { STATUS_QUALITY_TOO_LOW } else { STATUS_ERROR })
            &&& res.palette@.len() == 0
            &&& res.indices@.len() == 0
            &&& res.quality == -1
        },
    }
}

/// Maps a quantization outcome onto the managed result object.
pub fn managed_result(r: Result<QuantizeOutcome, QuantizeError>) -> (res: WasmQuantResult)
    requires
        r matches Ok(o) ==> palette_seq(o).len() * 4 <= usize::MAX,
    ensures
        managed_result_matches(r, res),
{
    match r {
        Ok(o) => {
            let palette = match o.palette {
                Some(p) => colors_to_bytes(p.as_slice()),
                None => Vec::new(),
            };
            let indices = match o.indices {
                Some(ix) => ix,
                None => Vec::new(),
            };
            WasmQuantResult { palette, indices, quality: o.quality, status: STATUS_OK }
        },
        Err(QuantizeError::QualityTooLow) => WasmQuantResult::failure(STATUS_QUALITY_TOO_LOW, -1),
        Err(QuantizeError::Generic) => WasmQuantResult::failure(STATUS_ERROR, -1),
    }
}

/// Whether a buffer of `len` bytes holds exactly four bytes for each pixel
/// of a `width` by `height` image.
pub fn rgba_length_matches(len: usize, width: u32, height: u32) -> (r: bool)
    ensures
        r == (len as int == 4 * (width as int) * (height as int)),
{
    let w = width as u64;
    let h = height as u64;
    assert(w * h <= u32::MAX * u32::MAX) by (nonlinear_arith)
        requires w <= u32::MAX, h <= u32::MAX;
    let pixels: u64 = w * h;
    assert(4 * (width as int) * (height as int) == pixels * 4) by (nonlinear_arith)
        requires pixels == w * h, w == width, h == height;
    match pixels.checked_mul(4) {
        Some(bytes) => bytes == len as u64,
        None => {
            assert(len as int <= u64::MAX);
            false
        },
    }
}

/// The early answer of the managed quantization: a zero side gives status
/// 4, then a buffer that is not four bytes per pixel gives status 3; both
/// carry no buffers and quality -1 (not computed). Otherwise none.
pub fn managed_geometry_check(pixels_len: usize, width: u32, height: u32) -> (r: Option<WasmQuantResult>)
    ensures
        (width == 0 || height == 0) ==> (r matches Some(res) && res.status == STATUS_ZERO_DIMENSION && res.quality == -1
            && res.palette@.len() == 0 && res.indices@.len() == 0),
        (width > 0 && height > 0 && pixels_len as int != 4 * (width as int) * (height as int)) ==> (r matches Some(res)
            && res.status == STATUS_PIXEL_LENGTH_MISMATCH && res.quality == -1
            && res.palette@.len() == 0 && res.indices@.len() == 0),
        (width > 0 && height > 0 && pixels_len as int == 4 * (width as int) * (height as int)) ==> r is None,
{
    if width == 0 || height == 0 {
        return Some(WasmQuantResult::failure(STATUS_ZERO_DIMENSION, -1));
    }
    if !rgba_length_matches(pixels_len, width, height) {
        return Some(WasmQuantResult::failure(STATUS_PIXEL_LENGTH_MISMATCH, -1));
    }
    None
}

/// The early answer of the quantization with every parameter given: a
/// buffer that is not four bytes per pixel gives a generic error.
pub fn advanced_geometry_check(pixels_len: usize, width: u32, height: u32) -> (r: Option<WasmQuantResult>)
    ensures
        pixels_len as int != 4 * (width as int) * (height as int) ==> (r matches Some(res) && res.status == STATUS_ERROR
            && res.quality == -1 && res.palette@.len() == 0 && res.indices@.len() == 0),
        pixels_len as int == 4 * (width as int) * (height as int) ==> r is None,
{
    if !rgba_length_matches(pixels_len, width, height) {
        return Some(WasmQuantResult::failure(STATUS_ERROR, -1));
    }
    None
}

/// Parameters of the quantization with every parameter given: the optional
/// importance map as is (it is ignored later unless it has one entry per
/// pixel) and the fixed colors read from four bytes each.
pub fn advanced_params(
    speed: i32,
    quality_min: u8,
    quality_max: u8,
    max_colors: u32,
    min_posterization: i32,
    remap: bool,
    importance_map: Option<Vec<u8>>,
    fixed_colors: Option<Vec<u8>>,
) -> (r: PngxBridgeQuantParams)
    ensures
        r.speed == speed,
        r.quality_min == quality_min,
        r.quality_max == quality_max,
        r.max_colors == max_colors,
        r.min_posterization == min_posterization,
        r.remap == remap,
        r.importance_map == importance_map,
        fixed_colors is None ==> r.fixed_colors@.len() == 0,
        fixed_colors matches Some(f) ==> (r.fixed_colors@.len() == f@.len() / 4
            && forall|i: int| 0 <= i < r.fixed_colors@.len() ==> #[trigger] r.fixed_colors@[i] == color_at(f@, i)),
{
    let fixed = match fixed_colors {
        Some(f) => colors_from_bytes(f.as_slice()),
        None => Vec::new(),
    };
    PngxBridgeQuantParams {
        speed,
        quality_min,
        quality_max,
        max_colors,
        min_posterization,
        importance_map,
        fixed_colors: fixed,
        remap,
    }
}

} // verus!
