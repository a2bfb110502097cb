use vstd::prelude::*;

verus! {

/// One 8-bit RGBA color.
#[derive(Debug, Clone, Copy, PartialEq, Eq, Structural)]
pub struct RgbaColor {
    pub r: u8,
    pub g: u8,
    pub b: u8,
    pub a: u8,
}

/// Status of the lossless path. Its wire values are given by `code`.
#[derive(Debug, Clone, Copy, PartialEq, Eq, Structural)]
pub enum PngxResult {
    Success,
    InvalidInput,
    OptimizationFailed,
    IoError,
}

impl PngxResult {
    pub open spec fn spec_code(self) -> i32 {
        match self {
            PngxResult::Success => 0,
            PngxResult::InvalidInput => 1,
            PngxResult::OptimizationFailed => 2,
            PngxResult::IoError => 3,
        }
    }

    /// The stable value of this status on the wire.
    pub fn code(self) -> (r: i32)
        ensures
            r == self.spec_code(),
    {
        match self {
            PngxResult::Success => 0,
            PngxResult::InvalidInput => 1,
            PngxResult::OptimizationFailed => 2,
            PngxResult::IoError => 3,
        }
    }
}

/// Status of the quantization path. Its wire values are given by `code`.
#[derive(Debug, Clone, Copy, PartialEq, Eq, Structural)]
pub enum PngxBridgeQuantStatus {
    Success,
    QualityTooLow,
    Error,
}

impl PngxBridgeQuantStatus {
    pub open spec fn spec_code(self) -> i32 {
        match self {
            PngxBridgeQuantStatus::Success => 0,
            PngxBridgeQuantStatus::QualityTooLow => 1,
            PngxBridgeQuantStatus::Error => 2,
        }
    }

    /// The stable value of this status on the wire.
    pub fn code(self) -> (r: i32)
        ensures
            r == self.spec_code(),
    {
        match self {
            PngxBridgeQuantStatus::Success => 0,
            PngxBridgeQuantStatus::QualityTooLow => 1,
            PngxBridgeQuantStatus::Error => 2,
        }
    }
}

/// Settings of the lossless optimizer.
#[derive(Debug, Clone, Copy, PartialEq, Eq, Structural)]
pub struct PngxBridgeLosslessOptions {
    /// Preset tier, 0 to 6; higher tiers behave as 6.
    pub optimization_level: u8,
    /// Drop only the metadata chunks that cannot change how the image displays.
    pub strip_safe: bool,
    /// Allow the optimizer to alter fully transparent pixels.
    pub optimize_alpha: bool,
}

impl PngxBridgeLosslessOptions {
    pub open spec fn spec_default() -> Self {
        PngxBridgeLosslessOptions { optimization_level: 5, strip_safe: true, optimize_alpha: true }
    }
}

impl Default for PngxBridgeLosslessOptions {
    /// The options used when the host passes none: level 5, safe stripping,
    /// alpha optimization on.
    fn default() -> (r: Self)
        ensures
            r == Self::spec_default(),
    {
        PngxBridgeLosslessOptions { optimization_level: 5, strip_safe: true, optimize_alpha: true }
    }
}

/// Parameters of a quantization.
///
/// The dithering level is a float and is applied by the host side between
/// quantization and remapping, so it is not held here.
#[derive(Debug, Clone)]
pub struct PngxBridgeQuantParams {
    /// 1 (slowest, best) to 10 (fastest).
    pub speed: i32,
    /// Minimum acceptable quality, 0 to 100.
    pub quality_min: u8,
    /// Target quality, 0 to 100; raised to `quality_min` when below it.
    pub quality_max: u8,
    /// 2 to 256.
    pub max_colors: u32,
    /// A negative value leaves the quantizer's default; otherwise its low
    /// eight bits are the number of bits of precision to drop.
    pub min_posterization: i32,
    /// Per-pixel weights; used only when it holds exactly one byte per pixel.
    pub importance_map: Option<Vec<u8>>,
    /// Colors that the palette must contain.
    pub fixed_colors: Vec<RgbaColor>,
    /// Produce a palette and per-pixel indices, not only a quality score.
    pub remap: bool,
}

/// What a quantization hands back: a palette, one palette index per pixel,
/// and a quality score (-1 when it was not computed). Empty buffers mean
/// that no buffer was produced.
#[derive(Debug, Clone)]
pub struct PngxBridgeQuantOutput {
    pub palette: Vec<RgbaColor>,
    pub indices: Vec<u8>,
    pub quality: i32,
}

impl PngxBridgeQuantOutput {
    /// The output of a failed call: no buffers, quality unknown.
    pub fn empty() -> (r: Self)
        ensures
            r.palette@.len() == 0,
            r.indices@.len() == 0,
            r.quality == -1,
    {
        PngxBridgeQuantOutput { palette: Vec::new(), indices: Vec::new(), quality: -1 }
    }

    pub fn palette_len(&self) -> (r: usize)
        ensures
            r == self.palette@.len(),
    {
        self.palette.len()
    }

    pub fn indices_len(&self) -> (r: usize)
        ensures
            r == self.indices@.len(),
    {
        self.indices.len()
    }
}

} // verus!
