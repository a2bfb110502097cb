//! A verified bridge between host callers and two image algorithms: lossless
//! PNG re-encoding and palette quantization. The library validates and
//! converts parameters, decides statuses and fallbacks, and lays out the
//! buffers that are handed back to the host.

pub mod buffers;
pub mod lossless;
pub mod managed;
pub mod quantize;
pub mod quantizer;
pub mod threads;
pub mod types;
pub mod version;

pub use buffers::{allocation_request, block_size, AllocationError, HEADER_BYTES};
pub use lossless::{
    convert_lossless_options, lossless_output, resolve_lossless_options,
    OptimizerSettings, StripMode,
};
pub use managed::{
    advanced_geometry_check, advanced_params, colors_from_bytes, colors_to_bytes,
    managed_geometry_check, managed_result, rgba_length_matches, WasmLosslessOptions,
    WasmQuantResult,
};
pub use quantize::{
    accept_quantized, accept_remapped, classify_error, finish_quantize, geometry_matches,
    prepare_quantization, prepare_with_settings, quality_score, quant_output, quant_settings,
    register_fixed_colors, PreparedImage, QuantSettings, QuantizeError, QuantizeOutcome,
    QuantizedImage,
};
pub use threads::{build_pool, pool_reported, requested_pool_size};
pub use types::{
    PngxBridgeLosslessOptions, PngxBridgeQuantOutput, PngxBridgeQuantParams,
    PngxBridgeQuantStatus, PngxResult, RgbaColor,
};
pub use version::parse_version_number;
