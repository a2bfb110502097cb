//! The lossless path: option conversion for the PNG optimizer (the oxipng
//! crate) and the fallback policy around it. The optimizer itself is called
//! by the host behind a panic catch: oxipng holds `unreachable!` paths that
//! malformed input might reach (e.g. in its scan-line and palette code).
use crate::types::PngxBridgeLosslessOptions;
use vstd::prelude::*;

verus! {

/// How metadata chunks are treated.
#[derive(Debug, Clone, Copy, PartialEq, Eq, Structural)]
pub enum StripMode {
    /// Keep every chunk (what every preset tier does).
    Keep,
    /// Remove only the chunks that cannot change how the image displays.
    Safe,
}

/// The optimizer settings, as plain values.
#[derive(Debug, Clone, Copy, PartialEq, Eq, Structural)]
pub struct OptimizerSettings {
    /// Preset tier; tiers above 6 behave as 6.
    pub preset: u8,
    pub strip: StripMode,
    /// Whether fully transparent pixels may be altered.
    pub optimize_alpha: bool,
}

/// The options to use: the host's, or the documented defaults when it
/// passed none.
pub fn resolve_lossless_options(options: Option<PngxBridgeLosslessOptions>) -> (r: PngxBridgeLosslessOptions)
    ensures
        r == (match options {
            Some(o) => o,
            None => PngxBridgeLosslessOptions::spec_default(),
        }),
{
    match options {
        Some(o) => o,
        None => PngxBridgeLosslessOptions::default(),
    }
}

/// Converts the boundary's options into the optimizer's: the preset tier,
/// safe chunk stripping when asked for (otherwise the presets' choice, which
/// keeps every chunk), and the alpha flag.
pub fn convert_lossless_options(opts: &PngxBridgeLosslessOptions) -> (r: OptimizerSettings)
    ensures
        r.preset == opts.optimization_level,
        r.strip == (if opts.strip_safe { StripMode::Safe } else { StripMode::Keep }),
        r.optimize_alpha == opts.optimize_alpha,
{
    let strip = if opts.strip_safe { StripMode::Safe } else { StripMode::Keep };
    OptimizerSettings { preset: opts.optimization_level, strip, optimize_alpha: opts.optimize_alpha }
}

/// The bytes handed back: the optimizer's output when it produced one, and
/// otherwise (it reported an error or faulted) the input, byte for byte.
pub fn lossless_output(input: &[u8], optimized: Option<Vec<u8>>) -> (r: Vec<u8>)
    ensures
        r@ == (match optimized {
            Some(v) => v@,
            None => input@,
        }),
{
    match optimized {
        Some(v) => v,
        None => {
            let mut copy: Vec<u8> = Vec::new();
            let mut i: usize = 0;
            while i < input.len()
                invariant
                    i <= input@.len(),
                    copy@ == input@.subrange(0, i as int),
                decreases input@.len() - i,
            {
                copy.push(input[i]);
                i = i + 1;
            }
            assert(copy@ =~= input@);
            copy
        },
    }
}

} // verus!
