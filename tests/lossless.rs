use pngx_bridge::{
    convert_lossless_options, lossless_output, resolve_lossless_options,
    OptimizerSettings, PngxBridgeLosslessOptions, PngxResult, StripMode, WasmLosslessOptions,
};

/// Runs oxipng with the options that the library's settings describe.
fn optimize_lossless(input: &[u8], opts: &PngxBridgeLosslessOptions) -> Result<Vec<u8>, oxipng::PngError> {
    let settings = convert_lossless_options(opts);
    let mut options = oxipng::Options::from_preset(settings.preset);
    options.strip = match settings.strip {
        StripMode::Keep => oxipng::StripChunks::None,
        StripMode::Safe => oxipng::StripChunks::Safe,
    };
    options.optimize_alpha = settings.optimize_alpha;
    oxipng::optimize_from_memory(input, &options)
}

const PNG_SIGNATURE: [u8; 8] = [137, 80, 78, 71, 13, 10, 26, 10];

/// An 8x8 gray ramp stored without compression, with a text chunk.
fn loose_png() -> Vec<u8> {
    let mut png = vec![137, 80, 78, 71, 13, 10, 26, 10, 0, 0, 0, 13, 73, 72, 68, 82, 0, 0, 0, 8, 0, 0, 0, 8, 8, 2, 0, 0, 0, 75, 109, 41, 220, 0, 0, 0, 20, 116, 69, 88, 116, 67, 111, 109, 109, 101, 110, 116, 0, 109, 97, 100, 101, 32, 98, 121, 32, 104, 97, 110, 100, 44, 168, 250, 41, 0, 0, 0, 211, 73, 68, 65, 84, 120, 1, 1, 200, 0, 55, 255];
    for _ in 0..8 {
        png.extend_from_slice(&[0, 0, 0, 0, 16, 16, 16, 32, 32, 32, 48, 48, 48, 64, 64, 64, 80, 80, 80, 96, 96, 96, 112, 112, 112]);
    }
    png.extend_from_slice(&[172, 169, 42, 1, 151, 206, 14, 17, 0, 0, 0, 0, 73, 69, 78, 68, 174, 66, 96, 130]);
    png
}

/// A 1x1 gray image that is already small.
fn tiny_png() -> Vec<u8> {
    vec![137, 80, 78, 71, 13, 10, 26, 10, 0, 0, 0, 13, 73, 72, 68, 82, 0, 0, 0, 1, 0, 0, 0, 1, 8, 4, 0, 0, 0, 181, 28, 12, 2, 0, 0, 0, 11, 73, 68, 65, 84, 120, 218, 99, 100, 96, 0, 0, 0, 6, 0, 2, 48, 129, 208, 47, 0, 0, 0, 0, 73, 69, 78, 68, 174, 66, 96, 130]
}

/// Decodes a PNG into its size and RGBA pixels, whatever its color type.
fn decode_rgba(bytes: &[u8]) -> (u32, u32, Vec<[u8; 4]>) {
    let mut decoder = png::Decoder::new(bytes);
    decoder.set_transformations(png::Transformations::normalize_to_color8());
    let mut reader = decoder.read_info().expect("decodable PNG");
    let mut buf = vec![0u8; reader.output_buffer_size()];
    let info = reader.next_frame(&mut buf).expect("one frame");
    let data = &buf[..info.buffer_size()];
    let pixels = match info.color_type {
        png::ColorType::Grayscale => data.iter().map(|&g| [g, g, g, 255]).collect(),
        png::ColorType::GrayscaleAlpha => data.chunks_exact(2).map(|c| [c[0], c[0], c[0], c[1]]).collect(),
        png::ColorType::Rgb => data.chunks_exact(3).map(|c| [c[0], c[1], c[2], 255]).collect(),
        png::ColorType::Rgba => data.chunks_exact(4).map(|c| [c[0], c[1], c[2], c[3]]).collect(),
        png::ColorType::Indexed => panic!("palette left unexpanded"),
    };
    (info.width, info.height, pixels)
}

fn contains(haystack: &[u8], needle: &[u8]) -> bool {
    haystack.windows(needle.len()).any(|w| w == needle)
}

#[test]
fn lossless_status_codes_are_stable() {
    assert_eq!(PngxResult::Success.code(), 0);
    assert_eq!(PngxResult::InvalidInput.code(), 1);
    assert_eq!(PngxResult::OptimizationFailed.code(), 2);
    assert_eq!(PngxResult::IoError.code(), 3);
}

#[test]
fn default_lossless_options() {
    let d = PngxBridgeLosslessOptions::default();
    assert_eq!(d.optimization_level, 5);
    assert!(d.strip_safe);
    assert!(d.optimize_alpha);
    assert_eq!(resolve_lossless_options(None), d);
    let own = PngxBridgeLosslessOptions { optimization_level: 2, strip_safe: false, optimize_alpha: false };
    assert_eq!(resolve_lossless_options(Some(own)), own);
}

#[test]
fn conversion_sets_strip_and_alpha() {
    let on = convert_lossless_options(&PngxBridgeLosslessOptions { optimization_level: 3, strip_safe: true, optimize_alpha: true });
    assert_eq!(on, OptimizerSettings { preset: 3, strip: StripMode::Safe, optimize_alpha: true });
    let off = convert_lossless_options(&PngxBridgeLosslessOptions { optimization_level: 6, strip_safe: false, optimize_alpha: false });
    assert_eq!(off, OptimizerSettings { preset: 6, strip: StripMode::Keep, optimize_alpha: false });
}

#[test]
fn same_input_gives_the_same_output() {
    let input = loose_png();
    let opts = resolve_lossless_options(None);
    let a = optimize_lossless(&input, &opts).expect("a valid PNG is optimized");
    let b = optimize_lossless(&input, &opts).expect("a valid PNG is optimized");
    assert_eq!(a, b);
}

#[test]
fn optimizing_a_valid_png_shrinks_it_and_strips_text() {
    let input = loose_png();
    let opts = resolve_lossless_options(None);
    let optimized = optimize_lossless(&input, &opts).expect("a valid PNG is optimized");
    assert!(optimized.len() < input.len());
    assert_eq!(&optimized[..8], &PNG_SIGNATURE);
    assert!(!contains(&optimized, b"tEXt"));
    let out = lossless_output(&input, Some(optimized.clone()));
    assert_eq!(out, optimized);
}

#[test]
fn keeping_metadata_keeps_the_text_chunk() {
    let input = loose_png();
    let opts = PngxBridgeLosslessOptions { optimization_level: 2, strip_safe: false, optimize_alpha: false };
    let optimized = optimize_lossless(&input, &opts).expect("a valid PNG is optimized");
    assert!(contains(&optimized, b"tEXt"));
}

#[test]
fn already_small_png_stays_valid() {
    let input = tiny_png();
    let optimized = optimize_lossless(&input, &resolve_lossless_options(None)).expect("a valid PNG is optimized");
    assert!(optimized.len() <= input.len());
    assert_eq!(&optimized[..8], &PNG_SIGNATURE);
}

#[test]
fn malformed_input_falls_back_to_the_input() {
    let input: Vec<u8> = vec![1, 2, 3, 4, 5, 6, 7, 8, 9];
    let attempt = optimize_lossless(&input, &resolve_lossless_options(None));
    assert!(attempt.is_err());
    let out = lossless_output(&input, attempt.ok());
    assert_eq!(out, input);
}

#[test]
fn truncated_png_falls_back_to_the_input() {
    let mut input = loose_png();
    input.truncate(100);
    let attempt = optimize_lossless(&input, &resolve_lossless_options(None));
    assert!(attempt.is_err());
    assert_eq!(lossless_output(&input, attempt.ok()), input);
}

#[test]
fn empty_input_falls_back_to_empty_output() {
    let input: Vec<u8> = Vec::new();
    let attempt = optimize_lossless(&input, &resolve_lossless_options(None));
    assert!(attempt.is_err());
    assert!(lossless_output(&input, attempt.ok()).is_empty());
}

#[test]
fn managed_lossless_options_defaults_and_setters() {
    let mut o = WasmLosslessOptions::new();
    assert_eq!(o, WasmLosslessOptions::default());
    assert_eq!(o.to_bridge_options(), PngxBridgeLosslessOptions::default());
    o.set_optimization_level(1);
    o.set_strip_safe(false);
    o.set_optimize_alpha(false);
    let b = o.to_bridge_options();
    assert_eq!(b, PngxBridgeLosslessOptions { optimization_level: 1, strip_safe: false, optimize_alpha: false });
}

#[test]
fn optimized_png_decodes_to_the_same_pixels() {
    for input in [loose_png(), tiny_png()] {
        for level in [0u8, 2, 5, 6] {
            let opts = PngxBridgeLosslessOptions { optimization_level: level, strip_safe: true, optimize_alpha: false };
            let optimized = optimize_lossless(&input, &opts).expect("a valid PNG is optimized");
            let out = lossless_output(&input, Some(optimized));
            assert_eq!(decode_rgba(&out), decode_rgba(&input));
        }
    }
}
