//! Parameter conversion, the quantization pipeline and the mapping of its
//! outcome onto the boundary's status and buffers.
use crate::quantizer;
use crate::types::{PngxBridgeQuantOutput, PngxBridgeQuantParams, PngxBridgeQuantStatus, RgbaColor};
use vstd::prelude::*;

verus! {

/// Why a quantization produced nothing.
#[derive(Debug, Clone, Copy, PartialEq, Eq, Structural)]
pub enum QuantizeError {
    /// The quality reached stayed below the requested minimum.
    QualityTooLow,
    /// Any other failure: bad geometry, a rejected setting, or an error of
    /// the quantizer.
    Generic,
}

/// A finished quantization: the palette and indices when remapping was
/// asked for, and the quality score (-1 when unknown).
#[derive(Debug, Clone)]
pub struct QuantizeOutcome {
    pub palette: Option<Vec<RgbaColor>>,
    pub indices: Option<Vec<u8>>,
    pub quality: i32,
}

/// The parameters as plain mathematical values.
pub struct QuantParamsView {
    pub speed: i32,
    pub quality_min: u8,
    pub quality_max: u8,
    pub max_colors: u32,
    pub min_posterization: i32,
    pub importance_map: Option<Seq<u8>>,
    pub fixed_colors: Seq<RgbaColor>,
    pub remap: bool,
}

impl View for PngxBridgeQuantParams {
    type V = QuantParamsView;

    open spec fn view(&self) -> QuantParamsView {
        QuantParamsView {
            speed: self.speed,
            quality_min: self.quality_min,
            quality_max: self.quality_max,
            max_colors: self.max_colors,
            min_posterization: self.min_posterization,
            importance_map: match self.importance_map {
                Some(m) => Some(m@),
                None => None,
            },
            fixed_colors: self.fixed_colors@,
            remap: self.remap,
        }
    }
}

/// What the quantizer is configured with.
#[derive(Debug, Clone)]
pub struct QuantSettings {
    pub speed: i32,
    pub quality_min: u8,
    pub quality_target: u8,
    pub max_colors: u32,
    /// `None` leaves the quantizer's default.
    pub posterization: Option<u8>,
    /// Attached to the image when present.
    pub importance_map: Option<Vec<u8>>,
    pub fixed_colors: Vec<RgbaColor>,
}

pub struct QuantSettingsView {
    pub speed: i32,
    pub quality_min: u8,
    pub quality_target: u8,
    pub max_colors: u32,
    pub posterization: Option<u8>,
    pub importance_map: Option<Seq<u8>>,
    pub fixed_colors: Seq<RgbaColor>,
}

impl View for QuantSettings {
    type V = QuantSettingsView;

    open spec fn view(&self) -> QuantSettingsView {
        QuantSettingsView {
            speed: self.speed,
            quality_min: self.quality_min,
            quality_target: self.quality_target,
            max_colors: self.max_colors,
            posterization: self.posterization,
            importance_map: match self.importance_map {
                Some(m) => Some(m@),
                None => None,
            },
            fixed_colors: self.fixed_colors@,
        }
    }
}

/// The image is non-empty and holds exactly `width * height` pixels.
pub open spec fn geometry_ok(pixel_count: int, width: int, height: int) -> bool {
    width > 0 && height > 0 && pixel_count == width * height
}

/// The quality target: the requested maximum, raised to the minimum.
pub open spec fn quality_target(p: QuantParamsView) -> u8 {
    if p.quality_max < p.quality_min { p.quality_min } else { p.quality_max }
}

/// The settings that parameters give for an image of `pixel_count` pixels:
/// the quality target is never below the minimum, a negative posterization
/// means "unset" and a non-negative one is narrowed to eight bits, and an
/// importance map is kept only when it has one entry per pixel.
pub open spec fn settings_of(p: QuantParamsView, pixel_count: int) -> QuantSettingsView {
    QuantSettingsView {
        speed: p.speed,
        quality_min: p.quality_min,
        quality_target: quality_target(p),
        max_colors: p.max_colors,
        posterization: if p.min_posterization >= 0 { Some(p.min_posterization as u8) } else { None },
        importance_map: match p.importance_map {
            Some(m) => if m.len() == pixel_count { Some(m) } else { None },
            None => None,
        },
        fixed_colors: p.fixed_colors,
    }
}

/// Every setting lies in the range that the quantizer accepts.
pub open spec fn settings_accepted(s: QuantSettingsView) -> bool {
    &&& 1 <= s.speed <= 10
    &&& s.quality_target <= 100
    &&& s.quality_min <= s.quality_target
    &&& 2 <= s.max_colors <= 256
    &&& (s.posterization matches Some(b) ==> b <= 4)
}

/// Converts parameters into quantizer settings.
pub fn quant_settings(params: &PngxBridgeQuantParams, pixel_count: usize) -> (r: QuantSettings)
    ensures
        r@ == settings_of(params@, pixel_count as int),
{
    let quality_min = params.quality_min;
    let mut quality_target = params.quality_max;
    if quality_target < quality_min {
        quality_target = quality_min;
    }
    let posterization = if params.min_posterization >= 0 {
        Some(params.min_posterization as u8)
    } else {
        None
    };
    let importance_map = match &params.importance_map {
        Some(m) => if m.len() == pixel_count { Some(m.clone()) } else { None },
        None => None,
    };
    QuantSettings {
        speed: params.speed,
        quality_min,
        quality_target,
        max_colors: params.max_colors,
        posterization,
        importance_map,
        fixed_colors: params.fixed_colors.clone(),
    }
}

/// Whether `pixel_count` pixels make a `width` by `height` image; the
/// product is computed without overflow.
pub fn geometry_matches(pixel_count: usize, width: usize, height: usize) -> (r: bool)
    ensures
        r == geometry_ok(pixel_count as int, width as int, height as int),
{
    if width == 0 || height == 0 {
        return false;
    }
    match width.checked_mul(height) {
        Some(n) => n == pixel_count,
        None => false,
    }
}

/// An image configured for quantization, before the palette search.
///
/// The host runs the search (`attr.quantize(&mut image)`) behind a panic
/// catch, since whether it can panic is not settled by imagequant's source,
/// and hands its outcome to `accept_quantized`.
pub struct PreparedImage {
    pub attr: imagequant::Attributes,
    pub image: imagequant::Image<'static>,
    /// The number of pixels of the image.
    pub pixel_count: usize,
    /// The largest palette that was asked for.
    pub max_colors: u32,
}

impl PreparedImage {
    pub open spec fn wf(&self) -> bool {
        2 <= self.max_colors <= 256
    }
}

/// A quantized image whose palette has been found but not yet applied.
///
/// The host may adjust `result` (its dithering level), then remaps the
/// pixels behind a panic catch and hands the outcome to `finish_quantize`.
pub struct QuantizedImage {
    pub image: imagequant::Image<'static>,
    pub result: imagequant::QuantizationResult,
    /// The score read from the result, or -1 when there is none.
    pub quality: i32,
    /// The number of pixels of the image.
    pub pixel_count: usize,
    /// The largest palette that was asked for.
    pub max_colors: u32,
}

impl QuantizedImage {
    pub open spec fn wf(&self) -> bool {
        &&& -1 <= self.quality <= 100
        &&& 2 <= self.max_colors <= 256
    }
}

/// How an error of the quantizer is reported: a missed quality floor keeps
/// its meaning, every other error is generic.
pub open spec fn error_kind(e: imagequant::Error) -> QuantizeError {
    if e == imagequant::Error::QualityTooLow {
        QuantizeError::QualityTooLow
    } else {
        QuantizeError::Generic
    }
}

/// Maps an error of the quantizer onto the boundary's error.
pub fn classify_error(e: imagequant::Error) -> (r: QuantizeError)
    ensures
        r == error_kind(e),
{
    match e {
        imagequant::Error::QualityTooLow => QuantizeError::QualityTooLow,
        _ => QuantizeError::Generic,
    }
}

/// The quality reported for a palette: the quantizer's score, or -1 when it
/// computed none.
pub fn quality_score(q: Option<u8>) -> (r: i32)
    ensures
        r == (match q {
            Some(v) => v as int,
            None => -1int,
        }),
{
    match q {
        Some(v) => v as i32,
        None => -1,
    }
}

/// Reserves each fixed color in the palette of `image`; the first refusal
/// of the quantizer stops with a generic error.
pub fn register_fixed_colors(image: &mut imagequant::Image<'static>, colors: &[RgbaColor]) -> (r: Result<(), QuantizeError>)
    ensures
        r is Err ==> r == Err::<(), QuantizeError>(QuantizeError::Generic),
{
    let mut i: usize = 0;
    while i < colors.len()
        invariant
            i <= colors@.len(),
        decreases colors@.len() - i,
    {
        if quantizer::add_fixed_color(image, colors[i]).is_err() {
            return Err(QuantizeError::Generic);
        }
        i = i + 1;
    }
    Ok(())
}

/// Configures the quantizer with `settings` and builds the image with its
/// importance map and fixed colors. Every failure here is generic.
pub fn prepare_with_settings(
    pixels: &[RgbaColor],
    width: usize,
    height: usize,
    settings: &QuantSettings,
) -> (r: Result<PreparedImage, QuantizeError>)
    ensures
        !geometry_ok(pixels@.len() as int, width as int, height as int) ==> r is Err,
        !settings_accepted(settings@) ==> r is Err,
        r is Err ==> r == Err::<PreparedImage, QuantizeError>(QuantizeError::Generic),
        r matches Ok(p) ==> {
            &&& p.wf()
            &&& p.pixel_count == pixels@.len()
            &&& p.max_colors == settings.max_colors
        },
{
    if !geometry_matches(pixels.len(), width, height) {
        return Err(QuantizeError::Generic);
    }
    let mut attr = quantizer::new_attributes();
    if quantizer::set_speed(&mut attr, settings.speed).is_err() {
        return Err(QuantizeError::Generic);
    }
    if quantizer::set_quality(&mut attr, settings.quality_min, settings.quality_target).is_err() {
        return Err(QuantizeError::Generic);
    }
    if quantizer::set_max_colors(&mut attr, settings.max_colors).is_err() {
        return Err(QuantizeError::Generic);
    }
    if let Some(bits) = settings.posterization {
        if quantizer::set_min_posterization(&mut attr, bits).is_err() {
            return Err(QuantizeError::Generic);
        }
    }
    let mut image = match quantizer::new_image(&attr, pixels, width, height) {
        Ok(image) => image,
        Err(_) => return Err(QuantizeError::Generic),
    };
    if let Some(map) = &settings.importance_map {
        if quantizer::set_importance_map(&mut image, map.clone()).is_err() {
            return Err(QuantizeError::Generic);
        }
    }
    if register_fixed_colors(&mut image, settings.fixed_colors.as_slice()).is_err() {
        return Err(QuantizeError::Generic);
    }
    Ok(PreparedImage { attr, image, pixel_count: pixels.len(), max_colors: settings.max_colors })
}

/// Prepares a row-major RGBA image for quantization with the given
/// parameters. The parameters are read only through `quant_settings`.
pub fn prepare_quantization(
    pixels: &[RgbaColor],
    width: usize,
    height: usize,
    params: &PngxBridgeQuantParams,
) -> (r: Result<PreparedImage, QuantizeError>)
    ensures
        !geometry_ok(pixels@.len() as int, width as int, height as int) ==> r is Err,
        !settings_accepted(settings_of(params@, pixels@.len() as int)) ==> r is Err,
        r is Err ==> r == Err::<PreparedImage, QuantizeError>(QuantizeError::Generic),
        r matches Ok(p) ==> {
            &&& p.wf()
            &&& p.pixel_count == pixels@.len()
            &&& p.max_colors == params.max_colors
        },
{
    let settings = quant_settings(params, pixels.len());
    prepare_with_settings(pixels, width, height, &settings)
}

/// Takes the outcome of the palette search: its result, its error, or
/// `None` when it panicked. A missed quality floor is reported as such; any
/// other error and a panic are generic.
pub fn accept_quantized(
    prepared: PreparedImage,
    found: Option<Result<imagequant::QuantizationResult, imagequant::Error>>,
) -> (r: Result<QuantizedImage, QuantizeError>)
    requires
        prepared.wf(),
    ensures
        r is Ok <==> found matches Some(Ok(_)),
        found is None ==> r == Err::<QuantizedImage, QuantizeError>(QuantizeError::Generic),
        found matches Some(Err(e)) ==> r == Err::<QuantizedImage, QuantizeError>(error_kind(e)),
        r matches Ok(q) ==> {
            &&& q.wf()
            &&& q.pixel_count == prepared.pixel_count
            &&& q.max_colors == prepared.max_colors
        },
{
    let PreparedImage { attr, image, pixel_count, max_colors } = prepared;
    match found {
        None => Err(QuantizeError::Generic),
        Some(Err(e)) => Err(classify_error(e)),
        Some(Ok(result)) => {
            let quality = quality_score(quantizer::quantization_quality(&result));
            Ok(QuantizedImage { image, result, quality, pixel_count, max_colors })
        },
    }
}

/// A remapping has the shape asked for: one index per pixel and at most
/// `max_colors` palette entries.
pub open spec fn remap_shape_ok(palette: Seq<RgbaColor>, indices: Seq<u8>, pixel_count: int, max_colors: int) -> bool {
    indices.len() == pixel_count && palette.len() <= max_colors
}

/// Accepts a remapping of the shape asked for; anything else is a generic
/// error. imagequant always gives one index per pixel (`remap_into_vec`);
/// the check keeps a different answer from reaching the host.
pub fn accept_remapped(palette: Vec<RgbaColor>, indices: Vec<u8>, pixel_count: usize, max_colors: u32, quality: i32) -> (r: Result<QuantizeOutcome, QuantizeError>)
    ensures
        remap_shape_ok(palette@, indices@, pixel_count as int, max_colors as int) ==> r == Ok::<QuantizeOutcome, QuantizeError>(
            QuantizeOutcome { palette: Some(palette), indices: Some(indices), quality }),
        !remap_shape_ok(palette@, indices@, pixel_count as int, max_colors as int) ==> r == Err::<QuantizeOutcome, QuantizeError>(QuantizeError::Generic),
{
    if indices.len() != pixel_count || palette.len() > max_colors as usize {
        Err(QuantizeError::Generic)
    } else {
        Ok(QuantizeOutcome { palette: Some(palette), indices: Some(indices), quality })
    }
}

/// What finishing a quantization gives: without remapping, the quality
/// alone; with it, the remapped palette and indices when the host obtained
/// them in the shape asked for, and a generic error otherwise.
pub open spec fn finish_post(
    q: QuantizedImage,
    remap: bool,
    remapped: Option<(Vec<RgbaColor>, Vec<u8>)>,
    r: Result<QuantizeOutcome, QuantizeError>,
) -> bool {
    if !remap {
        r == Ok::<QuantizeOutcome, QuantizeError>(QuantizeOutcome { palette: None, indices: None, quality: q.quality })
    } else {
        match remapped {
            None => r == Err::<QuantizeOutcome, QuantizeError>(QuantizeError::Generic),
            Some((p, ix)) => if remap_shape_ok(p@, ix@, q.pixel_count as int, q.max_colors as int) {
                r == Ok::<QuantizeOutcome, QuantizeError>(QuantizeOutcome { palette: Some(p), indices: Some(ix), quality: q.quality })
            } else {
                r == Err::<QuantizeOutcome, QuantizeError>(QuantizeError::Generic)
            },
        }
    }
}

/// Finishes a quantization. Without `remap` only the quality is reported,
/// and the costly remapping is not needed. With it, `remapped` is the
/// palette and indices that the host's remapping call gave, or `None` when
/// that call failed or panicked.
pub fn finish_quantize(q: &QuantizedImage, remap: bool, remapped: Option<(Vec<RgbaColor>, Vec<u8>)>) -> (r: Result<QuantizeOutcome, QuantizeError>)
    ensures
        finish_post(*q, remap, remapped, r),
{
    if !remap {
        return Ok(QuantizeOutcome { palette: None, indices: None, quality: q.quality });
    }
    match remapped {
        None => Err(QuantizeError::Generic),
        Some((palette, indices)) => accept_remapped(palette, indices, q.pixel_count, q.max_colors, q.quality),
    }
}

/// What the boundary reports for an outcome: its status and buffers.
pub open spec fn status_of(r: Result<QuantizeOutcome, QuantizeError>) -> PngxBridgeQuantStatus {
    match r {
        Ok(_) => PngxBridgeQuantStatus::Success,
        Err(QuantizeError::QualityTooLow) => PngxBridgeQuantStatus::QualityTooLow,
        Err(QuantizeError::Generic) => PngxBridgeQuantStatus::Error,
    }
}

pub open spec fn palette_seq(o: QuantizeOutcome) -> Seq<RgbaColor> {
    match o.palette {
        Some(p) => p@,
        None => Seq::empty(),
    }
}

pub open spec fn indices_seq(o: QuantizeOutcome) -> Seq<u8> {
    match o.indices {
        Some(ix) => ix@,
        None => Seq::empty(),
    }
}

/// The buffers and score that the boundary hands back for an outcome: those
/// of the outcome on success, none and -1 on failure.
pub open spec fn output_matches(r: Result<QuantizeOutcome, QuantizeError>, out: PngxBridgeQuantOutput) -> bool {
    match r {
        Ok(o) => out.palette@ == palette_seq(o) && out.indices@ == indices_seq(o) && out.quality == o.quality,
        Err(_) => out.palette@.len() == 0 && out.indices@.len() == 0 && out.quality == -1,
    }
}

/// Maps a quantization outcome onto the boundary's status and output.
pub fn quant_output(r: Result<QuantizeOutcome, QuantizeError>) -> (res: (PngxBridgeQuantStatus, PngxBridgeQuantOutput))
    ensures
        res.0 == status_of(r),
        output_matches(r, res.1),
{
    match r {
        Ok(o) => {
            let palette = match o.palette {
                Some(p) => p,
                None => Vec::new(),
            };
            let indices = match o.indices {
                Some(ix) => ix,
                None => Vec::new(),
            };
            (PngxBridgeQuantStatus::Success, PngxBridgeQuantOutput { palette, indices, quality: o.quality })
        },
        Err(QuantizeError::QualityTooLow) => (PngxBridgeQuantStatus::QualityTooLow, PngxBridgeQuantOutput::empty()),
        Err(QuantizeError::Generic) => (PngxBridgeQuantStatus::Error, PngxBridgeQuantOutput::empty()),
    }
}

/// A quality maximum below the minimum is raised to the minimum: the
/// quantizer is configured exactly as if the maximum had been given equal to
/// the minimum.
pub proof fn law_quality_max_raised(p: QuantParamsView, same_as_min: QuantParamsView, pixel_count: int)
    requires
        p.quality_max < p.quality_min,
        same_as_min == (QuantParamsView { quality_max: p.quality_min, ..p }),
    ensures
        settings_of(p, pixel_count) == settings_of(same_as_min, pixel_count),
{
}

/// An importance map whose length is not the pixel count is ignored: the
/// quantizer is configured exactly as if no map had been given.
pub proof fn law_mismatched_importance_map_ignored(p: QuantParamsView, without_map: QuantParamsView, pixel_count: int)
    requires
        p.importance_map matches Some(m) && m.len() != pixel_count,
        without_map == (QuantParamsView { importance_map: None, ..p }),
    ensures
        settings_of(p, pixel_count) == settings_of(without_map, pixel_count),
{
}

/// Without remapping, the boundary hands back neither a palette nor indices,
/// whatever else happened, and the quality is a score or -1.
pub proof fn law_no_remap_no_buffers(
    q: QuantizedImage,
    remapped: Option<(Vec<RgbaColor>, Vec<u8>)>,
    r: Result<QuantizeOutcome, QuantizeError>,
    out: PngxBridgeQuantOutput,
)
    requires
        q.wf(),
        finish_post(q, false, remapped, r) || r is Err,
        output_matches(r, out),
    ensures
        out.palette@.len() == 0,
        out.indices@.len() == 0,
        -1 <= out.quality <= 100,
{
}

/// A successful remapping hands back one index per pixel and a palette of at
/// most the requested number of colors, with status success.
pub proof fn law_remap_output_shape(
    q: QuantizedImage,
    remapped: Option<(Vec<RgbaColor>, Vec<u8>)>,
    r: Result<QuantizeOutcome, QuantizeError>,
    out: PngxBridgeQuantOutput,
)
    requires
        q.wf(),
        finish_post(q, true, remapped, r),
        r is Ok,
        output_matches(r, out),
    ensures
        status_of(r) == PngxBridgeQuantStatus::Success,
        out.indices@.len() == q.pixel_count,
        out.palette@.len() <= q.max_colors,
{
}

/// An image whose pixel count is not `width * height`, or with an empty
/// side, gives status error and no buffers.
pub proof fn law_bad_geometry_is_error(pixel_count: int, width: int, height: int, r: Result<QuantizeOutcome, QuantizeError>, out: PngxBridgeQuantOutput)
    requires
        !geometry_ok(pixel_count, width, height),
        r == Err::<QuantizeOutcome, QuantizeError>(QuantizeError::Generic),
        output_matches(r, out),
    ensures
        status_of(r) == PngxBridgeQuantStatus::Error,
        out.palette@.len() == 0,
        out.indices@.len() == 0,
        out.quality == -1,
{
}

} // verus!
