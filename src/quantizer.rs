//! The palette quantizer (the imagequant crate), as this library relies on it.
//! The palette search and the remapping are called by the host behind a
//! panic catch, so they have no wrapper here.
//! Every item here is trusted: its contract states what imagequant's source
//! shows, and nothing checks it but a reader.
use crate::types::RgbaColor;
use vstd::prelude::*;

verus! {

#[verifier::external_type_specification]
#[verifier::external_body]
pub struct ExAttributes(imagequant::Attributes);

#[verifier::external_type_specification]
#[verifier::external_body]
pub struct ExImage<'a>(imagequant::Image<'a>);

#[verifier::external_type_specification]
#[verifier::external_body]
pub struct ExQuantizationResult(imagequant::QuantizationResult);

/// imagequant's error codes, with their variants visible so that verified
/// code can tell a missed quality floor from the other failures.
#[verifier::external_type_specification]
pub struct ExIqError(imagequant::Error);

/// Relies on `imagequant::new`: a fresh set of quantizer settings.
#[verifier::external_body]
pub(crate) fn new_attributes() -> (r: imagequant::Attributes) {
    imagequant::new()
}

/// Relies on `Attributes::set_speed`, which accepts exactly 1 to 10.
#[verifier::external_body]
pub(crate) fn set_speed(attr: &mut imagequant::Attributes, speed: i32) -> (r: Result<(), imagequant::Error>)
    ensures
        r is Ok <==> 1 <= speed <= 10,
{
    attr.set_speed(speed)
}

/// Relies on `Attributes::set_quality`, which accepts a target of at most 100
/// that is not below the minimum.
#[verifier::external_body]
pub(crate) fn set_quality(attr: &mut imagequant::Attributes, minimum: u8, target: u8) -> (r: Result<(), imagequant::Error>)
    ensures
        r is Ok <==> (target <= 100 && minimum <= target),
{
    attr.set_quality(minimum, target)
}

/// Relies on `Attributes::set_max_colors`, which accepts exactly 2 to 256.
#[verifier::external_body]
pub(crate) fn set_max_colors(attr: &mut imagequant::Attributes, colors: u32) -> (r: Result<(), imagequant::Error>)
    ensures
        r is Ok <==> 2 <= colors <= 256,
{
    attr.set_max_colors(colors)
}

/// Relies on `Attributes::set_min_posterization`, which accepts exactly 0 to 4.
#[verifier::external_body]
pub(crate) fn set_min_posterization(attr: &mut imagequant::Attributes, bits: u8) -> (r: Result<(), imagequant::Error>)
    ensures
        r is Ok <==> bits <= 4,
{
    attr.set_min_posterization(bits)
}

/// Relies on `Attributes::new_image`: an sRGB image (gamma 0) made from a
/// copy of the pixels, row-major, `width` pixels per row.
#[verifier::external_body]
pub(crate) fn new_image(attr: &imagequant::Attributes, pixels: &[RgbaColor], width: usize, height: usize) -> (r: Result<imagequant::Image<'static>, imagequant::Error>) {
    let copy: Vec<imagequant::RGBA> = pixels.iter().map(|p| imagequant::RGBA::new(p.r, p.g, p.b, p.a)).collect();
    attr.new_image(copy, width, height, Default::default())
}

/// Relies on `Image::set_importance_map`: per-pixel weights.
#[verifier::external_body]
pub(crate) fn set_importance_map(image: &mut imagequant::Image<'static>, map: Vec<u8>) -> (r: Result<(), imagequant::Error>) {
    image.set_importance_map(map)
}

/// Relies on `Image::add_fixed_color`: reserves a palette entry.
#[verifier::external_body]
pub(crate) fn add_fixed_color(image: &mut imagequant::Image<'static>, color: RgbaColor) -> (r: Result<(), imagequant::Error>) {
    image.add_fixed_color(imagequant::RGBA::new(color.r, color.g, color.b, color.a))
}

/// Relies on `QuantizationResult::quantization_quality`: a score of 0 to 100,
/// when one was computed.
#[verifier::external_body]
pub(crate) fn quantization_quality(result: &imagequant::QuantizationResult) -> (r: Option<u8>)
    ensures
        r matches Some(q) ==> q <= 100,
{
    result.quantization_quality()
}

} // verus!
