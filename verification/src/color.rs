//! Colours, as the renderer's own 32-bit colour type.
//!
//! The colour type belongs to the renderer and is opaque here.  What a colour
//! holds is named by `channels`, and the constructors below are the renderer's
//! own: their contracts are taken on trust from its source.

use vstd::prelude::*;
use egui::Color32;

verus! {

/// The renderer's colour type, `egui::Color32`, taken as it is: nothing here
/// looks inside a value of it.
#[verifier::external_type_specification]
#[verifier::external_body]
pub struct ExColor32(egui::Color32);

/// The four bytes that a colour holds: red, green, blue and alpha, the first
/// three already multiplied by the alpha.
pub uninterp spec fn channels(c: Color32) -> (u8, u8, u8, u8);

/// `Color32::from_rgb`: the opaque colour with the given red, green and blue.
/// Trusted: it stores the three bytes as given, with an alpha of 255.
#[verifier::external_body]
pub(crate) fn opaque_rgb(r: u8, g: u8, b: u8) -> (c: Color32)
    ensures
        channels(c) == (r, g, b, 255u8),
{
    Color32::from_rgb(r, g, b)
}

/// `Color32::from_gray`: the opaque grey of the given lightness.
/// Trusted: it stores the lightness in red, green and blue, with an alpha of
/// 255.
#[verifier::external_body]
pub(crate) fn opaque_gray(l: u8) -> (c: Color32)
    ensures
        channels(c) == (l, l, l, 255u8),
{
    Color32::from_gray(l)
}

/// `Color32::from_rgba_unmultiplied`: the colour given by red, green, blue and
/// a separate alpha.  Trusted: it stores the alpha as given; with an alpha of
/// 255 it stores red, green and blue as given, and with an alpha of 0 it
/// stores zeros.  For any other alpha the renderer scales red, green and blue
/// in floating point, and nothing is claimed of them.
#[verifier::external_body]
pub(crate) fn translucent_rgba(r: u8, g: u8, b: u8, a: u8) -> (c: Color32)
    ensures
        channels(c).3 == a,
        a == 255 ==> channels(c) == (r, g, b, 255u8),
        a == 0 ==> channels(c) == (0u8, 0u8, 0u8, 0u8),
{
    Color32::from_rgba_unmultiplied(r, g, b, a)
}

/// `Color32::TRANSPARENT`: the colour that paints nothing.
/// Trusted: all four of its bytes are zero.
#[verifier::external_body]
pub(crate) fn transparent() -> (c: Color32)
    ensures
        channels(c) == (0u8, 0u8, 0u8, 0u8),
{
    Color32::TRANSPARENT
}

} // verus!
