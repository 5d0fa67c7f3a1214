//! Conversion between surface units and pixel units.
//!
//! The ratio between the two is the DPI factor `dpi / DEFAULT_DPI`.  Every
//! conversion rounds upward, so that scaling never loses the last row or
//! column of content.

use vstd::prelude::*;

verus! {

/// The density at which one surface unit covers exactly one pixel.
pub const DEFAULT_DPI: u64 = 96;

/// The least integer `q` with `q * b >= a`, for positive `b`.
pub open spec fn ceil_div(a: int, b: int) -> int {
    (a + b - 1) / b
}

/// `ceil(units * dpi / DEFAULT_DPI)` over the mathematical integers.
pub open spec fn surface_to_pixels_spec(units: int, dpi: int) -> int {
    ceil_div(units * dpi, DEFAULT_DPI as int)
}

/// `ceil(units * DEFAULT_DPI / dpi)` over the mathematical integers.
pub open spec fn pixels_to_surface_spec(units: int, dpi: int) -> int {
    ceil_div(units * DEFAULT_DPI as int, dpi)
}

/// A non-negative quantity cut off at the largest `u32`.
pub open spec fn saturate(v: int) -> int {
    if v > u32::MAX as int {
        u32::MAX as int
    } else {
        v
    }
}

/// The largest multiple of `increment` that does not exceed `pixels`.
pub open spec fn snap_spec(pixels: int, increment: int) -> int {
    pixels - pixels % increment
}

/// A pixel length snapped down to the increment, then carried to surface
/// units and back, so that it is again the image of a surface length.
pub open spec fn snapped_pixels_spec(pixels: int, increment: int, dpi: int) -> int {
    saturate(
        surface_to_pixels_spec(
            saturate(pixels_to_surface_spec(snap_spec(pixels, increment), dpi)),
            dpi,
        ),
    )
}

/// `ceil_div` is the ceiling of the quotient: it is the one integer `q` with
/// `(q - 1) * b < a <= q * b`.
pub proof fn lemma_ceil_div_is_ceiling(a: int, b: int)
    requires
        b > 0,
    ensures
        ceil_div(a, b) * b >= a,
        (ceil_div(a, b) - 1) * b < a,
        forall|q: int| #[trigger] (q * b) >= a ==> q >= ceil_div(a, b),
{
    let c = ceil_div(a, b);
    assert(c * b >= a && (c - 1) * b < a) by (nonlinear_arith)
        requires
            b > 0,
            c == (a + b - 1) / b,
    ;
    assert forall|q: int| #[trigger] (q * b) >= a implies q >= c by {
        assert(q >= c) by (nonlinear_arith)
            requires
                b > 0,
                q * b >= a,
                (c - 1) * b < a,
        ;
    }
}

/// Going from surface units to pixels and back never yields less than the
/// surface length one started from, whatever the (positive) DPI.
pub proof fn lemma_round_trip_never_shrinks(units: int, dpi: int)
    requires
        dpi > 0,
    ensures
        pixels_to_surface_spec(surface_to_pixels_spec(units, dpi), dpi) >= units,
{
    let p = surface_to_pixels_spec(units, dpi);
    let s = pixels_to_surface_spec(p, dpi);
    lemma_ceil_div_is_ceiling(units * dpi, 96);
    lemma_ceil_div_is_ceiling(p * 96, dpi);
    assert(s >= units) by (nonlinear_arith)
        requires
            dpi > 0,
            p * 96 >= units * dpi,
            s * dpi >= p * 96,
    ;
}

/// The same law for the executable, saturating conversions: as long as the
/// pixel length itself fits, the way back does not fall below the start.
pub proof fn lemma_saturating_round_trip_never_shrinks(units: u32, dpi: u64)
    requires
        dpi > 0,
        surface_to_pixels_spec(units as int, dpi as int) <= u32::MAX,
    ensures
        saturate(
            pixels_to_surface_spec(saturate(surface_to_pixels_spec(units as int, dpi as int)), dpi as int),
        ) >= units,
{
    lemma_round_trip_never_shrinks(units as int, dpi as int);
}

/// At the reference density both conversions are the identity.
pub proof fn lemma_unit_factor_is_identity(units: int)
    ensures
        surface_to_pixels_spec(units, DEFAULT_DPI as int) == units,
        pixels_to_surface_spec(units, DEFAULT_DPI as int) == units,
{
    assert((units * 96 + 96 - 1) / 96 == units);
}

/// Snapping yields a multiple of the increment, less than one increment
/// below the length that was snapped.
pub proof fn lemma_snap_is_multiple(pixels: int, increment: int)
    requires
        increment > 0,
    ensures
        snap_spec(pixels, increment) % increment == 0,
        pixels - increment < snap_spec(pixels, increment) <= pixels,
{
    vstd::arithmetic::div_mod::lemma_fundamental_div_mod(pixels, increment);
    vstd::arithmetic::div_mod::lemma_mod_multiples_basic(pixels / increment, increment);
    assert(0 <= pixels % increment < increment) by (nonlinear_arith)
        requires
            increment > 0,
    ;
    assert(pixels - pixels % increment == (pixels / increment) * increment) by (nonlinear_arith)
        requires
            pixels == increment * (pixels / increment) + pixels % increment,
    ;
}

/// Converts a length in surface units to pixels, rounding upward.  The result
/// is cut off at `u32::MAX`.
pub fn surface_to_pixels(surface: u32, dpi: u64) -> (pixels: u32)
    ensures
        pixels as int == saturate(surface_to_pixels_spec(surface as int, dpi as int)),
{
    assert(surface as int * dpi as int <= 0xffff_ffff * 0xffff_ffff_ffff_ffff) by (nonlinear_arith)
        requires
            0 <= surface as int <= 0xffff_ffff,
            0 <= dpi as int <= 0xffff_ffff_ffff_ffff,
    ;
    assert(surface as int * dpi as int >= 0) by (nonlinear_arith)
        requires
            0 <= surface as int,
            0 <= dpi as int,
    ;
    let scaled: u128 = surface as u128 * dpi as u128;
    let rounded: u128 = (scaled + 95) / 96;
    if rounded > u32::MAX as u128 {
        u32::MAX
    } else {
        rounded as u32
    }
}

/// Converts a length in pixels to surface units, rounding upward.  The result
/// is cut off at `u32::MAX`.
pub fn pixels_to_surface(pixels: u32, dpi: u64) -> (surface: u32)
    requires
        dpi > 0,
    ensures
        surface as int == saturate(pixels_to_surface_spec(pixels as int, dpi as int)),
{
    let scaled: u128 = pixels as u128 * 96;
    let rounded: u128 = (scaled + (dpi as u128 - 1)) / dpi as u128;
    if rounded > u32::MAX as u128 {
        u32::MAX
    } else {
        rounded as u32
    }
}

/// Snaps a pixel length down to a multiple of `increment` and carries it
/// through surface units and back.
pub fn snap_to_increment(pixels: u32, increment: u16, dpi: u64) -> (snapped: u32)
    requires
        increment > 0,
        dpi > 0,
    ensures
        snapped as int == snapped_pixels_spec(pixels as int, increment as int, dpi as int),
{
    let step: u32 = increment as u32;
    let excess: u32 = pixels % step;
    assert(excess <= pixels) by (nonlinear_arith)
        requires
            step > 0,
            excess == pixels % step,
    ;
    let desired: u32 = pixels - excess;
    let surface: u32 = pixels_to_surface(desired, dpi);
    surface_to_pixels(surface, dpi)
}

} // verus!
