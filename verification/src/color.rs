//! Colours and the distance by which they are compared.

use vstd::prelude::*;

verus! {

/// A colour: three 8-bit channels, red, green and blue. Two colours are the
/// same when their channels are.
#[derive(Clone, Copy, Debug, PartialEq, Eq, Hash, Structural)]
pub struct Color {
    pub r: u8,
    pub g: u8,
    pub b: u8,
}

/// The colour with the given channels, for use in specifications.
pub open spec fn rgb(r: u8, g: u8, b: u8) -> Color {
    Color { r, g, b }
}

/// Squared Euclidean distance between two colours: the sum of the squared
/// differences of their channels, without root and without weights.
pub open spec fn distance(a: Color, b: Color) -> int {
    (a.r - b.r) * (a.r - b.r) + (a.g - b.g) * (a.g - b.g) + (a.b - b.b) * (a.b - b.b)
}

/// The largest value `distance` can take: three times 255 squared.
pub const MAX_DISTANCE: u32 = 195075;

/// The square of the difference of two channel values.
fn squared_difference(x: u8, y: u8) -> (d: u32)
    ensures
        d == (x - y) * (x - y),
        d <= 65025,
{
    let gap: u32 = if x >= y {
        (x - y) as u32
    } else {
        (y - x) as u32
    };
    assert(gap * gap == (x - y) * (x - y)) by (nonlinear_arith)
        requires
            gap == x - y || gap == y - x,
    ;
    assert(gap * gap <= 65025) by (nonlinear_arith)
        requires
            0 <= gap <= 255,
    ;
    gap * gap
}

impl Color {
    /// The colour with the given red, green and blue channels.
    pub fn new(r: u8, g: u8, b: u8) -> (c: Color)
        ensures
            c == rgb(r, g, b),
    {
        Color { r, g, b }
    }
}

/// Computes the squared Euclidean distance between `a` and `b`.
pub fn euclidean_distance(a: Color, b: Color) -> (d: u32)
    ensures
        d == distance(a, b),
        d <= MAX_DISTANCE,
{
    squared_difference(a.r, b.r) + squared_difference(a.g, b.g) + squared_difference(a.b, b.b)
}

/// The distance is symmetric, never negative, and zero exactly between a
/// colour and itself.
pub proof fn lemma_distance_metric(a: Color, b: Color)
    ensures
        distance(a, b) == distance(b, a),
        0 <= distance(a, b) <= MAX_DISTANCE,
        distance(a, b) == 0 <==> a == b,
{
    let dr: int = a.r - b.r;
    let dg: int = a.g - b.g;
    let db: int = a.b - b.b;
    assert(0 <= dr * dr <= 65025 && (dr * dr == 0 <==> dr == 0)) by (nonlinear_arith)
        requires
            -255 <= dr <= 255,
    ;
    assert(0 <= dg * dg <= 65025 && (dg * dg == 0 <==> dg == 0)) by (nonlinear_arith)
        requires
            -255 <= dg <= 255,
    ;
    assert(0 <= db * db <= 65025 && (db * db == 0 <==> db == 0)) by (nonlinear_arith)
        requires
            -255 <= db <= 255,
    ;
    assert((b.r - a.r) * (b.r - a.r) == dr * dr) by (nonlinear_arith)
        requires
            dr == a.r - b.r,
    ;
    assert((b.g - a.g) * (b.g - a.g) == dg * dg) by (nonlinear_arith)
        requires
            dg == a.g - b.g,
    ;
    assert((b.b - a.b) * (b.b - a.b) == db * db) by (nonlinear_arith)
        requires
            db == a.b - b.b,
    ;
}

} // verus!
