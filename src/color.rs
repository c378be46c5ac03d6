use vstd::prelude::*;

use crate::geometry::{magnitude3_sq, vector3_magnitude_squared};

verus! {

/// A colour as three 8-bit channels.
#[derive(Clone, Copy, Debug, PartialEq, Eq, Structural)]
pub struct RgbColor {
    pub r: u8,
    pub g: u8,
    pub b: u8,
}

/// Squared Euclidean distance between two colours, the channels taken as
/// coordinates of a 3D vector.
pub open spec fn distance_sq(a: RgbColor, b: RgbColor) -> int {
    let dr = b.r as int - a.r as int;
    let dg = b.g as int - a.g as int;
    let db = b.b as int - a.b as int;
    dr * dr + dg * dg + db * db
}

/// `a` lies strictly below `b` in every channel.
pub open spec fn dominated_by(a: RgbColor, b: RgbColor) -> bool {
    a.r < b.r && a.g < b.g && a.b < b.b
}

impl RgbColor {
    /// Dominance comparison: `Less` when every channel of `self` is below the
    /// matching channel of `other`, `Greater` when every channel is above, and
    /// `Equal` otherwise. This is a partial order flattened into `Ordering`:
    /// colours that neither dominate nor are dominated compare `Equal`, so it
    /// must not be used to sort.
    pub fn cmp(&self, other: &RgbColor) -> (r: core::cmp::Ordering)
        ensures
            r == core::cmp::Ordering::Less <==> dominated_by(*self, *other),
            r == core::cmp::Ordering::Greater <==> dominated_by(*other, *self),
            r == core::cmp::Ordering::Equal <==> !dominated_by(*self, *other)
                && !dominated_by(*other, *self),
    {
        if self.r < other.r && self.g < other.g && self.b < other.b {
            core::cmp::Ordering::Less
        } else if self.r > other.r && self.g > other.g && self.b > other.b {
            core::cmp::Ordering::Greater
        } else {
            core::cmp::Ordering::Equal
        }
    }
}

/// Squared colour distance between `a` and `b`: the squared length of the
/// vector of signed channel differences. It is 0 exactly for equal colours and
/// at most `3 * 255 * 255`.
pub fn get_color_distance_squared(a: RgbColor, b: RgbColor) -> (r: u32)
    ensures
        r as int == distance_sq(a, b),
        r <= 195075,
{
    let d = vector3_magnitude_squared(
        (b.r as i64) - (a.r as i64),
        (b.g as i64) - (a.g as i64),
        (b.b as i64) - (a.b as i64),
    );
    proof {
        lemma_distance_sq_bounds(a, b);
    }
    d as u32
}

proof fn lemma_distance_sq_bounds(a: RgbColor, b: RgbColor)
    ensures
        0 <= distance_sq(a, b) <= 195075,
        distance_sq(a, b) == magnitude3_sq(
            b.r as int - a.r as int,
            b.g as int - a.g as int,
            b.b as int - a.b as int,
        ),
{
    let dr = b.r as int - a.r as int;
    let dg = b.g as int - a.g as int;
    let db = b.b as int - a.b as int;
    assert(0 <= dr * dr <= 65025 && 0 <= dg * dg <= 65025 && 0 <= db * db <= 65025)
        by (nonlinear_arith)
        requires
            -255 <= dr <= 255,
            -255 <= dg <= 255,
            -255 <= db <= 255,
    ;
}

/// A colour is at distance zero from itself.
pub proof fn lemma_distance_to_self_is_zero(a: RgbColor)
    ensures
        distance_sq(a, a) == 0,
{
}

/// Colour distance does not depend on the order of its arguments.
pub proof fn lemma_distance_symmetric(a: RgbColor, b: RgbColor)
    ensures
        distance_sq(a, b) == distance_sq(b, a),
{
    let dr = b.r as int - a.r as int;
    let dg = b.g as int - a.g as int;
    let db = b.b as int - a.b as int;
    assert(dr * dr == (-dr) * (-dr) && dg * dg == (-dg) * (-dg) && db * db == (-db) * (-db))
        by (nonlinear_arith);
}

} // verus!
