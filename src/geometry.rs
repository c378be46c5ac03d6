use vstd::prelude::*;

verus! {

/// Squared length of the 2D vector `(x, y)`.
pub open spec fn magnitude2_sq(x: int, y: int) -> int {
    x * x + y * y
}

/// Squared length of the 3D vector `(x, y, z)`.
pub open spec fn magnitude3_sq(x: int, y: int, z: int) -> int {
    x * x + y * y + z * z
}

/// Sum of a sequence of values.
pub open spec fn sum_of(s: Seq<u32>) -> int
    decreases s.len(),
{
    if s.len() == 0 {
        0
    } else {
        sum_of(s.drop_last()) + s.last() as int
    }
}

/// Arithmetic mean of a non-empty sequence, truncated.
pub open spec fn mean_of(s: Seq<u32>) -> int
    recommends
        s.len() > 0,
{
    sum_of(s) / (s.len() as int)
}

/// The mean of an empty collection was asked for.
#[derive(Clone, Copy, Debug, PartialEq, Eq, Structural)]
pub struct EmptyInputError;

proof fn lemma_square_fits(x: int)
    requires
        -0x8000_0000_0000_0000 <= x <= 0x7fff_ffff_ffff_ffff,
    ensures
        0 <= x * x <= 0x4000_0000_0000_0000_0000_0000_0000_0000,
{
    assert(0 <= x * x <= 0x4000_0000_0000_0000_0000_0000_0000_0000) by (nonlinear_arith)
        requires
            -0x8000_0000_0000_0000 <= x <= 0x7fff_ffff_ffff_ffff,
    ;
}

/// Squared length of the 2D vector `(x, y)`; the length itself is compared in
/// squared form by every caller.
pub fn vector2_magnitude_squared(x: i64, y: i64) -> (r: u128)
    ensures
        r as int == magnitude2_sq(x as int, y as int),
{
    proof {
        lemma_square_fits(x as int);
        lemma_square_fits(y as int);
    }
    let xx: i128 = (x as i128) * (x as i128);
    let yy: i128 = (y as i128) * (y as i128);
    (xx as u128) + (yy as u128)
}

/// Squared length of the 3D vector `(x, y, z)`.
pub fn vector3_magnitude_squared(x: i64, y: i64, z: i64) -> (r: u128)
    ensures
        r as int == magnitude3_sq(x as int, y as int, z as int),
{
    proof {
        lemma_square_fits(x as int);
        lemma_square_fits(y as int);
        lemma_square_fits(z as int);
    }
    let xy = vector2_magnitude_squared(x, y);
    let zz: i128 = (z as i128) * (z as i128);
    xy + (zz as u128)
}

/// Arithmetic mean of `arr`, truncated toward zero; fails on an empty slice.
pub fn get_mean(arr: &[u32]) -> (r: Result<u32, EmptyInputError>)
    ensures
        arr@.len() == 0 <==> r is Err,
        arr@.len() > 0 ==> r == Ok::<u32, EmptyInputError>(mean_of(arr@) as u32)
            && 0 <= mean_of(arr@) <= u32::MAX,
{
    if arr.len() == 0 {
        return Err(EmptyInputError);
    }
    let mut total: u128 = 0;
    let mut i: usize = 0;
    while i < arr.len()
        invariant
            i <= arr@.len(),
            total as int == sum_of(arr@.take(i as int)),
            total <= i * 0xffff_ffffu128,
        decreases arr@.len() - i,
    {
        assert(arr@.take(i + 1).drop_last() == arr@.take(i as int));
        total = total + arr[i] as u128;
        i = i + 1;
    }
    assert(arr@.take(arr@.len() as int) == arr@);
    let n = arr.len() as u128;
    let m = total / n;
    assert(m <= 0xffff_ffff) by (nonlinear_arith)
        requires
            m == total / n,
            total <= n * 0xffff_ffff,
            n > 0,
    ;
    Ok(m as u32)
}

} // verus!
