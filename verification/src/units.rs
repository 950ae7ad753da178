//! Fixed-point arithmetic on thousandths.

use vstd::prelude::*;

verus! {

/// One whole, in thousandths: one pixel as a length, and as a ratio the
/// scale of a wedge at rest, the progress of a slide that has arrived and an
/// opaque alpha.
pub const ONE: i64 = 1000;

/// `value` times the ratio `ratio`, rounded down to a whole unit.
pub open spec fn scaled(value: int, ratio: int) -> int {
    value * ratio / (ONE as int)
}

/// The point that lies the ratio `progress` of the way from `from` to `to`.
pub open spec fn lerp(from: int, to: int, progress: int) -> int {
    from + scaled(to - from, progress)
}

/// One thousandth of `amount`, rounded down.
pub fn thousandth(amount: i128) -> (q: i128)
    ensures
        q == amount as int / (ONE as int),
{
    let q: i128 = amount / 1000;
    if amount % 1000 < 0 {
        q - 1
    } else {
        q
    }
}

/// Half of `amount`, rounded down.
pub fn half(amount: i128) -> (q: i128)
    ensures
        q == amount as int / 2,
{
    let q: i128 = amount / 2;
    if amount % 2 < 0 {
        q - 1
    } else {
        q
    }
}

/// `value` times `ratio` thousandths, rounded down.
pub fn scale_by(value: i64, ratio: i64) -> (r: i128)
    ensures
        r == scaled(value as int, ratio as int),
{
    assert(-0x4000_0000_0000_0000_0000_0000_0000_0000 <= value * ratio
        <= 0x4000_0000_0000_0000_0000_0000_0000_0000) by (nonlinear_arith)
        requires
            -0x8000_0000_0000_0000 <= value <= 0x8000_0000_0000_0000,
            -0x8000_0000_0000_0000 <= ratio <= 0x8000_0000_0000_0000,
    ;
    thousandth((value as i128) * (ratio as i128))
}

/// A value between two others stays between them after interpolation, and
/// the ends of the way are exact.
pub proof fn lemma_lerp_between(from: int, to: int, progress: int)
    requires
        0 <= progress <= ONE,
    ensures
        from <= to ==> from <= lerp(from, to, progress) <= to,
        from >= to ==> from >= lerp(from, to, progress) >= to,
        lerp(from, to, 0) == from,
        lerp(from, to, ONE as int) == to,
{
    let d = to - from;
    assert(d >= 0 ==> 0 <= d * progress <= d * 1000) by (nonlinear_arith)
        requires
            0 <= progress <= 1000,
    ;
    assert(d <= 0 ==> 0 >= d * progress >= d * 1000) by (nonlinear_arith)
        requires
            0 <= progress <= 1000,
    ;
}

/// The point that lies `progress` thousandths of the way from `from` to
/// `to`.
pub fn interpolate(from: i64, to: i64, progress: i64) -> (r: i64)
    requires
        0 <= progress <= ONE,
    ensures
        r == lerp(from as int, to as int, progress as int),
{
    proof {
        lemma_lerp_between(from as int, to as int, progress as int);
    }
    let d: i128 = to as i128 - from as i128;
    let step: i128 = thousandth(d * (progress as i128));
    (from as i128 + step) as i64
}

} // verus!
