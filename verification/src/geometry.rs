//! Ring geometry: angle normalisation and the wedge under the pointer.

use vstd::prelude::*;
use crate::error::MenuError;

verus! {

/// The number of angle units in one full turn, `2^64`.
///
/// An angle `a` stands for `a / FULL_TURN` turns, measured like `atan2`:
/// zero points along the positive x axis and a quarter turn along the
/// positive y axis.
pub const FULL_TURN: i128 = 18_446_744_073_709_551_616;

/// A quarter of a turn. A start angle of `-QUARTER_TURN` puts the boundary
/// between the last and the first wedge straight up on a screen whose y axis
/// points down.
pub const QUARTER_TURN: i128 = 4_611_686_018_427_387_904;

/// The representative of `angle` in `[0, FULL_TURN)`.
pub open spec fn normalized(angle: int) -> int {
    angle % (FULL_TURN as int)
}

/// The angle from `start` forward to `angle`, in `[0, FULL_TURN)`.
pub open spec fn relative_angle(angle: int, start: int) -> int {
    normalized(angle - start)
}

/// Brings an angle into `[0, FULL_TURN)` by removing whole turns.
pub fn normalize_angle(angle: i128) -> (r: i128)
    ensures
        r == normalized(angle as int),
        0 <= r < FULL_TURN,
{
    let r: i128 = angle % FULL_TURN;
    if r < 0 {
        r + FULL_TURN
    } else {
        r
    }
}

/// Normalising is idempotent: the result lies in `[0, FULL_TURN)`, every
/// angle in that range is left as it is, and so normalising a second time
/// changes nothing.
pub proof fn lemma_normalize_idempotent(angle: int)
    ensures
        0 <= normalized(angle) < FULL_TURN,
        0 <= angle < FULL_TURN ==> normalized(angle) == angle,
        normalized(normalized(angle)) == normalized(angle),
{
}

/// Measures `angle` from `start`: the result is how far one has to turn
/// forward from `start` to reach `angle`.
pub fn angle_from(angle: i128, start: i128) -> (r: i128)
    ensures
        r == relative_angle(angle as int, start as int),
        0 <= r < FULL_TURN,
{
    let a: i128 = normalize_angle(angle);
    let s: i128 = normalize_angle(start);
    if a >= s {
        a - s
    } else {
        a - s + FULL_TURN
    }
}

/// Whether a pointer that lies `(dx, dy)` from the centre misses the ring of
/// outer radius `radius`: its distance `d` is more than `radius`, or less
/// than the inner radius, which is four tenths of the outer one.
///
/// Both comparisons are made on squares, so they are exact: `d > radius` is
/// `d * d > radius * radius` (always so for a negative radius), and
/// `d < 0.4 * radius` is `25 * d * d < 4 * radius * radius` for a radius
/// that is not negative.
pub open spec fn outside_ring(dx: int, dy: int, radius: int) -> bool {
    let dist_sq = dx * dx + dy * dy;
    radius < 0 || dist_sq > radius * radius || 25 * dist_sq < 4 * radius * radius
}

proof fn lemma_square_of_abs(d: int, a: int)
    by (nonlinear_arith)
    requires
        a == d || a == -d,
    ensures
        a * a == d * d,
{
}

proof fn lemma_square_monotone(a: int, b: int)
    by (nonlinear_arith)
    requires
        0 <= a,
        0 <= b,
    ensures
        a <= b ==> a * a <= b * b,
        a < b ==> a * a < b * b,
{
}

/// Decides [`outside_ring`] for a pointer at `(x, y)` and a centre at
/// `(center_x, center_y)`, for any coordinates.
pub fn is_outside_ring(x: i64, y: i64, center_x: i64, center_y: i64, radius: i64) -> (r: bool)
    ensures
        r == outside_ring(x - center_x, y - center_y, radius as int),
{
    if radius < 0 {
        return true;
    }
    let dx: i128 = x as i128 - center_x as i128;
    let dy: i128 = y as i128 - center_y as i128;
    let ax: u128 = if dx < 0 { (-dx) as u128 } else { dx as u128 };
    let ay: u128 = if dy < 0 { (-dy) as u128 } else { dy as u128 };
    let rad: u128 = radius as u128;
    proof {
        lemma_square_of_abs(dx as int, ax as int);
        lemma_square_of_abs(dy as int, ay as int);
        lemma_square_monotone(rad as int, ax as int);
        lemma_square_monotone(rad as int, ay as int);
        lemma_square_monotone(ax as int, rad as int);
        lemma_square_monotone(ay as int, rad as int);
        lemma_square_monotone(rad as int, 0x7fff_ffff_ffff_ffff);
    }
    if ax > rad || ay > rad {
        return true;
    }
    let rad_sq: u128 = rad * rad;
    let dist_sq: u128 = ax * ax + ay * ay;
    if dist_sq > rad_sq {
        return true;
    }
    assert(4 * radius * radius == 4 * (radius * radius)) by (nonlinear_arith);
    dist_sq < (4 * rad_sq + 24) / 25
}

/// The wedge that holds the relative angle `rel` when the turn is cut into
/// `count` equal wedges: the whole part of `rel / (FULL_TURN / count)`.
pub open spec fn wedge_of(rel: int, count: int) -> int {
    rel * count / (FULL_TURN as int)
}

/// The relative angle at which wedge `index` of `count` begins: the least
/// angle unit that is not below `index * FULL_TURN / count`. Wedge `index`
/// ends where wedge `index + 1` begins.
pub open spec fn wedge_start(index: int, count: int) -> int {
    (index * FULL_TURN + count - 1) / count
}

/// The relative angle half way through wedge `index` of `count`.
pub open spec fn wedge_mid(index: int, count: int) -> int {
    (wedge_start(index, count) + wedge_start(index + 1, count)) / 2
}

proof fn lemma_floor_div_bounds(p: int, d: int)
    by (nonlinear_arith)
    requires
        d > 0,
    ensures
        (p / d) * d <= p < (p / d) * d + d,
{
}

proof fn lemma_floor_div_unique(p: int, d: int, q: int)
    by (nonlinear_arith)
    requires
        d > 0,
        q * d <= p < q * d + d,
    ensures
        p / d == q,
{
}

/// A boundary is at or below an angle exactly when the angle has reached
/// that many wedge widths.
proof fn lemma_wedge_start_le(index: int, count: int, rel: int)
    requires
        count > 0,
    ensures
        wedge_start(index, count) <= rel <==> index * FULL_TURN <= rel * count,
{
    let y = index * FULL_TURN + count - 1;
    let q = y / count;
    lemma_floor_div_bounds(y, count);
    assert(q <= rel ==> q * count <= rel * count) by (nonlinear_arith)
        requires
            count > 0,
    ;
    assert(q > rel ==> q * count >= rel * count + count) by (nonlinear_arith)
        requires
            count > 0,
    ;
}

/// The wedges cut `[0, FULL_TURN)` into `count` pieces without a gap or an
/// overlap: every angle lies in the span of the wedge it is given to, lower
/// bound included and upper bound not, and in the span of no other.
pub proof fn lemma_wedges_partition(rel: int, count: int, index: int)
    requires
        count >= 1,
        0 <= rel < FULL_TURN,
    ensures
        0 <= wedge_of(rel, count) < count,
        wedge_of(rel, count) == index <==> wedge_start(index, count) <= rel < wedge_start(
            index + 1,
            count,
        ),
{
    let t = FULL_TURN as int;
    assert(0 <= rel * count < t * count) by (nonlinear_arith)
        requires
            0 <= rel < t,
            count >= 1,
    ;
    lemma_wedge_start_le(index, count, rel);
    lemma_wedge_start_le(index + 1, count, rel);
}

/// The first wedge begins at zero and the last one ends at a full turn;
/// boundaries never go backwards, and while there are no more wedges than
/// angle units, each wedge begins strictly before it ends.
pub proof fn lemma_wedge_start_ordered(index: int, count: int)
    requires
        count >= 1,
        0 <= index < count,
    ensures
        wedge_start(0, count) == 0,
        wedge_start(count, count) == FULL_TURN,
        0 <= wedge_start(index, count) <= wedge_start(index + 1, count) <= FULL_TURN,
        count <= FULL_TURN ==> wedge_start(index, count) < wedge_start(index + 1, count),
{
    let t = FULL_TURN as int;
    lemma_floor_div_unique(count - 1, count, 0);
    lemma_floor_div_unique(count * t + count - 1, count, t);
    let lo = wedge_start(index, count);
    let hi = wedge_start(index + 1, count);
    // lo is the least angle with index * t <= lo * count, hi likewise for index + 1.
    lemma_wedge_start_le(index, count, lo - 1);
    lemma_wedge_start_le(index + 1, count, hi);
    lemma_wedge_start_le(index, count, hi);
    lemma_wedge_start_le(index + 1, count, t);
    assert((lo - 1) * count == lo * count - count) by (nonlinear_arith);
}

/// The wedge that holds a relative angle.
pub fn wedge_index(rel: i128, count: usize) -> (r: usize)
    requires
        count >= 1,
        0 <= rel < FULL_TURN,
    ensures
        r == wedge_of(rel as int, count as int),
        r < count,
{
    proof {
        lemma_wedges_partition(rel as int, count as int, 0);
    }
    let p: u128 = (rel as u128) * (count as u128);
    (p / 0x1_0000_0000_0000_0000u128) as usize
}

/// The relative angle at which wedge `index` of `count` begins, or, for
/// `index == count`, at which the last wedge ends.
pub fn wedge_boundary(index: usize, count: usize) -> (r: i128)
    requires
        count >= 1,
        index <= count,
    ensures
        r == wedge_start(index as int, count as int),
        0 <= r <= FULL_TURN,
{
    proof {
        if index < count {
            lemma_wedge_start_ordered(index as int, count as int);
        } else {
            lemma_wedge_start_ordered(0, count as int);
        }
    }
    let y: u128 = (index as u128) * 0x1_0000_0000_0000_0000u128 + (count as u128 - 1);
    (y / (count as u128)) as i128
}

/// What a pointer hits: `None` where it misses the ring, else the wedge that
/// holds its angle as measured from `start`.
///
/// `(dx, dy)` is the pointer's place as seen from the centre and `angle` its
/// direction from there; `count` is the number of wedges.
pub open spec fn clicked_wedge(
    dx: int,
    dy: int,
    angle: int,
    radius: int,
    count: int,
    start: int,
) -> Option<usize> {
    if outside_ring(dx, dy, radius) {
        None
    } else {
        Some(wedge_of(relative_angle(angle, start), count) as usize)
    }
}

/// Finds the wedge under the pointer.
///
/// The pointer is at `(x, y)`, the centre of the ring at `(center_x,
/// center_y)`, and `pointer_angle` is the direction from the centre to the
/// pointer, as `atan2(y - center_y, x - center_x)` gives it. The direction
/// is taken as given: it is not held against `(x, y)`, which decide only
/// whether the ring is hit. `start_angle` is the boundary between the last
/// wedge and the first.
///
/// A menu without buttons is refused. Otherwise the answer is `None` exactly
/// when the pointer is farther from the centre than `radius` or nearer than
/// four tenths of it; a pointer on the outer boundary still hits, and one on
/// the boundary between two wedges hits the wedge that begins there.
pub fn get_clicked_button(
    x: i64,
    y: i64,
    center_x: i64,
    center_y: i64,
    pointer_angle: i128,
    radius: i64,
    num_buttons: usize,
    start_angle: i128,
) -> (r: Result<Option<usize>, MenuError>)
    ensures
        num_buttons == 0 <==> r == Err::<Option<usize>, MenuError>(MenuError::InvalidConfiguration),
        num_buttons >= 1 ==> r == Ok::<Option<usize>, MenuError>(
            clicked_wedge(
                x - center_x,
                y - center_y,
                pointer_angle as int,
                radius as int,
                num_buttons as int,
                start_angle as int,
            ),
        ),
        r matches Ok(hit) ==> (hit is None <==> outside_ring(
            x - center_x,
            y - center_y,
            radius as int,
        )),
        r matches Ok(Some(index)) ==> index < num_buttons,
{
    if num_buttons == 0 {
        return Err(MenuError::InvalidConfiguration);
    }
    if is_outside_ring(x, y, center_x, center_y, radius) {
        return Ok(None);
    }
    let rel: i128 = angle_from(pointer_angle, start_angle);
    Ok(Some(wedge_index(rel, num_buttons)))
}

/// A pointer inside the ring hits wedge `index` exactly when its direction,
/// taken within one turn from the start angle, lies in the span of that
/// wedge: at or after the angle where the wedge begins and before the angle
/// where it ends.
pub proof fn lemma_hit_span(
    dx: int,
    dy: int,
    angle: int,
    radius: int,
    count: usize,
    index: usize,
    start: int,
)
    requires
        count >= 1,
        start <= angle < start + FULL_TURN,
        !outside_ring(dx, dy, radius),
    ensures
        clicked_wedge(dx, dy, angle, radius, count as int, start) == Some(index) <==> start
            + wedge_start(index as int, count as int) <= angle < start + wedge_start(
            index as int + 1,
            count as int,
        ),
{
    lemma_wedges_partition(angle - start, count as int, index as int);
}

/// A pointer inside the ring whose direction is half way through a wedge
/// hits that wedge, whatever the start angle and however many wedges.
pub proof fn lemma_mid_angle_is_hit(
    dx: int,
    dy: int,
    radius: int,
    count: usize,
    index: usize,
    start: int,
)
    requires
        count >= 1,
        index < count,
        !outside_ring(dx, dy, radius),
    ensures
        clicked_wedge(
            dx,
            dy,
            start + wedge_mid(index as int, count as int),
            radius,
            count as int,
            start,
        ) == Some(index),
{
    let mid = wedge_mid(index as int, count as int);
    lemma_wedge_start_ordered(index as int, count as int);
    lemma_wedges_partition(mid, count as int, index as int);
}

/// A pointer at the middle of a wedge, half way through its angles and half
/// way between the inner and the outer radius, hits that wedge. The middle
/// radius is seven tenths of the outer one.
pub proof fn lemma_wedge_midpoint_is_hit(
    dx: int,
    dy: int,
    radius: int,
    count: usize,
    index: usize,
    start: int,
)
    requires
        count >= 1,
        index < count,
        radius > 0,
        100 * (dx * dx + dy * dy) == 49 * (radius * radius),
    ensures
        !outside_ring(dx, dy, radius),
        clicked_wedge(
            dx,
            dy,
            start + wedge_mid(index as int, count as int),
            radius,
            count as int,
            start,
        ) == Some(index),
{
    assert(4 * radius * radius == 4 * (radius * radius)) by (nonlinear_arith);
    lemma_mid_angle_is_hit(dx, dy, radius, count, index, start);
}

/// A pointer inside the ring whose direction is exactly the boundary where a
/// wedge begins hits that wedge, not the one that ends there.
pub proof fn lemma_boundary_belongs_to_next_wedge(
    dx: int,
    dy: int,
    radius: int,
    count: usize,
    index: usize,
    start: int,
)
    requires
        count >= 1,
        index < count,
        !outside_ring(dx, dy, radius),
    ensures
        clicked_wedge(
            dx,
            dy,
            start + wedge_start(index as int, count as int),
            radius,
            count as int,
            start,
        ) == Some(index),
{
    let lo = wedge_start(index as int, count as int);
    lemma_wedge_start_ordered(index as int, count as int);
    lemma_wedges_partition(lo, count as int, index as int);
}

} // verus!
