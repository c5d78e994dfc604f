//! Points, offsets and the grid.

use vstd::prelude::*;

verus! {

/// A position in the world plane, or an offset between two of them.
pub type Point = (i32, i32);

/// The mathematical point that a machine point stands for.
pub open spec fn ints(p: Point) -> (int, int) {
    (p.0 as int, p.1 as int)
}

/// Whether `v` can be held in a machine coordinate.
pub open spec fn in_i32(v: int) -> bool {
    i32::MIN <= v <= i32::MAX
}

/// Whether both coordinates of `p` can be held in a machine point.
pub open spec fn representable(p: (int, int)) -> bool {
    in_i32(p.0) && in_i32(p.1)
}

/// The point `p` moved by the offset `o`.
pub open spec fn shifted(p: (int, int), o: (int, int)) -> (int, int) {
    (p.0 + o.0, p.1 + o.1)
}

/// Whether `p` moved by `o` can be held in a machine point.
pub fn can_shift(p: Point, o: Point) -> (ok: bool)
    ensures
        ok == representable(shifted(ints(p), ints(o))),
{
    let x: i64 = p.0 as i64 + o.0 as i64;
    let y: i64 = p.1 as i64 + o.1 as i64;
    i32::MIN as i64 <= x && x <= i32::MAX as i64 && i32::MIN as i64 <= y && y <= i32::MAX as i64
}

/// The quotient of `a` by a positive `b`, rounded toward zero.
pub open spec fn quotient_toward_zero(a: int, b: int) -> int {
    if a >= 0 {
        a / b
    } else {
        -((-a) / b)
    }
}

/// The multiple of `grid` that `v` snaps to: the nearest one that is not
/// farther from zero than `v` itself.
pub open spec fn snap(v: int, grid: int) -> int {
    quotient_toward_zero(v, grid) * grid
}

/// `snap` on both coordinates.
pub open spec fn snap_point(p: (int, int), grid: int) -> (int, int) {
    (snap(p.0, grid), snap(p.1, grid))
}

/// A snapped coordinate lies between zero and the coordinate it came from,
/// less than one grid cell away from it, and is a multiple of the grid size.
pub proof fn lemma_snap_bounds(v: int, grid: int)
    requires
        grid > 0,
    ensures
        v >= 0 ==> v - grid < snap(v, grid) <= v && 0 <= snap(v, grid),
        v <= 0 ==> v <= snap(v, grid) < v + grid && snap(v, grid) <= 0,
        snap(v, grid) % grid == 0,
{
    let q = quotient_toward_zero(v, grid);
    if v >= 0 {
        assert(v == grid * (v / grid) + v % grid && 0 <= v % grid < grid) by (nonlinear_arith)
            requires
                grid > 0,
        ;
        assert(q * grid == grid * q) by (nonlinear_arith);
    } else {
        let w = -v;
        assert(w == grid * (w / grid) + w % grid && 0 <= w % grid < grid) by (nonlinear_arith)
            requires
                grid > 0,
        ;
        assert(q * grid == -(grid * (w / grid))) by (nonlinear_arith)
            requires
                q == -(w / grid),
        ;
    }
    assert((q * grid) % grid == 0) by (nonlinear_arith)
        requires
            grid > 0,
    ;
}

/// A multiple of the grid size snaps to itself.
pub proof fn lemma_snap_of_multiple(k: int, grid: int)
    requires
        grid > 0,
    ensures
        snap(k * grid, grid) == k * grid,
{
    if k >= 0 {
        assert(k * grid >= 0 && (k * grid) / grid == k) by (nonlinear_arith)
            requires
                grid > 0,
                k >= 0,
        ;
    } else {
        assert(k * grid < 0 && -(k * grid) == (-k) * grid && ((-k) * grid) / grid == -k)
            by (nonlinear_arith)
            requires
                grid > 0,
                k < 0,
        ;
    }
}

/// Snapping is idempotent: a snapped coordinate snaps to itself, whatever the
/// positive grid size.
pub proof fn lemma_snap_idempotent(v: int, grid: int)
    requires
        grid > 0,
    ensures
        snap(snap(v, grid), grid) == snap(v, grid),
{
    lemma_snap_of_multiple(quotient_toward_zero(v, grid), grid);
}

/// Snapping a point is idempotent on both coordinates.
pub proof fn lemma_snap_point_idempotent(p: (int, int), grid: int)
    requires
        grid > 0,
    ensures
        snap_point(snap_point(p, grid), grid) == snap_point(p, grid),
{
    lemma_snap_idempotent(p.0, grid);
    lemma_snap_idempotent(p.1, grid);
}

/// Snaps one coordinate to the grid by dividing with truncation and
/// multiplying back.
pub fn snap_to_grid(v: i32, grid: i32) -> (r: i32)
    requires
        grid > 0,
    ensures
        r == snap(v as int, grid as int),
        snap(r as int, grid as int) == r,
{
    proof {
        lemma_snap_bounds(v as int, grid as int);
        lemma_snap_idempotent(v as int, grid as int);
    }
    let q: i32 = v / grid;
    q * grid
}

} // verus!
