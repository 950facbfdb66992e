use vstd::prelude::*;

verus! {

/// An axis-aligned rectangle, given by its center and its half-extents,
/// on integer coordinates.
#[derive(Clone, Copy, PartialEq, Eq, Structural, Debug)]
pub struct Rect {
    pub x: i64,
    pub y: i64,
    pub half_x: i64,
    pub half_y: i64,
}

pub open spec fn iabs(v: int) -> int {
    if v < 0 {
        -v
    } else {
        v
    }
}

/// Two axis-aligned rectangles overlap iff on each axis the distance between
/// their centers is strictly below the sum of their half-extents on that axis.
pub open spec fn overlaps_at(
    ax: int,
    ay: int,
    ahx: int,
    ahy: int,
    bx: int,
    by: int,
    bhx: int,
    bhy: int,
) -> bool {
    iabs(ax - bx) < ahx + bhx && iabs(ay - by) < ahy + bhy
}

pub open spec fn rects_overlap(a: Rect, b: Rect) -> bool {
    overlaps_at(
        a.x as int,
        a.y as int,
        a.half_x as int,
        a.half_y as int,
        b.x as int,
        b.y as int,
        b.half_x as int,
        b.half_y as int,
    )
}

/// The overlap test, total over all representable rectangles: the axis
/// differences and half-extent sums are formed in a wider type.
pub fn overlaps(a: &Rect, b: &Rect) -> (r: bool)
    ensures
        r == rects_overlap(*a, *b),
{
    let dx: i128 = (a.x as i128) - (b.x as i128);
    let abs_dx: i128 = if dx < 0 {
        -dx
    } else {
        dx
    };
    let sum_x: i128 = (a.half_x as i128) + (b.half_x as i128);
    let dy: i128 = (a.y as i128) - (b.y as i128);
    let abs_dy: i128 = if dy < 0 {
        -dy
    } else {
        dy
    };
    let sum_y: i128 = (a.half_y as i128) + (b.half_y as i128);
    abs_dx < sum_x && abs_dy < sum_y
}

/// The overlap test is symmetric: swapping the two rectangles does not
/// change the verdict.
pub proof fn lemma_overlap_symmetric(
    ax: int,
    ay: int,
    ahx: int,
    ahy: int,
    bx: int,
    by: int,
    bhx: int,
    bhy: int,
)
    ensures
        overlaps_at(ax, ay, ahx, ahy, bx, by, bhx, bhy) == overlaps_at(
            bx,
            by,
            bhx,
            bhy,
            ax,
            ay,
            ahx,
            ahy,
        ),
{
}

/// The overlap test is translation-invariant: shifting both rectangles by
/// the same vector does not change the verdict.
pub proof fn lemma_overlap_translation(
    ax: int,
    ay: int,
    ahx: int,
    ahy: int,
    bx: int,
    by: int,
    bhx: int,
    bhy: int,
    dx: int,
    dy: int,
)
    ensures
        overlaps_at(ax + dx, ay + dy, ahx, ahy, bx + dx, by + dy, bhx, bhy) == overlaps_at(
            ax,
            ay,
            ahx,
            ahy,
            bx,
            by,
            bhx,
            bhy,
        ),
{
}

} // verus!
