use vstd::prelude::*;

verus! {

/// Side of one grid cell, in world units.
pub const NODE_SIZE: i64 = 20;

/// Number of cells along each side of the square play area.
pub const PLAY_AREA_CELLS: i64 = 13;

/// Half the side of the play area in world units; the area spans
/// `[-PLAY_AREA_HALF_EXTENT, PLAY_AREA_HALF_EXTENT)` on both axes.
pub const PLAY_AREA_HALF_EXTENT: i32 = 130;

/// A point in world space, in whole world units.
#[derive(Clone, Copy, Debug, PartialEq, Eq, Structural)]
pub struct Position {
    pub x: i64,
    pub y: i64,
}

/// A coordinate that is a whole number of cells.
pub open spec fn aligned(c: int) -> bool {
    c % (NODE_SIZE as int) == 0
}

pub open spec fn grid_aligned(p: Position) -> bool {
    aligned(p.x as int) && aligned(p.y as int)
}

/// A coordinate inside the play area.
pub open spec fn in_play_area(c: int) -> bool {
    -(PLAY_AREA_HALF_EXTENT as int) <= c < PLAY_AREA_HALF_EXTENT as int
}

/// The coordinate moved toward zero to the nearest cell boundary, as
/// subtracting the truncated remainder does.
pub open spec fn snapped(c: int) -> int {
    if c >= 0 {
        c - c % (NODE_SIZE as int)
    } else {
        -((-c) - (-c) % (NODE_SIZE as int))
    }
}

/// World-space position of the cell `(x, y)`.
pub fn position(x: i32, y: i32) -> (r: Position)
    ensures
        r.x == x as int * NODE_SIZE as int,
        r.y == y as int * NODE_SIZE as int,
        grid_aligned(r),
{
    let r = Position { x: x as i64 * NODE_SIZE, y: y as i64 * NODE_SIZE };
    assert(aligned(r.x as int)) by (nonlinear_arith)
        requires
            r.x == x as int * 20,
    ;
    assert(aligned(r.y as int)) by (nonlinear_arith)
        requires
            r.y == y as int * 20,
    ;
    r
}

/// Moves a world coordinate toward zero onto the nearest cell boundary.
pub fn snap_to_cell(c: i32) -> (r: i64)
    ensures
        r == snapped(c as int),
        aligned(r as int),
        in_play_area(c as int) ==> in_play_area(r as int),
{
    let w = c as i64;
    if w >= 0 {
        w - w % NODE_SIZE
    } else {
        let m = -w;
        -(m - m % NODE_SIZE)
    }
}

} // verus!
