//! The square grid of points that the scene shows.

use vstd::prelude::*;

verus! {

/// How far the grid reaches from the origin along each axis, in world units.
pub const GRID_EXTENT: i32 = 10000;

/// The distance between neighbouring points, in world units.
pub const GRID_SPACING: i32 = 100;

/// The number of points along one side of the grid.
pub const GRID_SIDE: usize = 201;

/// A point of the grid, in whole world units.
#[derive(Clone, Copy, Debug, PartialEq, Eq, Structural)]
pub struct GridPoint {
    pub x: i32,
    pub y: i32,
}

/// The coordinate of the `i`-th line of the grid, counted from the lowest.
pub open spec fn grid_coordinate(i: int) -> int {
    -GRID_EXTENT + GRID_SPACING * i
}

/// The `k`-th point of the grid. The points are counted column by column from
/// the lowest horizontal coordinate, and upwards within a column.
pub open spec fn grid_point(k: int) -> GridPoint {
    GridPoint {
        x: grid_coordinate(k / (GRID_SIDE as int)) as i32,
        y: grid_coordinate(k % (GRID_SIDE as int)) as i32,
    }
}

/// All points of the grid in order: every pair of coordinates from the
/// negative extent to the positive extent, both included, in steps of the
/// spacing.
pub fn grid_points() -> (points: Vec<GridPoint>)
    ensures
        points@ == Seq::new((GRID_SIDE * GRID_SIDE) as nat, |k: int| grid_point(k)),
{
    let mut points: Vec<GridPoint> = Vec::new();
    let mut i: usize = 0;
    while i < GRID_SIDE
        invariant
            i <= GRID_SIDE,
            points@.len() == i * GRID_SIDE,
            forall|k: int| 0 <= k < points@.len() ==> points@[k] == grid_point(k),
        decreases GRID_SIDE - i,
    {
        let x: i32 = -GRID_EXTENT + GRID_SPACING * (i as i32);
        let mut j: usize = 0;
        while j < GRID_SIDE
            invariant
                i < GRID_SIDE,
                j <= GRID_SIDE,
                x == grid_coordinate(i as int),
                points@.len() == i * GRID_SIDE + j,
                forall|k: int| 0 <= k < points@.len() ==> points@[k] == grid_point(k),
            decreases GRID_SIDE - j,
        {
            let y: i32 = -GRID_EXTENT + GRID_SPACING * (j as i32);
            proof {
                let k = i * GRID_SIDE + j;
                assert(k / (GRID_SIDE as int) == i && k % (GRID_SIDE as int) == j);
            }
            points.push(GridPoint { x, y });
            j = j + 1;
        }
        i = i + 1;
    }
    points
}

/// The grid spans the square from corner to corner, with as many points
/// along a side as the spacing leaves room for, and the origin is its middle
/// point.
pub proof fn lemma_grid_corners()
    ensures
        GRID_SIDE == 2 * GRID_EXTENT / (GRID_SPACING as int) + 1,
        grid_point(0).x == -GRID_EXTENT,
        grid_point(0).y == -GRID_EXTENT,
        grid_point(GRID_SIDE * GRID_SIDE - 1).x == GRID_EXTENT,
        grid_point(GRID_SIDE * GRID_SIDE - 1).y == GRID_EXTENT,
        grid_point((GRID_SIDE * GRID_SIDE - 1) / 2).x == 0,
        grid_point((GRID_SIDE * GRID_SIDE - 1) / 2).y == 0,
{
}

} // verus!
