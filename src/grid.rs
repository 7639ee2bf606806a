use vstd::prelude::*;
use std::cmp::Ordering;

use crate::root::Root;

verus! {

/// A coordinate along one axis of a root panel, or the layer coordinate.
pub type GridCoord = i64;

/// A point within one root panel's coordinate space.
#[derive(Clone, Copy, PartialEq, Eq, Structural, Debug, Hash)]
pub struct GridPoint2 {
    pub root: Root,
    pub x: GridCoord,
    pub y: GridCoord,
}

/// A point within one root panel, plus a layer coordinate `z` that plays no
/// part in which panel coordinates name the same place.
#[derive(Clone, Copy, PartialEq, Eq, Structural, Debug, Hash)]
pub struct GridPoint3 {
    pub rxy: GridPoint2,
    pub z: GridCoord,
}

/// Panel extents `[x_res, y_res]`, shared by all panels: each panel is twice
/// as tall as it is wide.
pub open spec fn valid_resolution(root_resolution: [GridCoord; 2]) -> bool {
    &&& 0 <= root_resolution[0]
    &&& root_resolution[1] == 2 * root_resolution[0]
}

/// The point with the given root index and coordinates.
pub open spec fn grid_point(root: int, x: int, y: int, z: int) -> GridPoint3 {
    GridPoint3 {
        rxy: GridPoint2 { root: Root { index: root as u8 }, x: x as i64, y: y as i64 },
        z: z as i64,
    }
}

impl GridPoint3 {
    pub open spec fn root_index(self) -> int {
        self.rxy.root.index as int
    }

    pub open spec fn x(self) -> int {
        self.rxy.x as int
    }

    pub open spec fn y(self) -> int {
        self.rxy.y as int
    }

    pub open spec fn z(self) -> int {
        self.z as int
    }

    /// The point names a root panel and lies within its extents.
    pub open spec fn in_bounds(self, root_resolution: [GridCoord; 2]) -> bool {
        &&& self.rxy.root.wf()
        &&& 0 <= self.x() <= root_resolution[0]
        &&& 0 <= self.y() <= root_resolution[1]
    }

    pub fn new(root: Root, x: GridCoord, y: GridCoord, z: GridCoord) -> (r: GridPoint3)
        ensures
            r == (GridPoint3 { rxy: GridPoint2 { root, x, y }, z }),
    {
        GridPoint3 { rxy: GridPoint2 { root, x, y }, z }
    }

    pub fn root(&self) -> (r: Root)
        ensures
            r == self.rxy.root,
    {
        self.rxy.root
    }

    pub fn x_coord(&self) -> (r: GridCoord)
        ensures
            r == self.rxy.x,
    {
        self.rxy.x
    }

    pub fn y_coord(&self) -> (r: GridCoord)
        ensures
            r == self.rxy.y,
    {
        self.rxy.y
    }
}

/// Orders two integers.
pub open spec fn compare_ints(a: int, b: int) -> Ordering {
    if a < b {
        Ordering::Less
    } else if a > b {
        Ordering::Greater
    } else {
        Ordering::Equal
    }
}

/// Lexicographic order on (root index, x, y, z).
pub open spec fn point_order(a: GridPoint3, b: GridPoint3) -> Ordering {
    if a.root_index() != b.root_index() {
        compare_ints(a.root_index(), b.root_index())
    } else if a.x() != b.x() {
        compare_ints(a.x(), b.x())
    } else if a.y() != b.y() {
        compare_ints(a.y(), b.y())
    } else {
        compare_ints(a.z(), b.z())
    }
}

fn compare_coords(a: GridCoord, b: GridCoord) -> (r: Ordering)
    ensures
        r == compare_ints(a as int, b as int),
{
    if a < b {
        Ordering::Less
    } else if a > b {
        Ordering::Greater
    } else {
        Ordering::Equal
    }
}

/// A fixed total order on points, for callers that need a canonical order of
/// equivalent points: by root index, then x, then y, then z.
pub fn semi_arbitrary_compare(a: &GridPoint3, b: &GridPoint3) -> (r: Ordering)
    ensures
        r == point_order(*a, *b),
        r == Ordering::Equal <==> *a == *b,
{
    if a.rxy.root.index != b.rxy.root.index {
        if a.rxy.root.index < b.rxy.root.index {
            Ordering::Less
        } else {
            Ordering::Greater
        }
    } else if a.rxy.x != b.rxy.x {
        compare_coords(a.rxy.x, b.rxy.x)
    } else if a.rxy.y != b.rxy.y {
        compare_coords(a.rxy.y, b.rxy.y)
    } else {
        compare_coords(a.z, b.z)
    }
}

} // verus!
