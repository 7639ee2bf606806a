//! Every coordinate that names the same physical point as a given one.
//!
//! Root panels meet along seams, where a point on the edge of one panel is
//! also a point on the edge of a neighbouring panel, and at the two poles,
//! where all panels meet. Nine disjoint regions of a panel need different
//! handling:
//!
//! ```text
//!            1
//!      ◌     ●     ◌
//!     / \  4/ \3  / \
//!    /   \ /   \ /   \
//!   ◌     ●     ●     ◌
//!    \     \  9  \5    \
//!     \    6\     \     \
//!      ◌     ●     ●     ◌
//!       \   / \8 7/ \   /
//!        \ /   \ /   \ /
//!         ◌     ●     ◌
//!               2
//! ```

use vstd::prelude::*;
use arrayvec::IntoIter;

use crate::grid::{grid_point, valid_resolution, GridCoord, GridPoint3};
use crate::point_buffer::{into_point_iter, new_point_buffer, next_point, pending_points, push_point};
use crate::root::{Root, ROOT_COUNT};

verus! {

/// The region of a root panel that a point lies in; it decides which other
/// coordinates name the same place.
#[derive(Clone, Copy, PartialEq, Eq, Structural, Debug, Hash)]
pub enum Region {
    NorthPole,
    SouthPole,
    EastArctic,
    WestArctic,
    EastTropics,
    WestTropics,
    EastAntarctic,
    WestAntarctic,
    Interior,
}

/// The region of `p`, by the first of these tests that holds, in this order.
pub open spec fn region_of(p: GridPoint3, root_resolution: [GridCoord; 2]) -> Region {
    let x = p.x();
    let y = p.y();
    let x_res = root_resolution[0] as int;
    let y_res = root_resolution[1] as int;
    if x == 0 && y == 0 {
        Region::NorthPole
    } else if x == x_res && y == y_res {
        Region::SouthPole
    } else if x == 0 && y < x_res {
        Region::EastArctic
    } else if y == 0 {
        Region::WestArctic
    } else if x == 0 && y >= x_res {
        Region::EastTropics
    } else if x == x_res && y < x_res {
        Region::WestTropics
    } else if y == y_res {
        Region::EastAntarctic
    } else if x == x_res && y >= x_res {
        Region::WestAntarctic
    } else {
        Region::Interior
    }
}

pub open spec fn is_pole(r: Region) -> bool {
    r == Region::NorthPole || r == Region::SouthPole
}

pub open spec fn is_seam(r: Region) -> bool {
    !is_pole(r) && r != Region::Interior
}

pub open spec fn east_of(root: int) -> int {
    (root + 1) % (ROOT_COUNT as int)
}

pub open spec fn west_of(root: int) -> int {
    (root + (ROOT_COUNT - 1)) % (ROOT_COUNT as int)
}

/// For a point on a seam, the same place as seen from the neighbouring panel
/// across that seam.
pub open spec fn seam_partner(p: GridPoint3, root_resolution: [GridCoord; 2]) -> GridPoint3 {
    let r = p.root_index();
    let x_res = root_resolution[0] as int;
    let y_res = root_resolution[1] as int;
    match region_of(p, root_resolution) {
        Region::EastArctic => grid_point(east_of(r), p.y(), 0, p.z()),
        Region::WestArctic => grid_point(west_of(r), 0, p.x(), p.z()),
        Region::EastTropics => grid_point(east_of(r), x_res, p.y() - x_res, p.z()),
        Region::WestTropics => grid_point(west_of(r), 0, p.y() + x_res, p.z()),
        Region::EastAntarctic => grid_point(east_of(r), x_res, p.x() + x_res, p.z()),
        Region::WestAntarctic => grid_point(west_of(r), p.y() - x_res, y_res, p.z()),
        _ => p,
    }
}

/// The pole point `(x, y)` in each root from `first_root` on, in root order.
pub open spec fn pole_points(first_root: int, x: int, y: int, z: int) -> Seq<GridPoint3> {
    Seq::new(
        (ROOT_COUNT - first_root) as nat,
        |i: int| grid_point(first_root + i, x, y, z),
    )
}

/// Every coordinate of the place that `p` names, `p` among them, in the
/// order the resolver yields them.
pub open spec fn equivalence_class(p: GridPoint3, root_resolution: [GridCoord; 2]) -> Seq<
    GridPoint3,
> {
    match region_of(p, root_resolution) {
        Region::NorthPole => pole_points(0, 0, 0, p.z()),
        Region::SouthPole => pole_points(
            0,
            root_resolution[0] as int,
            root_resolution[1] as int,
            p.z(),
        ),
        Region::Interior => seq![p],
        _ => seq![p, seam_partner(p, root_resolution)],
    }
}

/// Decides which region of its panel `point` lies in.
pub fn classify(point: &GridPoint3, root_resolution: [GridCoord; 2]) -> (r: Region)
    ensures
        r == region_of(*point, root_resolution),
{
    let x = point.rxy.x;
    let y = point.rxy.y;
    if x == 0 && y == 0 {
        Region::NorthPole
    } else if x == root_resolution[0] && y == root_resolution[1] {
        Region::SouthPole
    } else if x == 0 && y < root_resolution[0] {
        // The x-resolution is always half the y-resolution.
        Region::EastArctic
    } else if y == 0 {
        Region::WestArctic
    } else if x == 0 && y >= root_resolution[0] {
        Region::EastTropics
    } else if x == root_resolution[0] && y < root_resolution[0] {
        Region::WestTropics
    } else if y == root_resolution[1] {
        Region::EastAntarctic
    } else if x == root_resolution[0] && y >= root_resolution[0] {
        Region::WestAntarctic
    } else {
        Region::Interior
    }
}

/// The input the resolver accepts: the panel extents keep their shape, and
/// the point lies on a panel, within its extents.
pub open spec fn well_formed_input(p: GridPoint3, root_resolution: [GridCoord; 2]) -> bool {
    valid_resolution(root_resolution) && p.in_bounds(root_resolution)
}

/// An iterator that will yield `first`, then `second`.
fn pair_iter(first: GridPoint3, second: GridPoint3) -> (r: IntoIter<GridPoint3, 2>)
    ensures
        pending_points(r) == seq![first, second],
{
    let mut points = new_point_buffer();
    push_point(&mut points, first);
    push_point(&mut points, second);
    into_point_iter(points)
}

//
// 1. North pole
//

/// The north pole in each root, from `next_root` on.
struct NorthPolePoints {
    z: GridCoord,
    next_root: u8,
}

impl View for NorthPolePoints {
    type V = Seq<GridPoint3>;

    closed spec fn view(&self) -> Seq<GridPoint3> {
        pole_points(self.next_root as int, 0, 0, self.z as int)
    }
}

impl NorthPolePoints {
    spec fn wf(&self) -> bool {
        self.next_root <= ROOT_COUNT
    }

    fn new(point: GridPoint3) -> (r: NorthPolePoints)
        ensures
            r.wf(),
            r@ == pole_points(0, 0, 0, point.z()),
    {
        NorthPolePoints { z: point.z, next_root: 0 }
    }

    fn next(&mut self) -> (r: Option<GridPoint3>)
        requires
            old(self).wf(),
        ensures
            final(self).wf(),
            yields_next(old(self)@, final(self)@, r),
    {
        if self.next_root < ROOT_COUNT {
            let p = GridPoint3::new(Root::new(self.next_root), 0, 0, self.z);
            self.next_root = self.next_root + 1;
            assert(self@ =~= old(self)@.drop_first());
            Some(p)
        } else {
            None
        }
    }
}

//
// 2. South pole
//

/// The south pole in each root, from `next_root` on.
struct SouthPolePoints {
    x: GridCoord,
    y: GridCoord,
    z: GridCoord,
    next_root: u8,
}

impl View for SouthPolePoints {
    type V = Seq<GridPoint3>;

    closed spec fn view(&self) -> Seq<GridPoint3> {
        pole_points(self.next_root as int, self.x as int, self.y as int, self.z as int)
    }
}

impl SouthPolePoints {
    spec fn wf(&self) -> bool {
        self.next_root <= ROOT_COUNT
    }

    fn new(point: GridPoint3, root_resolution: [GridCoord; 2]) -> (r: SouthPolePoints)
        ensures
            r.wf(),
            r@ == pole_points(0, root_resolution[0] as int, root_resolution[1] as int, point.z()),
    {
        SouthPolePoints { x: root_resolution[0], y: root_resolution[1], z: point.z, next_root: 0 }
    }

    fn next(&mut self) -> (r: Option<GridPoint3>)
        requires
            old(self).wf(),
        ensures
            final(self).wf(),
            yields_next(old(self)@, final(self)@, r),
    {
        if self.next_root < ROOT_COUNT {
            let p = GridPoint3::new(Root::new(self.next_root), self.x, self.y, self.z);
            self.next_root = self.next_root + 1;
            assert(self@ =~= old(self)@.drop_first());
            Some(p)
        } else {
            None
        }
    }
}

//
// 3. East arctic
//

/// Points along the arctic seam with the root to the east.
struct EastArcticPoints {
    points_iter: IntoIter<GridPoint3, 2>,
}

impl View for EastArcticPoints {
    type V = Seq<GridPoint3>;

    closed spec fn view(&self) -> Seq<GridPoint3> {
        pending_points(self.points_iter)
    }
}

impl EastArcticPoints {
    fn new(point: GridPoint3, root_resolution: [GridCoord; 2]) -> (r: EastArcticPoints)
        requires
            well_formed_input(point, root_resolution),
            region_of(point, root_resolution) == Region::EastArctic,
        ensures
            r@ == equivalence_class(point, root_resolution),
    {
        let partner = GridPoint3::new(
            point.rxy.root.next_east(),
            // The y-axis in the arctic maps to the x-axis in the next root east.
            point.rxy.y,
            0,
            point.z,
        );
        EastArcticPoints { points_iter: pair_iter(point, partner) }
    }

    fn next(&mut self) -> (r: Option<GridPoint3>)
        ensures
            yields_next(old(self)@, final(self)@, r),
    {
        next_point(&mut self.points_iter)
    }
}

//
// 4. West arctic
//

/// Points along the arctic seam with the root to the west.
struct WestArcticPoints {
    points_iter: IntoIter<GridPoint3, 2>,
}

impl View for WestArcticPoints {
    type V = Seq<GridPoint3>;

    closed spec fn view(&self) -> Seq<GridPoint3> {
        pending_points(self.points_iter)
    }
}

impl WestArcticPoints {
    fn new(point: GridPoint3, root_resolution: [GridCoord; 2]) -> (r: WestArcticPoints)
        requires
            well_formed_input(point, root_resolution),
            region_of(point, root_resolution) == Region::WestArctic,
        ensures
            r@ == equivalence_class(point, root_resolution),
    {
        let partner = GridPoint3::new(
            point.rxy.root.next_west(),
            // The x-axis in the arctic maps to the y-axis in the next root west.
            0,
            point.rxy.x,
            point.z,
        );
        WestArcticPoints { points_iter: pair_iter(point, partner) }
    }

    fn next(&mut self) -> (r: Option<GridPoint3>)
        ensures
            yields_next(old(self)@, final(self)@, r),
    {
        next_point(&mut self.points_iter)
    }
}

//
// 5. East tropics
//

/// Points along the tropical seam with the root to the east.
struct EastTropicsPoints {
    points_iter: IntoIter<GridPoint3, 2>,
}

impl View for EastTropicsPoints {
    type V = Seq<GridPoint3>;

    closed spec fn view(&self) -> Seq<GridPoint3> {
        pending_points(self.points_iter)
    }
}

impl EastTropicsPoints {
    fn new(point: GridPoint3, root_resolution: [GridCoord; 2]) -> (r: EastTropicsPoints)
        requires
            well_formed_input(point, root_resolution),
            region_of(point, root_resolution) == Region::EastTropics,
        ensures
            r@ == equivalence_class(point, root_resolution),
    {
        let partner = GridPoint3::new(
            point.rxy.root.next_east(),
            // The y-axis in the tropics maps to the y-axis in the next root east,
            // offset, and at maximum x.
            root_resolution[0],
            point.rxy.y - root_resolution[0],
            point.z,
        );
        EastTropicsPoints { points_iter: pair_iter(point, partner) }
    }

    fn next(&mut self) -> (r: Option<GridPoint3>)
        ensures
            yields_next(old(self)@, final(self)@, r),
    {
        next_point(&mut self.points_iter)
    }
}

//
// 6. West tropics
//

/// Points along the tropical seam with the root to the west.
struct WestTropicsPoints {
    points_iter: IntoIter<GridPoint3, 2>,
}

impl View for WestTropicsPoints {
    type V = Seq<GridPoint3>;

    closed spec fn view(&self) -> Seq<GridPoint3> {
        pending_points(self.points_iter)
    }
}

impl WestTropicsPoints {
    fn new(point: GridPoint3, root_resolution: [GridCoord; 2]) -> (r: WestTropicsPoints)
        requires
            well_formed_input(point, root_resolution),
            region_of(point, root_resolution) == Region::WestTropics,
        ensures
            r@ == equivalence_class(point, root_resolution),
    {
        let partner = GridPoint3::new(
            point.rxy.root.next_west(),
            // The y-axis at maximum x in the tropics maps to the y-axis in the
            // next root west, offset, and at minimum x.
            0,
            point.rxy.y + root_resolution[0],
            point.z,
        );
        WestTropicsPoints { points_iter: pair_iter(point, partner) }
    }

    fn next(&mut self) -> (r: Option<GridPoint3>)
        ensures
            yields_next(old(self)@, final(self)@, r),
    {
        next_point(&mut self.points_iter)
    }
}

//
// 7. East antarctic
//

/// Points along the antarctic seam with the root to the east.
struct EastAntarcticPoints {
    points_iter: IntoIter<GridPoint3, 2>,
}

impl View for EastAntarcticPoints {
    type V = Seq<GridPoint3>;

    closed spec fn view(&self) -> Seq<GridPoint3> {
        pending_points(self.points_iter)
    }
}

impl EastAntarcticPoints {
    fn new(point: GridPoint3, root_resolution: [GridCoord; 2]) -> (r: EastAntarcticPoints)
        requires
            well_formed_input(point, root_resolution),
            region_of(point, root_resolution) == Region::EastAntarctic,
        ensures
            r@ == equivalence_class(point, root_resolution),
    {
        let partner = GridPoint3::new(
            point.rxy.root.next_east(),
            // The x-axis at maximum y in the antarctic maps to the y-axis in the
            // next root east, offset, and at maximum x.
            root_resolution[0],
            point.rxy.x + root_resolution[0],
            point.z,
        );
        EastAntarcticPoints { points_iter: pair_iter(point, partner) }
    }

    fn next(&mut self) -> (r: Option<GridPoint3>)
        ensures
            yields_next(old(self)@, final(self)@, r),
    {
        next_point(&mut self.points_iter)
    }
}

//
// 8. West antarctic
//

/// Points along the antarctic seam with the root to the west.
struct WestAntarcticPoints {
    points_iter: IntoIter<GridPoint3, 2>,
}

impl View for WestAntarcticPoints {
    type V = Seq<GridPoint3>;

    closed spec fn view(&self) -> Seq<GridPoint3> {
        pending_points(self.points_iter)
    }
}

impl WestAntarcticPoints {
    fn new(point: GridPoint3, root_resolution: [GridCoord; 2]) -> (r: WestAntarcticPoints)
        requires
            well_formed_input(point, root_resolution),
            region_of(point, root_resolution) == Region::WestAntarctic,
        ensures
            r@ == equivalence_class(point, root_resolution),
    {
        let partner = GridPoint3::new(
            point.rxy.root.next_west(),
            // The y-axis in the antarctic maps to the x-axis in the next root
            // west, offset, and at maximum y.
            point.rxy.y - root_resolution[0],
            root_resolution[1],
            point.z,
        );
        WestAntarcticPoints { points_iter: pair_iter(point, partner) }
    }

    fn next(&mut self) -> (r: Option<GridPoint3>)
        ensures
            yields_next(old(self)@, final(self)@, r),
    {
        next_point(&mut self.points_iter)
    }
}

//
// 9. Interior, on no seam
//

/// A point on no seam, which only it names.
struct InteriorPoints {
    points_iter: IntoIter<GridPoint3, 2>,
}

impl View for InteriorPoints {
    type V = Seq<GridPoint3>;

    closed spec fn view(&self) -> Seq<GridPoint3> {
        pending_points(self.points_iter)
    }
}

impl InteriorPoints {
    fn new(point: GridPoint3) -> (r: InteriorPoints)
        ensures
            r@ == seq![point],
    {
        let mut points = new_point_buffer();
        push_point(&mut points, point);
        proof {
            assert(seq![point] =~= Seq::<GridPoint3>::empty().push(point));
        }
        InteriorPoints { points_iter: into_point_iter(points) }
    }

    fn next(&mut self) -> (r: Option<GridPoint3>)
        ensures
            yields_next(old(self)@, final(self)@, r),
    {
        next_point(&mut self.points_iter)
    }
}

/// One step of a sequence of points: `r` is the first of `before` and
/// `after` the rest, or `r` is `None` and nothing was left.
pub open spec fn yields_next(
    before: Seq<GridPoint3>,
    after: Seq<GridPoint3>,
    r: Option<GridPoint3>,
) -> bool {
    match r {
        None => before.len() == 0 && after == before,
        Some(p) => before.len() > 0 && p == before[0] && after == before.drop_first(),
    }
}

enum EquivalentPointsImpl {
    NorthPole(NorthPolePoints),
    SouthPole(SouthPolePoints),
    EastArctic(EastArcticPoints),
    WestArctic(WestArcticPoints),
    EastTropics(EastTropicsPoints),
    WestTropics(WestTropicsPoints),
    EastAntarctic(EastAntarcticPoints),
    WestAntarctic(WestAntarcticPoints),
    Interior(InteriorPoints),
}

/// The points in all roots that name the same place as a given point, the
/// given point among them, yielded one at a time.
///
/// For most points, those on no seam of their root, this yields just the
/// given point. The order in which points are yielded carries no meaning.
pub struct EquivalentPoints {
    iter: EquivalentPointsImpl,
}

impl View for EquivalentPoints {
    type V = Seq<GridPoint3>;

    /// The points that are yet to be yielded, in order.
    closed spec fn view(&self) -> Seq<GridPoint3> {
        match self.iter {
            EquivalentPointsImpl::NorthPole(it) => it@,
            EquivalentPointsImpl::SouthPole(it) => it@,
            EquivalentPointsImpl::EastArctic(it) => it@,
            EquivalentPointsImpl::WestArctic(it) => it@,
            EquivalentPointsImpl::EastTropics(it) => it@,
            EquivalentPointsImpl::WestTropics(it) => it@,
            EquivalentPointsImpl::EastAntarctic(it) => it@,
            EquivalentPointsImpl::WestAntarctic(it) => it@,
            EquivalentPointsImpl::Interior(it) => it@,
        }
    }
}

impl EquivalentPoints {
    pub closed spec fn wf(&self) -> bool {
        match self.iter {
            EquivalentPointsImpl::NorthPole(it) => it.wf(),
            EquivalentPointsImpl::SouthPole(it) => it.wf(),
            _ => true,
        }
    }

    pub fn new(point: GridPoint3, root_resolution: [GridCoord; 2]) -> (r: EquivalentPoints)
        requires
            well_formed_input(point, root_resolution),
        ensures
            r.wf(),
            r@ == equivalence_class(point, root_resolution),
    {
        let iter = match classify(&point, root_resolution) {
            Region::NorthPole => EquivalentPointsImpl::NorthPole(NorthPolePoints::new(point)),
            Region::SouthPole => EquivalentPointsImpl::SouthPole(
                SouthPolePoints::new(point, root_resolution),
            ),
            Region::EastArctic => EquivalentPointsImpl::EastArctic(
                EastArcticPoints::new(point, root_resolution),
            ),
            Region::WestArctic => EquivalentPointsImpl::WestArctic(
                WestArcticPoints::new(point, root_resolution),
            ),
            Region::EastTropics => EquivalentPointsImpl::EastTropics(
                EastTropicsPoints::new(point, root_resolution),
            ),
            Region::WestTropics => EquivalentPointsImpl::WestTropics(
                WestTropicsPoints::new(point, root_resolution),
            ),
            Region::EastAntarctic => EquivalentPointsImpl::EastAntarctic(
                EastAntarcticPoints::new(point, root_resolution),
            ),
            Region::WestAntarctic => EquivalentPointsImpl::WestAntarctic(
                WestAntarcticPoints::new(point, root_resolution),
            ),
            Region::Interior => EquivalentPointsImpl::Interior(InteriorPoints::new(point)),
        };
        EquivalentPoints { iter }
    }

    /// Yields the next equivalent point, or `None` once all are yielded.
    pub fn next(&mut self) -> (r: Option<GridPoint3>)
        requires
            old(self).wf(),
        ensures
            final(self).wf(),
            yields_next(old(self)@, final(self)@, r),
    {
        match &mut self.iter {
            EquivalentPointsImpl::NorthPole(it) => it.next(),
            EquivalentPointsImpl::SouthPole(it) => it.next(),
            EquivalentPointsImpl::EastArctic(it) => it.next(),
            EquivalentPointsImpl::WestArctic(it) => it.next(),
            EquivalentPointsImpl::EastTropics(it) => it.next(),
            EquivalentPointsImpl::WestTropics(it) => it.next(),
            EquivalentPointsImpl::EastAntarctic(it) => it.next(),
            EquivalentPointsImpl::WestAntarctic(it) => it.next(),
            EquivalentPointsImpl::Interior(it) => it.next(),
        }
    }
}

/// Every coordinate that names the same place as `point`, `point` among them.
pub fn equivalent_points(point: GridPoint3, root_resolution: [GridCoord; 2]) -> (r: Vec<
    GridPoint3,
>)
    requires
        well_formed_input(point, root_resolution),
    ensures
        r@ == equivalence_class(point, root_resolution),
{
    let mut points_iter = EquivalentPoints::new(point, root_resolution);
    let mut points: Vec<GridPoint3> = Vec::new();
    loop
        invariant
            points_iter.wf(),
            points@ + points_iter@ == equivalence_class(point, root_resolution),
        ensures
            points@ == equivalence_class(point, root_resolution),
        decreases points_iter@.len(),
    {
        match points_iter.next() {
            Some(p) => {
                points.push(p);
                assert(points@ + points_iter@ =~= equivalence_class(point, root_resolution));
            },
            None => {
                assert(points@ =~= equivalence_class(point, root_resolution));
                break;
            },
        }
    }
    points
}

} // verus!
