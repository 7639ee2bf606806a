//! Laws of the equivalence classes that the resolver yields.

use vstd::prelude::*;

use crate::equivalent_points::{
    equivalence_class, is_pole, is_seam, region_of, well_formed_input, Region,
};
use crate::grid::{GridCoord, GridPoint3};

verus! {

/// Every point is among the points equivalent to itself.
pub proof fn lemma_class_contains_point(p: GridPoint3, root_resolution: [GridCoord; 2])
    requires
        well_formed_input(p, root_resolution),
    ensures
        equivalence_class(p, root_resolution).contains(p),
{
    let cls = equivalence_class(p, root_resolution);
    if is_pole(region_of(p, root_resolution)) {
        assert(cls[p.root_index()] == p);
    } else {
        assert(cls[0] == p);
    }
}

/// Equivalence is symmetric: when `q` is among the points equivalent to `p`,
/// `q` is a well-formed point and `p` is among the points equivalent to `q`.
pub proof fn lemma_class_symmetric(p: GridPoint3, q: GridPoint3, root_resolution: [GridCoord; 2])
    requires
        well_formed_input(p, root_resolution),
        equivalence_class(p, root_resolution).contains(q),
    ensures
        well_formed_input(q, root_resolution),
        equivalence_class(q, root_resolution).contains(p),
{
    let cls = equivalence_class(p, root_resolution);
    let i = choose|i: int| 0 <= i < cls.len() && cls[i] == q;
    lemma_class_contains_point(p, root_resolution);
    let qcls = equivalence_class(q, root_resolution);
    if is_pole(region_of(p, root_resolution)) {
        assert(qcls[p.root_index()] == p);
    } else if i == 0 {
    } else {
        assert(qcls[1] == p);
    }
}

/// A pole has five coordinates, one in each root; a point on a seam has two,
/// one on each side; any other point has only itself. No coordinate is
/// repeated.
pub proof fn lemma_class_size(p: GridPoint3, root_resolution: [GridCoord; 2])
    requires
        well_formed_input(p, root_resolution),
    ensures
        equivalence_class(p, root_resolution).no_duplicates(),
        equivalence_class(p, root_resolution).len() == 5 <==> is_pole(
            region_of(p, root_resolution),
        ),
        equivalence_class(p, root_resolution).len() == 2 <==> is_seam(
            region_of(p, root_resolution),
        ),
        equivalence_class(p, root_resolution).len() == 1 <==> region_of(p, root_resolution)
            == Region::Interior,
{
    let cls = equivalence_class(p, root_resolution);
    if is_seam(region_of(p, root_resolution)) {
        assert(cls[0] != cls[1]);
    }
}

/// Every coordinate of a place has the layer coordinate of the point it was
/// found from.
pub proof fn lemma_class_keeps_z(p: GridPoint3, root_resolution: [GridCoord; 2])
    requires
        well_formed_input(p, root_resolution),
    ensures
        forall|i: int|
            0 <= i < equivalence_class(p, root_resolution).len() ==> #[trigger] equivalence_class(
                p,
                root_resolution,
            )[i].z == p.z,
{
}

/// Equivalence classes are closed: every coordinate of a place finds exactly
/// the same coordinates as the point it was found from.
pub proof fn lemma_class_closed(p: GridPoint3, q: GridPoint3, root_resolution: [GridCoord; 2])
    requires
        well_formed_input(p, root_resolution),
        equivalence_class(p, root_resolution).contains(q),
    ensures
        equivalence_class(q, root_resolution).to_set() == equivalence_class(p, root_resolution).to_set(),
{
    lemma_class_symmetric(p, q, root_resolution);
    lemma_class_contains_point(q, root_resolution);
    let cls = equivalence_class(p, root_resolution);
    let qcls = equivalence_class(q, root_resolution);
    if is_pole(region_of(p, root_resolution)) {
        assert(is_pole(region_of(q, root_resolution)));
        assert forall|g: GridPoint3| cls.contains(g) <==> qcls.contains(g) by {
            if cls.contains(g) {
                let i = choose|i: int| 0 <= i < cls.len() && cls[i] == g;
                assert(qcls[i] == g);
            }
            if qcls.contains(g) {
                let i = choose|i: int| 0 <= i < qcls.len() && qcls[i] == g;
                assert(cls[i] == g);
            }
        }
    } else {
        assert forall|g: GridPoint3| cls.contains(g) <==> qcls.contains(g) by {
            if cls.contains(g) {
                let i = choose|i: int| 0 <= i < cls.len() && cls[i] == g;
            }
            if qcls.contains(g) {
                let i = choose|i: int| 0 <= i < qcls.len() && qcls[i] == g;
            }
        }
    }
    assert(qcls.to_set() =~= cls.to_set());
}

} // verus!
