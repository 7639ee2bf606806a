//! A small inline buffer of grid points, held in an `arrayvec::ArrayVec`,
//! and the by-value iterator over it.

use vstd::prelude::*;
use arrayvec::{ArrayVec, IntoIter};

use crate::grid::GridPoint3;

verus! {

#[verifier::external_type_specification]
#[verifier::external_body]
#[verifier::reject_recursive_types(T)]
pub struct ExArrayVec<T, const CAP: usize>(ArrayVec<T, CAP>);

#[verifier::external_type_specification]
#[verifier::external_body]
#[verifier::reject_recursive_types(T)]
pub struct ExIntoIter<T, const CAP: usize>(IntoIter<T, CAP>);

/// The capacity of every point buffer: enough for a point and its one
/// partner across a seam.
pub const POINT_BUFFER_CAPACITY: usize = 2;

/// The points a buffer holds, in the order they were pushed.
pub uninterp spec fn buffered_points(v: ArrayVec<GridPoint3, 2>) -> Seq<GridPoint3>;

/// The points an iterator over a buffer has yet to yield, in order.
pub uninterp spec fn pending_points(it: IntoIter<GridPoint3, 2>) -> Seq<GridPoint3>;

/// Relies on `ArrayVec::new`: a new vector is empty.
#[verifier::external_body]
pub(crate) fn new_point_buffer() -> (r: ArrayVec<GridPoint3, 2>)
    ensures
        buffered_points(r) == Seq::<GridPoint3>::empty(),
{
    ArrayVec::new()
}

/// Relies on `ArrayVec::push`: the element is appended at the end; it panics
/// only when the vector is full, which `requires` rules out.
#[verifier::external_body]
pub(crate) fn push_point(v: &mut ArrayVec<GridPoint3, 2>, p: GridPoint3)
    requires
        buffered_points(*old(v)).len() < POINT_BUFFER_CAPACITY,
    ensures
        buffered_points(*final(v)) == buffered_points(*old(v)).push(p),
{
    v.push(p)
}

/// Relies on `IntoIterator for ArrayVec`: the iterator starts at the first
/// element and will yield every element.
#[verifier::external_body]
pub(crate) fn into_point_iter(v: ArrayVec<GridPoint3, 2>) -> (r: IntoIter<GridPoint3, 2>)
    ensures
        pending_points(r) == buffered_points(v),
{
    v.into_iter()
}

/// Relies on `Iterator::next for arrayvec::IntoIter`: it yields the element
/// at its cursor and advances, or yields `None` once all are yielded.
#[verifier::external_body]
pub(crate) fn next_point(it: &mut IntoIter<GridPoint3, 2>) -> (r: Option<GridPoint3>)
    ensures
        match r {
            None => {
                &&& pending_points(*old(it)).len() == 0
                &&& pending_points(*final(it)) == pending_points(*old(it))
            },
            Some(p) => {
                &&& pending_points(*old(it)).len() > 0
                &&& p == pending_points(*old(it))[0]
                &&& pending_points(*final(it)) == pending_points(*old(it)).drop_first()
            },
        },
{
    it.next()
}

} // verus!
