//! Cell positions on the globe, facing directions, and stepping between
//! cells.

use vstd::prelude::*;

use crate::root::Root;

verus! {

/// An integer coordinate of a cell.
pub type IntCoord = u64;

/// The position of a cell: its root panel and its coordinates there.
#[derive(Clone, Copy, PartialEq, Eq, Structural, Debug, Hash)]
pub struct CellPos {
    pub root: Root,
    pub x: IntCoord,
    pub y: IntCoord,
    pub z: IntCoord,
}

/// A direction to face, numbered from the positive x direction.
#[derive(Clone, Copy, PartialEq, Eq, Structural, Debug, Hash)]
pub struct Dir {
    pub index: u8,
}

impl Dir {
    pub fn new(index: u8) -> (r: Dir)
        ensures
            r.index == index,
    {
        Dir { index }
    }
}

impl From<u8> for Dir {
    fn from(index: u8) -> (r: Dir) {
        Dir::new(index)
    }
}

impl vstd::std_specs::convert::FromSpecImpl<u8> for Dir {
    open spec fn obeys_from_spec() -> bool {
        true
    }

    open spec fn from_spec(index: u8) -> Dir {
        Dir { index }
    }
}

/// Moves `pos` one cell in direction `dir`. Only the positive x direction,
/// direction 0, is supported so far; the direction is left as it is.
pub fn advance(pos: &mut CellPos, dir: &mut Dir)
    requires
        old(dir).index == 0,
        old(pos).x < IntCoord::MAX,
    ensures
        *final(pos) == (CellPos { x: (old(pos).x + 1) as IntCoord, ..*old(pos) }),
        *final(dir) == *old(dir),
{
    pos.x = pos.x + 1;
}

} // verus!
