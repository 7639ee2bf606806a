use vstd::prelude::*;

verus! {

/// Index of a root panel.
pub type RootIndex = u8;

/// Number of root panels in the ring around the globe.
pub const ROOT_COUNT: u8 = 5;

/// One of the root panels; panels form a ring, stepped through by
/// `next_east` and `next_west`.
#[derive(Clone, Copy, PartialEq, Eq, Structural, Debug, Hash)]
pub struct Root {
    pub index: RootIndex,
}

impl Root {
    /// A root names one of the panels when its index is below `ROOT_COUNT`.
    pub open spec fn wf(self) -> bool {
        self.index < ROOT_COUNT
    }

    pub fn new(index: RootIndex) -> (r: Root)
        ensures
            r.index == index,
    {
        Root { index: index }
    }

    /// The neighbouring root to the east, cyclically.
    pub fn next_east(&self) -> (r: Root)
        ensures
            r.index == (self.index + 1) % (ROOT_COUNT as int),
            r.wf(),
    {
        Root { index: (self.index % ROOT_COUNT + 1) % ROOT_COUNT }
    }

    /// The neighbouring root to the west, cyclically.
    pub fn next_west(&self) -> (r: Root)
        ensures
            r.index == (self.index + (ROOT_COUNT - 1)) % (ROOT_COUNT as int),
            r.wf(),
    {
        Root { index: (self.index % ROOT_COUNT + (ROOT_COUNT - 1)) % ROOT_COUNT }
    }
}

impl From<RootIndex> for Root {
    fn from(root_index: RootIndex) -> (r: Root) {
        Root::new(root_index)
    }
}

impl vstd::std_specs::convert::FromSpecImpl<RootIndex> for Root {
    open spec fn obeys_from_spec() -> bool {
        true
    }

    open spec fn from_spec(root_index: RootIndex) -> Root {
        Root { index: root_index }
    }
}

} // verus!
