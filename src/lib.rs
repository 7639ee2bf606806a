//! Grid coordinates on a globe tiled by five quadrilateral root panels, and
//! the resolver that finds every coordinate naming the same physical point.
//! Also cell positions and stepping, and the routing of queued messages
//! between network peers.

pub mod root;
pub mod grid;
pub mod point_buffer;
pub mod equivalent_points;
pub mod laws;
pub mod movement;
pub mod net;
