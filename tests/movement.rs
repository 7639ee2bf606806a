use planetkit::movement::{advance, CellPos, Dir};
use planetkit::root::Root;

#[test]
fn advance_in_positive_x_direction() {
    let mut pos = CellPos {
        root: Root::new(0),
        x: 0,
        y: 0,
        z: 0,
    };
    let mut dir: Dir = 0.into();
    advance(&mut pos, &mut dir);
    assert_eq!(CellPos {
        root: Root::new(0),
        x: 1,
        y: 0,
        z: 0,
    }, pos);
    assert_eq!(Dir::new(0), dir);
}

#[test]
fn advance_keeps_root_y_and_z() {
    let mut pos = CellPos { root: Root::new(3), x: 41, y: 7, z: 9 };
    let mut dir = Dir::new(0);
    advance(&mut pos, &mut dir);
    assert_eq!(CellPos { root: Root::new(3), x: 42, y: 7, z: 9 }, pos);
}
