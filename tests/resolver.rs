use planetkit::equivalent_points::{classify, equivalent_points, EquivalentPoints, Region};
use planetkit::grid::{semi_arbitrary_compare, GridCoord, GridPoint3};
use planetkit::root::Root;
use std::cmp::Ordering;

const RES: [GridCoord; 2] = [8, 16];

fn pt(root: u8, x: GridCoord, y: GridCoord, z: GridCoord) -> GridPoint3 {
    GridPoint3::new(Root::new(root), x, y, z)
}

fn all_points(res: [GridCoord; 2]) -> Vec<GridPoint3> {
    let mut points = Vec::new();
    for root in 0..5u8 {
        for x in 0..=res[0] {
            for y in 0..=res[1] {
                points.push(pt(root, x, y, 5));
            }
        }
    }
    points
}

#[test]
fn classify_follows_priority_order() {
    assert_eq!(classify(&pt(0, 0, 0, 1), RES), Region::NorthPole);
    assert_eq!(classify(&pt(0, 8, 16, 1), RES), Region::SouthPole);
    assert_eq!(classify(&pt(0, 0, 7, 1), RES), Region::EastArctic);
    assert_eq!(classify(&pt(0, 8, 0, 1), RES), Region::WestArctic);
    assert_eq!(classify(&pt(0, 0, 8, 1), RES), Region::EastTropics);
    assert_eq!(classify(&pt(0, 0, 16, 1), RES), Region::EastTropics);
    assert_eq!(classify(&pt(0, 8, 7, 1), RES), Region::WestTropics);
    assert_eq!(classify(&pt(0, 1, 16, 1), RES), Region::EastAntarctic);
    assert_eq!(classify(&pt(0, 8, 8, 1), RES), Region::WestAntarctic);
    assert_eq!(classify(&pt(0, 1, 1, 1), RES), Region::Interior);
}

#[test]
fn iterator_yields_each_point_then_none() {
    let mut points = EquivalentPoints::new(pt(1, 0, 0, 3), RES);
    for root in 0..5u8 {
        assert_eq!(points.next(), Some(pt(root, 0, 0, 3)));
    }
    assert_eq!(points.next(), None);
    assert_eq!(points.next(), None);
}

#[test]
fn seam_iterator_yields_point_then_partner() {
    let mut points = EquivalentPoints::new(pt(0, 8, 3, 2), RES);
    assert_eq!(points.next(), Some(pt(0, 8, 3, 2)));
    assert_eq!(points.next(), Some(pt(4, 0, 11, 2)));
    assert_eq!(points.next(), None);
}

#[test]
fn every_point_is_equivalent_to_itself() {
    for p in all_points(RES) {
        assert!(equivalent_points(p, RES).contains(&p));
    }
}

#[test]
fn equivalence_is_symmetric() {
    for p in all_points(RES) {
        for q in equivalent_points(p, RES) {
            assert!(equivalent_points(q, RES).contains(&p));
        }
    }
}

#[test]
fn class_sizes_follow_region() {
    for p in all_points(RES) {
        let n = equivalent_points(p, RES).len();
        match classify(&p, RES) {
            Region::NorthPole | Region::SouthPole => assert_eq!(n, 5),
            Region::Interior => assert_eq!(n, 1),
            _ => assert_eq!(n, 2),
        }
    }
}

#[test]
fn no_point_is_repeated() {
    for p in all_points(RES) {
        let mut points = equivalent_points(p, RES);
        let n = points.len();
        points.sort_by(semi_arbitrary_compare);
        points.dedup();
        assert_eq!(points.len(), n);
    }
}

#[test]
fn z_is_kept_by_every_equivalent_point() {
    for p in all_points(RES) {
        for q in equivalent_points(p, RES) {
            assert_eq!(q.z, p.z);
        }
    }
}

#[test]
fn zero_resolution_has_only_the_pole() {
    let points = equivalent_points(pt(2, 0, 0, 9), [0, 0]);
    assert_eq!(points.len(), 5);
    assert!(points.iter().all(|q| q.x_coord() == 0 && q.y_coord() == 0 && q.z == 9));
}

#[test]
fn west_arctic_corner_meets_east_tropics() {
    let mut points = equivalent_points(pt(1, 8, 0, 0), RES);
    points.sort_by(semi_arbitrary_compare);
    assert_eq!(points, vec![pt(0, 0, 8, 0), pt(1, 8, 0, 0)]);
}

#[test]
fn compare_orders_by_root_then_coordinates() {
    assert_eq!(semi_arbitrary_compare(&pt(0, 9, 9, 9), &pt(1, 0, 0, 0)), Ordering::Less);
    assert_eq!(semi_arbitrary_compare(&pt(1, 2, 0, 0), &pt(1, 1, 9, 9)), Ordering::Greater);
    assert_eq!(semi_arbitrary_compare(&pt(1, 1, 2, 0), &pt(1, 1, 3, 0)), Ordering::Less);
    assert_eq!(semi_arbitrary_compare(&pt(1, 1, 3, 4), &pt(1, 1, 3, 2)), Ordering::Greater);
    assert_eq!(semi_arbitrary_compare(&pt(1, 1, 3, 4), &pt(1, 1, 3, 4)), Ordering::Equal);
}
