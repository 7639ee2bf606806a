use planetkit::root::Root;

#[test]
fn next_west() {
    let root: Root = 3.into();
    assert_eq!(2, root.next_west().index);
}

#[test]
fn next_west_wraps_from_first_root() {
    assert_eq!(4, Root::new(0).next_west().index);
}

#[test]
fn next_east_wraps_from_last_root() {
    assert_eq!(0, Root::new(4).next_east().index);
    assert_eq!(3, Root::new(2).next_east().index);
}

#[test]
fn east_then_west_returns_to_start() {
    for index in 0..5u8 {
        let root = Root::new(index);
        assert_eq!(root, root.next_east().next_west());
    }
}
