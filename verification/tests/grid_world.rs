use evosim::grid::{Beast, Herbivore};

#[test]
fn grid_herbivore_starts_still() {
    let mut h = Herbivore::new("test".to_string(), (50, 50), 100);
    assert_eq!(h.get_id(), "test");
    assert_eq!(h.get_pos(), (50, 50));
    assert_eq!(h.get_dir(), 0);
    assert_eq!(h.get_mapsize(), 100);
    h.set_pos((3, 4));
    h.set_dir(90);
    h.set_id("x".to_string());
    assert_eq!((h.get_id(), h.get_pos(), h.get_dir()), ("x".to_string(), (3, 4), 90));
}

#[test]
fn offspring_line_ends_at_ten_bytes() {
    let h = Herbivore::new("test".to_string(), (50, 50), 100);
    let mut names = Vec::new();
    let mut cur = h;
    while let Some(child) = cur.offspring() {
        assert_eq!(child.get_pos(), (1, 1));
        assert_eq!(child.get_mapsize(), 100);
        names.push(child.get_id());
        cur = child;
    }
    assert_eq!(names, vec!["test-1", "test-1-1", "test-1-1-1"]);
}
