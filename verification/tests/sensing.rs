use evosim::beast::BeastKind;
use evosim::signals::{ray_heading, Signals};

fn count_set(s: &Signals) -> usize {
    let mut n = 0;
    for t in 0..4 {
        for r in 0..24 {
            for d in 0..12 {
                if s.get(t, r, d) {
                    n += 1;
                }
            }
        }
    }
    n
}

#[test]
fn a_new_grid_is_empty() {
    assert_eq!(count_set(&Signals::new()), 0);
}

#[test]
fn set_then_get() {
    let mut s = Signals::new();
    s.set(2, 23, 11);
    assert!(s.get(2, 23, 11));
    assert_eq!(count_set(&s), 1);
    s.set(0, 0, 0);
    assert!(s.get(0, 0, 0));
    assert_eq!(count_set(&s), 2);
    s.clear();
    assert_eq!(count_set(&s), 0);
}

#[test]
fn walls_are_marked_one_before_the_radius() {
    let mut s = Signals::new();
    s.mark_wall(5, 1);
    assert!(s.get(0, 5, 0));
    s.mark_wall(6, 12);
    assert!(s.get(0, 6, 11));
    assert_eq!(count_set(&s), 2);
}

#[test]
fn sightings_beyond_the_rays_are_ignored() {
    let mut s = Signals::new();
    assert!(s.mark_sighting(BeastKind::Plant, 3, 11));
    assert!(s.get(1, 3, 11));
    assert!(!s.mark_sighting(BeastKind::Carnivore, 3, 12));
    assert!(!s.mark_sighting(BeastKind::Carnivore, 3, 1000));
    assert_eq!(count_set(&s), 1);
    assert!(s.mark_sighting(BeastKind::Herbivore, 0, 0));
    assert!(s.get(2, 0, 0));
}

#[test]
fn rays_split_the_circle() {
    assert_eq!(ray_heading(0, 0), 0);
    assert_eq!(ray_heading(0, 1), 15);
    assert_eq!(ray_heading(0, 23), 345);
    assert_eq!(ray_heading(90, 20), 30);
    assert_eq!(ray_heading(-30, 1), -15);
}
