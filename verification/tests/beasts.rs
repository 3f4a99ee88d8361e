use evosim::beast::{Action, BeastKind, CauseOfDeath};
use evosim::herbivore::{full_turn_angle, Herbivore, SideTest};
use evosim::plant::{Plant, ENERGY_HIGH, ENERGY_LOW};

#[test]
fn kind_names_round_trip() {
    for k in [BeastKind::Wall, BeastKind::Plant, BeastKind::Herbivore, BeastKind::Carnivore] {
        assert_eq!(BeastKind::from_name(k.name()), Some(k));
    }
    assert_eq!(BeastKind::Herbivore.name(), "Herbivore");
    assert_eq!(BeastKind::from_name("plant"), None);
    assert_eq!(BeastKind::from_name(""), None);
    assert_eq!(BeastKind::from_name("Plants"), None);
}

#[test]
fn kinds_have_their_signal_layer() {
    assert_eq!(BeastKind::Wall.signal_index(), 0);
    assert_eq!(BeastKind::Plant.signal_index(), 1);
    assert_eq!(BeastKind::Herbivore.signal_index(), 2);
    assert_eq!(BeastKind::Carnivore.signal_index(), 3);
}

#[test]
fn actions_decode_from_network_output() {
    assert_eq!(Action::from_index(-1), None);
    assert_eq!(Action::from_index(7), None);
    assert_eq!(Action::from_index(0), Some(Action::SpeedOne));
    assert_eq!(Action::from_index(4), Some(Action::Left));
    assert_eq!(Action::from_index(6), Some(Action::Back));
    for n in 0..7i64 {
        assert_eq!(Action::from_index(n).unwrap().index(), n);
    }
}

#[test]
fn causes_of_death_print_as_words() {
    assert_eq!(CauseOfDeath::Unknown.name(), "unknown");
    assert_eq!(CauseOfDeath::Starved.name(), "starved");
    assert_eq!(CauseOfDeath::Eaten.name(), "eaten");
}

#[test]
fn newborn_herbivore() {
    for _ in 0..50 {
        let h = Herbivore::new("h1".to_string(), 120, 91, 3);
        assert_eq!(h.get_id(), "h1");
        assert!(h.is_alive());
        assert!(h.get_dir() >= 0 && h.get_dir() < 360);
        assert_eq!(h.get_dir() % 15, 0);
        assert_eq!(h.get_fov(), 120);
        assert_eq!(h.get_ros(), 91);
        assert_eq!(h.get_eaten(), 0);
        assert_eq!(h.get_gen(), 3);
        assert_eq!(h.child_gen(), 4);
        assert_eq!(h.cause_of_death(), CauseOfDeath::Unknown);
    }
}

#[test]
fn turning_wraps_around() {
    let mut h = Herbivore::new("h".to_string(), 120, 91, 0);
    h.set_dir(345);
    h.left();
    assert_eq!(h.get_dir(), 0);
    h.right();
    assert_eq!(h.get_dir(), 345);
    h.set_dir(0);
    h.right();
    assert_eq!(h.get_dir(), 345);
    h.set_dir(-20);
    h.left();
    assert_eq!(h.get_dir(), -5);
    h.set_id("other".to_string());
    assert_eq!(h.get_id(), "other");
}

#[test]
fn left_and_right_undo_each_other() {
    let mut h = Herbivore::new("h".to_string(), 120, 91, 0);
    for d in 0..360 {
        h.set_dir(d);
        h.left();
        h.right();
        assert_eq!(h.get_dir(), d);
        h.right();
        h.left();
        assert_eq!(h.get_dir(), d);
    }
}

#[test]
fn twenty_four_left_turns_make_a_circle() {
    let mut h = Herbivore::new("h".to_string(), 120, 91, 0);
    let start = h.get_dir();
    for _ in 0..24 {
        h.left();
    }
    assert_eq!(h.get_dir(), start);
}

#[test]
fn a_herbivore_is_killed_once() {
    let mut h = Herbivore::new("h".to_string(), 120, 91, 0);
    assert!(h.kill());
    assert!(!h.is_alive());
    assert_eq!(h.cause_of_death(), CauseOfDeath::Eaten);
    assert!(!h.kill());
    assert_eq!(h.cause_of_death(), CauseOfDeath::Eaten);
}

#[test]
fn starving_overrides_the_cause() {
    let mut h = Herbivore::new("h".to_string(), 120, 91, 0);
    h.starve();
    assert!(!h.is_alive());
    assert_eq!(h.cause_of_death(), CauseOfDeath::Starved);
    assert!(!h.kill());
    assert_eq!(h.cause_of_death(), CauseOfDeath::Starved);
}

#[test]
fn meals_make_children_past_the_threshold() {
    let mut h = Herbivore::new("h".to_string(), 120, 91, 0);
    assert!(!h.record_meal(30));
    assert_eq!(h.get_eaten(), 30);
    assert!(!h.record_meal(20));
    assert_eq!(h.get_eaten(), 50);
    assert!(h.record_meal(25));
    assert_eq!(h.get_eaten(), 25);
}

#[test]
fn view_bounds_follow_the_heading() {
    let mut h = Herbivore::new("h".to_string(), 120, 91, 0);
    h.set_dir(90);
    let b = h.view_bounds();
    assert_eq!(b.left_slope_angle, 150 % 180);
    assert_eq!(b.right_slope_angle, 30);
    assert_eq!(b.left, SideTest::Above);
    assert_eq!(b.right, SideTest::Above);

    h.set_dir(30);
    let b = h.view_bounds();
    assert_eq!(b.left, SideTest::RightOf);
    // The right bound at -30 degrees counts as 330.
    assert_eq!(b.right, SideTest::Above);

    h.set_dir(60);
    let b = h.view_bounds();
    assert_eq!(b.left, SideTest::Above);
    assert_eq!(b.right, SideTest::Above);

    h.set_dir(330);
    let b = h.view_bounds();
    assert_eq!(b.left_slope_angle, 390 % 180);
    assert_eq!(b.left, SideTest::OnOrBelow);
    assert_eq!(b.right, SideTest::RightOf);

    // A heading of 0 puts the right bound at -60 degrees, which counts as 300;
    // its slope angle keeps the sign (the tangent is the same).
    h.set_dir(0);
    let b = h.view_bounds();
    assert_eq!(b.right_slope_angle, -60);
    assert_eq!(b.right, SideTest::Above);
    assert_eq!(b.left, SideTest::OnOrBelow);

    // Heading 200 with a field of view of 120: bounds at 260 and 140.
    h.set_dir(200);
    let b = h.view_bounds();
    assert_eq!(b.left, SideTest::Above);
    assert_eq!(b.right, SideTest::OnOrBelow);
}

#[test]
fn plants_grow_inside_the_world() {
    for _ in 0..200 {
        let p = Plant::new("p".to_string(), 500);
        let (x, y) = p.get_pos();
        assert!(x >= 10 && x < 490);
        assert!(y >= 10 && y < 490);
        assert!(p.get_energy() >= ENERGY_LOW && p.get_energy() < ENERGY_HIGH);
        assert!(p.is_alive());
        assert_eq!(p.get_id(), "p");
    }
    let p = Plant::new("q".to_string(), 21);
    assert_eq!(p.get_pos(), (10, 10));
}

#[test]
fn a_plant_is_eaten_once() {
    let mut p = Plant::new("p".to_string(), 500);
    let energy = p.get_energy();
    assert!(p.eat());
    assert!(!p.is_alive());
    assert!(!p.eat());
    assert_eq!(p.get_energy(), energy);
    p.set_pos((42, 7));
    assert_eq!(p.get_pos(), (42, 7));
    p.set_id("r".to_string());
    assert_eq!(p.get_id(), "r");
}

#[test]
fn right_bound_mirrors_left_bound() {
    let mut a = Herbivore::new("a".to_string(), 120, 91, 0);
    let mut b = Herbivore::new("b".to_string(), 120, 91, 0);
    // a's left bound and b's right bound both lie at 90 degrees.
    a.set_dir(30);
    b.set_dir(150);
    assert_eq!(a.view_bounds().left, SideTest::RightOf);
    assert_eq!(b.view_bounds().right, SideTest::LeftOf);
    // ... and both at 200 degrees.
    a.set_dir(140);
    b.set_dir(260);
    assert_eq!(a.view_bounds().left, SideTest::Above);
    assert_eq!(b.view_bounds().right, SideTest::OnOrBelow);
}

#[test]
fn angles_are_brought_into_a_full_turn() {
    assert_eq!(full_turn_angle(-60), 300);
    assert_eq!(full_turn_angle(-360), 0);
    assert_eq!(full_turn_angle(-361), 359);
    assert_eq!(full_turn_angle(725), 5);
    assert_eq!(full_turn_angle(0), 0);
}
