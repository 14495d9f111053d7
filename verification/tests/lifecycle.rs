use dice_roll::die::Die;
use dice_roll::face::Face;
use dice_roll::orientation::Orientation;
use dice_roll::vector::Vec3;

const STILL: Vec3 = Vec3 { x: 0, y: 0, z: 0 };
const MOVING: Vec3 = Vec3 { x: 0, y: -2500, z: 0 };

#[test]
fn a_new_die_is_in_flight() {
    let die = Die::new();
    assert_eq!(die.value(), None);
    assert!(!die.is_resolved());
}

#[test]
fn the_default_die_is_in_flight() {
    let die = Die::default();
    assert_eq!(die.value(), None);
    assert!(!die.is_resolved());
}

#[test]
fn a_moving_die_stays_in_flight() {
    let mut die = Die::new();
    for _ in 0..10 {
        assert!(!die.observe(&Orientation::identity(), &MOVING));
        assert_eq!(die.value(), None);
    }
}

#[test]
fn a_die_at_rest_is_resolved_to_its_uppermost_face() {
    let mut die = Die::new();
    assert!(die.observe(&Orientation::from_xyzw(-1, 0, 0, 1), &STILL));
    assert_eq!(die.value(), Some(Face::Three));
    assert!(die.is_resolved());
}

#[test]
fn a_die_just_below_epsilon_is_resolved_and_one_at_epsilon_is_not() {
    let mut die = Die::new();
    assert!(!die.observe(&Orientation::identity(), &Vec3::new(0, 10, 0)));
    assert_eq!(die.value(), None);
    assert!(die.observe(&Orientation::identity(), &Vec3::new(-9, 9, 9)));
    assert_eq!(die.value(), Some(Face::Five));
}

#[test]
fn a_resolved_die_keeps_its_value_while_at_rest_in_another_orientation() {
    let mut die = Die::new();
    assert!(die.observe(&Orientation::identity(), &STILL));
    assert_eq!(die.value(), Some(Face::Five));
    // nudged below the threshold into other orientations
    let later = [
        Orientation::from_xyzw(0, 0, 1, 1),
        Orientation::from_xyzw(1, 0, 0, 0),
        Orientation::from_xyzw(-1, 0, 0, 1),
        Orientation::from_xyzw(1, 0, 0, 1),
        Orientation::from_xyzw(0, 0, -1, 1),
    ];
    for q in later.iter() {
        assert!(!die.observe(q, &Vec3::new(3, -3, 1)));
        assert_eq!(die.value(), Some(Face::Five));
    }
}

#[test]
fn a_resolved_die_keeps_its_value_when_it_moves_again() {
    let mut die = Die::new();
    assert!(die.observe(&Orientation::from_xyzw(0, 0, 1, 1), &STILL));
    assert_eq!(die.value(), Some(Face::One));
    assert!(!die.observe(&Orientation::identity(), &MOVING));
    assert_eq!(die.value(), Some(Face::One));
    assert!(!die.observe(&Orientation::identity(), &STILL));
    assert_eq!(die.value(), Some(Face::One));
}

#[test]
fn the_resolver_fires_once_per_die() {
    let mut die = Die::new();
    let mut fired = 0;
    for tick in 0..20 {
        let velocity = if tick < 5 { MOVING } else { STILL };
        if die.observe(&Orientation::from_xyzw(1, 0, 0, 1), &velocity) {
            fired += 1;
        }
    }
    assert_eq!(fired, 1);
    assert_eq!(die.value(), Some(Face::Four));
}
