use dice_roll::face::Face;
use dice_roll::orientation::Orientation;
use dice_roll::tray::{Reading, Tray};
use dice_roll::vector::Vec3;

const STILL: Vec3 = Vec3 { x: 0, y: 0, z: 0 };
const MOVING: Vec3 = Vec3 { x: -9000, y: 1500, z: 0 };

fn showing(face: Face) -> Orientation {
    match face {
        Face::One => Orientation::from_xyzw(0, 0, 1, 1),
        Face::Two => Orientation::from_xyzw(1, 0, 0, 0),
        Face::Three => Orientation::from_xyzw(-1, 0, 0, 1),
        Face::Four => Orientation::from_xyzw(1, 0, 0, 1),
        Face::Five => Orientation::from_xyzw(0, 0, 0, 1),
        Face::Six => Orientation::from_xyzw(0, 0, -1, 1),
    }
}

fn reading(handle: usize, face: Face, velocity: Vec3) -> Reading {
    Reading { handle, rotation: showing(face), velocity }
}

#[test]
fn a_reading_touches_only_the_die_it_names() {
    let mut tray = Tray::new();
    tray.throw_dice();
    assert!(tray.observe(&reading(3, Face::Two, STILL)));
    assert_eq!(tray.values(), vec![None, None, None, Some(Face::Two), None]);
    assert_eq!(tray.value(3), Some(Some(Face::Two)));
    assert_eq!(tray.value(2), Some(None));
}

#[test]
fn a_reading_of_a_moving_die_changes_nothing() {
    let mut tray = Tray::new();
    tray.throw_dice();
    assert!(!tray.observe(&reading(3, Face::Two, MOVING)));
    assert_eq!(tray.values(), vec![None; 5]);
}

#[test]
fn a_reading_that_names_no_die_changes_nothing() {
    let mut tray = Tray::new();
    assert!(!tray.observe(&reading(0, Face::Two, STILL)));
    assert_eq!(tray.len(), 0);
    tray.throw_dice();
    assert!(!tray.observe(&reading(5, Face::Two, STILL)));
    assert!(!tray.observe(&reading(usize::MAX, Face::Two, STILL)));
    assert_eq!(tray.values(), vec![None; 5]);
}

#[test]
fn a_tick_takes_in_its_readings_in_order() {
    let mut tray = Tray::new();
    tray.throw_dice();
    let readings = vec![
        reading(4, Face::One, STILL),
        reading(0, Face::Three, STILL),
        reading(1, Face::Six, MOVING),
        reading(2, Face::Five, STILL),
        // a second reading of a die that the tick has resolved already
        reading(0, Face::Four, STILL),
        reading(9, Face::Four, STILL),
    ];
    tray.find_rolled_values(&readings);
    assert_eq!(
        tray.values(),
        vec![Some(Face::Three), None, Some(Face::Five), None, Some(Face::One)]
    );
    assert_eq!(tray.summary(), "3 ? 5 ? 1");
}

#[test]
fn a_tick_without_readings_changes_nothing() {
    let mut tray = Tray::new();
    tray.throw_dice();
    tray.observe(&reading(1, Face::Six, STILL));
    tray.find_rolled_values(&Vec::new());
    assert_eq!(tray.values(), vec![None, Some(Face::Six), None, None, None]);
}

#[test]
fn resolved_dice_keep_their_values_through_later_ticks() {
    let mut tray = Tray::new();
    tray.throw_dice();
    tray.find_rolled_values(&vec![reading(0, Face::Two, STILL), reading(1, Face::Four, STILL)]);
    assert_eq!(tray.values(), vec![Some(Face::Two), Some(Face::Four), None, None, None]);
    // jitter below the threshold turns the resolved dice over
    for _ in 0..5 {
        tray.find_rolled_values(&vec![
            reading(0, Face::Six, Vec3::new(1, -2, 3)),
            reading(1, Face::One, STILL),
            reading(2, Face::Three, MOVING),
        ]);
        assert_eq!(tray.values(), vec![Some(Face::Two), Some(Face::Four), None, None, None]);
    }
}

#[test]
fn the_summary_of_a_tray_follows_its_dice() {
    let mut tray = Tray::new();
    assert_eq!(tray.summary(), "");
    tray.throw_dice();
    assert_eq!(tray.summary(), "? ? ? ? ?");
    tray.observe(&reading(0, Face::Three, STILL));
    tray.observe(&reading(2, Face::Five, STILL));
    tray.observe(&reading(4, Face::One, STILL));
    assert_eq!(tray.summary(), "3 ? 5 ? 1");
    tray.throw_dice();
    assert_eq!(tray.summary(), "? ? ? ? ?");
}

#[test]
fn throw_simulate_and_read_the_text() {
    let mut tray = Tray::new();
    let batch = tray.throw_dice();
    assert_eq!(batch.len(), 5);
    // a stand-in for the physics: die `i` tumbles for `i + 2` ticks, then
    // lies still with a face of its own on top
    let faces = [Face::Six, Face::Two, Face::Four, Face::One, Face::Three];
    let mut tick = 0;
    loop {
        let mut readings = Vec::new();
        let mut all_still = true;
        for handle in 0..tray.len() {
            let still = tick >= handle + 2;
            all_still = all_still && still;
            let velocity = if still { Vec3::new(3, -9, 0) } else { batch[handle].impulse };
            let face = if still { faces[handle] } else { Face::Five };
            readings.push(reading(handle, face, velocity));
        }
        tray.find_rolled_values(&readings);
        let text = tray.summary();
        let tokens: Vec<&str> = text.split(' ').collect();
        assert_eq!(tokens.len(), 5);
        for (handle, token) in tokens.iter().enumerate() {
            let expected = match tray.value(handle).unwrap() {
                None => "?".to_string(),
                Some(face) => format!("{}", face.number()),
            };
            assert_eq!(*token, expected);
            assert!(["?", "1", "2", "3", "4", "5", "6"].contains(token));
        }
        if all_still {
            break;
        }
        tick += 1;
    }
    assert_eq!(tray.summary(), "6 2 4 1 3");
}
