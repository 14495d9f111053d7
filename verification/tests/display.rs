use dice_roll::display::{summary, PLACEHOLDER, SEPARATOR};
use dice_roll::face::Face;

#[test]
fn summary_shows_values_in_creation_order() {
    let values = vec![Some(Face::Three), None, Some(Face::Five), None, Some(Face::One)];
    assert_eq!(summary(&values), "3 ? 5 ? 1");
}

#[test]
fn summary_of_no_dice_is_empty() {
    assert_eq!(summary(&Vec::new()), "");
}

#[test]
fn summary_of_one_die_has_no_separator() {
    assert_eq!(summary(&vec![None]), "?");
    assert_eq!(summary(&vec![Some(Face::Six)]), "6");
}

#[test]
fn summary_of_dice_in_flight_is_all_placeholders() {
    assert_eq!(summary(&vec![None; 5]), "? ? ? ? ?");
}

#[test]
fn summary_shows_every_numeral() {
    let values = vec![
        Some(Face::One),
        Some(Face::Two),
        Some(Face::Three),
        Some(Face::Four),
        Some(Face::Five),
        Some(Face::Six),
    ];
    assert_eq!(summary(&values), "1 2 3 4 5 6");
}

#[test]
fn summary_has_a_token_at_each_even_place_and_a_space_at_each_odd_one() {
    let values = vec![Some(Face::Two), None, None, Some(Face::Four), Some(Face::Two), None, None];
    let text: Vec<char> = summary(&values).chars().collect();
    assert_eq!(text.len(), 2 * values.len() - 1);
    for (i, c) in text.iter().enumerate() {
        if i % 2 == 1 {
            assert_eq!(*c, SEPARATOR);
        } else {
            match values[i / 2] {
                None => assert_eq!(*c, PLACEHOLDER),
                Some(face) => assert_eq!(*c as u32, '0' as u32 + face.number() as u32),
            }
        }
    }
}

#[test]
fn placeholder_and_separator_are_the_usual_ones() {
    assert_eq!(PLACEHOLDER, '?');
    assert_eq!(SEPARATOR, ' ');
}
