use team_wizard::constants::{KeyCode, PrintableKeyCode, StyleTag, UiStyle, UiText};
use team_wizard::screen::CreationState;
use team_wizard::text::{normalize_name, trim_chars, validate_name, NameValidation};

#[test]
fn stage_order_saturates_at_both_ends() {
    assert_eq!(CreationState::TeamName.previous(), CreationState::TeamName);
    assert_eq!(CreationState::Done.next(), CreationState::Done);
    // next then previous is not the identity at the saturating end:
    assert_eq!(CreationState::Done.next().previous(), CreationState::Players);
    assert_ne!(CreationState::Done.next().previous(), CreationState::Done);
}

#[test]
fn stage_order_round_trips_in_the_interior() {
    assert_eq!(CreationState::TeamName.next().previous(), CreationState::TeamName);
    assert_eq!(CreationState::ShipName.next().previous(), CreationState::ShipName);
    assert_eq!(CreationState::Planet.next().previous(), CreationState::Planet);
    assert_eq!(CreationState::Jersey.next().previous(), CreationState::Jersey);
    assert_eq!(CreationState::ShipModel.next().previous(), CreationState::ShipModel);
    assert_eq!(CreationState::Players.next().previous(), CreationState::Players);
}

#[test]
fn stage_walk_visits_all_stages_in_order() {
    let mut s = CreationState::TeamName;
    s = s.next();
    assert_eq!(s, CreationState::ShipName);
    s = s.next();
    assert_eq!(s, CreationState::Planet);
    s = s.next();
    assert_eq!(s, CreationState::Jersey);
    s = s.next();
    assert_eq!(s, CreationState::ShipModel);
    s = s.next();
    assert_eq!(s, CreationState::Players);
    s = s.next();
    assert_eq!(s, CreationState::Done);
}

#[test]
fn validation_boundaries_at_three_and_twelve() {
    let two: Vec<char> = "Zz".chars().collect();
    let three: Vec<char> = "Zzz".chars().collect();
    let twelve: Vec<char> = "Abcdefghijkl".chars().collect();
    let thirteen: Vec<char> = "Abcdefghijklm".chars().collect();
    assert_eq!(validate_name(&two), NameValidation::TooShort);
    assert_eq!(validate_name(&three), NameValidation::Valid);
    assert_eq!(validate_name(&twelve), NameValidation::Valid);
    assert_eq!(validate_name(&thirteen), NameValidation::TooLong);
}

#[test]
fn validation_ignores_surrounding_blanks() {
    let padded: Vec<char> = "  Crew  ".chars().collect();
    assert_eq!(validate_name(&padded), NameValidation::Valid);
    let only_blanks: Vec<char> = "     ".chars().collect();
    assert_eq!(validate_name(&only_blanks), NameValidation::TooShort);
    let trimmed = trim_chars(&padded);
    let expected: Vec<char> = "Crew".chars().collect();
    assert_eq!(trimmed, expected);
    // every Unicode white-space character counts as padding, as str::trim has it
    let exotic: Vec<char> = "\u{00A0}\u{2003}Crew\n\t".chars().collect();
    assert_eq!(validate_name(&exotic), NameValidation::Valid);
    assert_eq!(trim_chars(&exotic), expected);
}

#[test]
fn normalization_trims_and_capitalizes_the_first_letter() {
    let raw: Vec<char> = " rebels ".chars().collect();
    let expected: Vec<char> = "Rebels".chars().collect();
    assert_eq!(normalize_name(&raw), expected);
    // an already upper-case first letter stays as typed
    let zonk: Vec<char> = "Zonk".chars().collect();
    assert_eq!(normalize_name(&zonk), zonk);
}

#[test]
fn key_labels_spell_the_keys() {
    assert_eq!(KeyCode::Enter.to_string(), "Enter");
    assert_eq!(KeyCode::Backspace.to_string(), "Backspace");
    assert_eq!(KeyCode::Char('x').to_string(), "x");
}

#[test]
fn ui_text_and_styles_are_fixed() {
    assert_eq!(UiText::YES, "Ayay");
    assert_eq!(UiText::NO, "Nay!");
    assert_eq!(UiStyle::OK, StyleTag::Okay);
    assert_eq!(UiStyle::ERROR, StyleTag::Error);
}
