use zero2prod::domain::{SubscriberName, ValidationError};

fn rejection(name: &str) -> Option<ValidationError> {
    SubscriberName::parse(name.to_string()).err()
}

#[test]
fn a_256_grapheme_name_is_valid() {
    let name = "ё".repeat(256);
    assert!(SubscriberName::parse(name).is_ok());
}

#[test]
fn a_name_longer_than_256_graphemes_is_rejected() {
    let name = "ё".repeat(257);
    assert!(SubscriberName::parse(name).is_err());
}

#[test]
fn whitespace_only_names_are_rejected() {
    let name = " ".to_string();
    assert!(SubscriberName::parse(name).is_err());
}

#[test]
fn empty_string_is_rejected() {
    let name = "".to_string();
    assert!(SubscriberName::parse(name).is_err());
}

#[test]
fn names_containing_an_invalid_character_are_rejected() {
    for name in &['/', '(', ')', '"', '<', '>', '\\', '{', '}'] {
        let name = name.to_string();
        assert!(SubscriberName::parse(name).is_err());
    }
}

#[test]
fn a_valid_name_is_parsed_successfully() {
    let name = "Ursula Le Guin".to_string();
    assert!(SubscriberName::parse(name).is_ok());
}

#[test]
fn a_valid_name_keeps_its_text_unchanged() {
    for raw in ["Ursula Le Guin", "  padded  ", "Zoë", "ё"] {
        let name = SubscriberName::parse(raw.to_string()).unwrap();
        assert_eq!(name.as_str(), raw);
    }
}

#[test]
fn length_is_counted_in_grapheme_clusters() {
    // "e" followed by a combining acute accent: two chars, one grapheme.
    let accented = "e\u{301}".repeat(256);
    assert_eq!(accented.chars().count(), 512);
    assert!(SubscriberName::parse(accented.clone()).is_ok());
    let longer = format!("{}e", accented);
    assert_eq!(rejection(&longer), Some(ValidationError::TooLong));
}

#[test]
fn each_failure_gives_its_own_error() {
    assert_eq!(rejection(""), Some(ValidationError::Empty));
    assert_eq!(rejection(" \t\n"), Some(ValidationError::Empty));
    assert_eq!(rejection(&"ё".repeat(257)), Some(ValidationError::TooLong));
    assert_eq!(rejection("a/b"), Some(ValidationError::ForbiddenCharacter));
    assert_eq!(rejection(" {x} "), Some(ValidationError::ForbiddenCharacter));
}

#[test]
fn blank_is_checked_before_length_and_length_before_characters() {
    assert_eq!(rejection(&" ".repeat(300)), Some(ValidationError::Empty));
    assert_eq!(rejection(&"/".repeat(257)), Some(ValidationError::TooLong));
}

#[test]
fn check_takes_the_grapheme_count_as_given() {
    assert_eq!(SubscriberName::check("abc", 3), Ok(()));
    assert_eq!(SubscriberName::check("abc", 257), Err(ValidationError::TooLong));
    assert_eq!(SubscriberName::check("abc", 256), Ok(()));
    assert_eq!(SubscriberName::check("   ", 3), Err(ValidationError::Empty));
    assert_eq!(SubscriberName::check("a<b", 3), Err(ValidationError::ForbiddenCharacter));
}
