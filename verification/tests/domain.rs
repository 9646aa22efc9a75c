use zero2prod::domain::is_acceptable_with_graphemes;
use zero2prod::domain::{NewSubscriber, SubscriberEmail, SubscriberName};

#[test]
fn a_255_grapheme_long_name_is_valid() {
    let name = "ё".repeat(255);
    assert!(SubscriberName::try_parse(name).is_some());
}

#[test]
fn a_name_longer_than_255_graphemes_is_rejected() {
    let name = "a".repeat(256);
    assert!(SubscriberName::try_parse(name).is_none());
}

#[test]
fn graphemes_not_chars_are_counted() {
    // 255 clusters of 'e' + combining acute accent: 510 chars, 255 graphemes.
    let name = "e\u{301}".repeat(255);
    assert_eq!(name.chars().count(), 510);
    assert!(SubscriberName::try_parse(name).is_some());
}

#[test]
fn whitespace_only_names_are_rejected() {
    assert!(SubscriberName::try_parse(" ".to_string()).is_none());
    assert!(SubscriberName::try_parse("\t\n\u{3000}".to_string()).is_none());
}

#[test]
fn empty_string_is_rejected() {
    assert!(SubscriberName::try_parse("".to_string()).is_none());
}

#[test]
fn names_containing_an_invalid_character_are_rejected() {
    for name in &['/', '\\', '?', '<'] {
        let name = name.to_string();
        assert!(SubscriberName::try_parse(name).is_none());
    }
}

#[test]
fn the_name_type_allows_a_closing_angle_bracket() {
    assert!(SubscriberName::try_parse("a > b".to_string()).is_some());
}

#[test]
fn a_valid_name_is_parsed_successfully() {
    let name = SubscriberName::try_parse("Ursula Le Guin".to_string()).unwrap();
    assert_eq!(name.as_ref(), "Ursula Le Guin");
}

#[test]
fn parse_wraps_an_acceptable_name() {
    let name = SubscriberName::parse("le guin".to_string());
    assert_eq!(name.as_ref(), "le guin");
    let subscriber = NewSubscriber { email: "ursula_le_guin@gmail.com".to_string(), name };
    assert_eq!(subscriber.email, "ursula_le_guin@gmail.com");
    assert_eq!(subscriber.name.as_ref(), "le guin");
}

#[test]
fn valid_emails_are_parsed_successfully() {
    let email = SubscriberEmail::parse("ursula_le_guin@gmail.com".to_string()).unwrap();
    assert_eq!(email.as_ref(), "ursula_le_guin@gmail.com");
}

#[test]
fn empty_email_is_rejected() {
    let err = SubscriberEmail::parse("".to_string()).unwrap_err();
    assert_eq!(err, " is not a valid email");
}

#[test]
fn email_missing_at_symbol_is_rejected() {
    let err = SubscriberEmail::parse("ursuladomain.com".to_string()).unwrap_err();
    assert_eq!(err, "ursuladomain.com is not a valid email");
}

#[test]
fn email_missing_subject_is_rejected() {
    assert!(SubscriberEmail::parse("@domain.com".to_string()).is_err());
}

#[test]
fn debug_output_shows_the_address() {
    let email = SubscriberEmail::parse("a@b.com".to_string()).unwrap();
    assert_eq!(format!("{:?}", email), "SubscriberEmail(\"a@b.com\")");
}

#[test]
fn the_name_type_checks_the_given_count() {
    assert!(is_acceptable_with_graphemes("le guin", 255));
    assert!(!is_acceptable_with_graphemes("le guin", 256));
    assert!(is_acceptable_with_graphemes("a>b", 3));
    assert!(!is_acceptable_with_graphemes("a<b", 3));
    assert!(!is_acceptable_with_graphemes("\u{3000}", 1));
}
