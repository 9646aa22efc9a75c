use zero2prod::routes::subscriptions::is_valid_name_with_graphemes;
use zero2prod::routes::subscriptions::{
    is_valid_name, subscribe_admission, subscribe_response, FormData, SubscribeStep,
};
use zero2prod::routes::subscriptions_confirm::Parameters;

fn form(name: &str) -> FormData {
    FormData { email: "ursula_le_guin@gmail.com".to_string(), name: name.to_string() }
}

#[test]
fn valid_names_pass() {
    assert!(is_valid_name("le guin"));
    assert!(is_valid_name("Ursula Le Guin"));
    assert!(is_valid_name(&"a".repeat(255)));
}

#[test]
fn invalid_names_fail() {
    assert!(!is_valid_name(""));
    assert!(!is_valid_name("   "));
    assert!(!is_valid_name(&"a".repeat(256)));
    for c in ['/', '\\', '?', '<', '>'] {
        assert!(!is_valid_name(&format!("name{}", c)));
    }
}

#[test]
fn a_form_with_an_invalid_name_is_answered_400() {
    assert_eq!(subscribe_admission(&form("")), SubscribeStep::Respond(400));
    assert_eq!(subscribe_admission(&form("<script>")), SubscribeStep::Respond(400));
}

#[test]
fn a_form_with_a_valid_name_is_stored() {
    assert_eq!(subscribe_admission(&form("le guin")), SubscribeStep::Insert);
}

#[test]
fn the_answer_follows_the_insert() {
    assert_eq!(subscribe_response(true), 200);
    assert_eq!(subscribe_response(false), 500);
}

#[test]
fn every_valid_form_name_is_an_acceptable_subscriber_name() {
    for name in ["le guin", "a > b", " x ", "ё"] {
        if is_valid_name(name) {
            assert!(zero2prod::domain::SubscriberName::try_parse(name.to_string()).is_some());
        }
    }
}

#[test]
fn confirmation_parameters_hold_the_token() {
    let p = Parameters { subscription_token: "abc".to_string() };
    assert_eq!(p.subscription_token, "abc");
}

#[test]
fn the_grapheme_limit_is_255() {
    assert!(is_valid_name_with_graphemes("le guin", 255));
    assert!(!is_valid_name_with_graphemes("le guin", 256));
    assert!(!is_valid_name_with_graphemes(" ", 1));
    assert!(!is_valid_name_with_graphemes("a>b", 3));
}
