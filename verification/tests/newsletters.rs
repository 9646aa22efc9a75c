use zero2prod::routes::newsletters::{credentials_from_decoded, send_failure_with_rendering};
use zero2prod::domain::SubscriberEmail;
use zero2prod::routes::newsletters::{
    basic_authenticate, confirmed_subscribers, send_failure, validate_credentials, AuthFailure,
    BodyData, Content, PublishAction, PublishError, PublishEvent, PublishFlow, PublishStage,
};

fn auth(header: &str) -> Result<(String, String), AuthFailure> {
    basic_authenticate(Some(header.as_bytes())).map(|c| (c.username, c.password))
}

#[test]
fn basic_credentials_are_decoded() {
    assert_eq!(
        auth("Basic dXJzdWxhOmxlIGd1aW4="),
        Ok(("ursula".to_string(), "le guin".to_string()))
    );
}

#[test]
fn the_password_is_everything_after_the_first_colon() {
    assert_eq!(auth("Basic YTpiOmM="), Ok(("a".to_string(), "b:c".to_string())));
    assert_eq!(auth("Basic Og=="), Ok(("".to_string(), "".to_string())));
    assert_eq!(auth("Basic dXNlcjo="), Ok(("user".to_string(), "".to_string())));
}

#[test]
fn a_missing_header_is_refused() {
    assert_eq!(basic_authenticate(None).map(|_| ()), Err(AuthFailure::MissingHeader));
}

#[test]
fn a_header_with_invisible_bytes_is_refused() {
    let header: &[u8] = b"Basic dXNlcjo=\x01";
    assert_eq!(basic_authenticate(Some(header)).map(|_| ()), Err(AuthFailure::HeaderNotText));
    let header: &[u8] = "Basic é".as_bytes();
    assert_eq!(basic_authenticate(Some(header)).map(|_| ()), Err(AuthFailure::HeaderNotText));
}

#[test]
fn a_tab_is_allowed_in_the_header() {
    assert_eq!(auth("Basic\tdXNlcjo="), Err(AuthFailure::NotBasicScheme));
}

#[test]
fn other_schemes_are_refused() {
    assert_eq!(auth("Bearer abc"), Err(AuthFailure::NotBasicScheme));
    assert_eq!(auth("basic dXNlcjo="), Err(AuthFailure::NotBasicScheme));
    assert_eq!(auth("Basic"), Err(AuthFailure::NotBasicScheme));
}

#[test]
fn non_base64_credentials_are_refused() {
    assert_eq!(auth("Basic !!!!"), Err(AuthFailure::NotBase64));
    assert_eq!(auth("Basic a"), Err(AuthFailure::NotBase64));
}

#[test]
fn non_utf8_credentials_are_refused() {
    assert_eq!(auth("Basic //46eA=="), Err(AuthFailure::CredentialsNotUtf8));
}

#[test]
fn credentials_without_a_colon_are_refused() {
    assert_eq!(auth("Basic bm9wYXNzd29yZA=="), Err(AuthFailure::MissingPassword));
    assert_eq!(auth("Basic "), Err(AuthFailure::MissingPassword));
}

#[test]
fn failures_explain_themselves() {
    assert_eq!(AuthFailure::MissingHeader.message(), "The 'Authorization' header was missing");
    assert_eq!(
        AuthFailure::HeaderNotText.message(),
        "The 'Authorization' header was not a valid UTF-8 string"
    );
    assert_eq!(AuthFailure::NotBasicScheme.message(), "The auth scheme was not basic");
    assert_eq!(AuthFailure::NotBase64.message(), "Failed to base64-decoded 'Basic' creds");
    assert_eq!(AuthFailure::CredentialsNotUtf8.message(), "Invalid UTF-8 in decoded creds");
    assert_eq!(
        AuthFailure::MissingPassword.message(),
        "A password must be provided in 'Basic' auth."
    );
}

#[test]
fn publish_errors_map_to_status_codes() {
    let auth = PublishError::AuthError("Invalid username and password".to_string());
    assert_eq!(auth.status_code(), 401);
    assert_eq!(auth.www_authenticate(), Some("Basic realm=\"publish\"".to_string()));
    assert_eq!(auth.message(), "Authentication failed.");
    let other = PublishError::UnexpectedError("boom".to_string());
    assert_eq!(other.status_code(), 500);
    assert_eq!(other.www_authenticate(), None);
    assert_eq!(other.message(), "boom");
}

#[test]
fn credential_lookups_are_decided() {
    assert_eq!(validate_credentials(Ok(Some(7))).unwrap(), 7);
    match validate_credentials(Ok(None)) {
        Err(PublishError::AuthError(cause)) => assert_eq!(cause, "Invalid username and password"),
        other => panic!("unexpected {:?}", other),
    }
    match validate_credentials(Err("connection reset".to_string())) {
        Err(PublishError::UnexpectedError(text)) => {
            assert_eq!(text, "FFailed to pefrom a query with creds")
        }
        other => panic!("unexpected {:?}", other),
    }
}

#[test]
fn invalid_stored_addresses_become_errors() {
    let rows = vec!["a@b.com".to_string(), "nonsense".to_string(), "c@d.org".to_string()];
    let subscribers = confirmed_subscribers(&rows);
    assert_eq!(subscribers.len(), 3);
    assert_eq!(subscribers[0].as_ref().unwrap().email.as_ref(), "a@b.com");
    assert_eq!(subscribers[1].as_ref().err().unwrap(), "nonsense is not a valid email");
    assert_eq!(subscribers[2].as_ref().unwrap().email.as_ref(), "c@d.org");
}

#[test]
fn send_failures_name_the_recipient() {
    match send_failure("a@b.com") {
        PublishError::UnexpectedError(text) => {
            assert_eq!(text, "Failed to send newsletter to SubscriberEmail(\"a@b.com\")")
        }
        other => panic!("unexpected {:?}", other),
    }
}

fn recipient(action: PublishAction) -> String {
    match action {
        PublishAction::Send(email) => email.as_ref().to_string(),
        other => panic!("expected a send, got {}", describe(&other)),
    }
}

fn describe(action: &PublishAction) -> String {
    match action {
        PublishAction::LookUpUser(c) => format!("lookup {}", c.username),
        PublishAction::LoadConfirmedSubscribers => "load".to_string(),
        PublishAction::Send(e) => format!("send {}", e.as_ref()),
        PublishAction::Finish(Ok(())) => "ok".to_string(),
        PublishAction::Finish(Err(e)) => format!("error {} {}", e.status_code(), e.message()),
    }
}

fn start(flow: &mut PublishFlow, header: Option<&str>) -> PublishAction {
    let event = PublishEvent::Requested(header.map(|h| h.as_bytes().to_vec()));
    assert!(flow.expects(&event));
    flow.step(event)
}

#[test]
fn the_newsletter_reaches_every_valid_subscriber_in_order() {
    let mut flow = PublishFlow::new();
    assert_eq!(flow.stage(), PublishStage::AwaitingRequest);
    let a = start(&mut flow, Some("Basic dXJzdWxhOmxlIGd1aW4="));
    assert_eq!(describe(&a), "lookup ursula");
    let a = flow.step(PublishEvent::UserLookedUp(Ok(Some(42))));
    assert_eq!(describe(&a), "load");
    let rows = vec!["a@b.com".to_string(), "broken".to_string(), "c@d.org".to_string()];
    let a = flow.step(PublishEvent::SubscribersLoaded(Ok(rows)));
    assert_eq!(recipient(a), "a@b.com");
    assert_eq!(flow.stage(), PublishStage::Delivering);
    let a = flow.step(PublishEvent::Delivered(Ok(())));
    assert_eq!(recipient(a), "c@d.org");
    let a = flow.step(PublishEvent::Delivered(Ok(())));
    assert_eq!(describe(&a), "ok");
    assert_eq!(flow.stage(), PublishStage::Finished);
}

#[test]
fn no_valid_subscriber_means_an_immediate_200() {
    let mut flow = PublishFlow::new();
    start(&mut flow, Some("Basic dXJzdWxhOmxlIGd1aW4="));
    flow.step(PublishEvent::UserLookedUp(Ok(Some(1))));
    let a = flow.step(PublishEvent::SubscribersLoaded(Ok(vec!["x".to_string()])));
    assert_eq!(describe(&a), "ok");
}

#[test]
fn missing_credentials_are_answered_401() {
    let mut flow = PublishFlow::new();
    let a = start(&mut flow, None);
    assert_eq!(describe(&a), "error 401 Authentication failed.");
    match a {
        PublishAction::Finish(Err(PublishError::AuthError(cause))) => {
            assert_eq!(cause, "The 'Authorization' header was missing")
        }
        _ => panic!("expected an authentication error"),
    }
    assert_eq!(flow.stage(), PublishStage::Finished);
    assert!(!flow.expects(&PublishEvent::Delivered(Ok(()))));
}

#[test]
fn unknown_users_are_answered_401_and_lookup_failures_500() {
    let mut flow = PublishFlow::new();
    start(&mut flow, Some("Basic dXJzdWxhOmxlIGd1aW4="));
    let a = flow.step(PublishEvent::UserLookedUp(Ok(None)));
    assert_eq!(describe(&a), "error 401 Authentication failed.");

    let mut flow = PublishFlow::new();
    start(&mut flow, Some("Basic dXJzdWxhOmxlIGd1aW4="));
    let a = flow.step(PublishEvent::UserLookedUp(Err("db down".to_string())));
    assert_eq!(describe(&a), "error 500 FFailed to pefrom a query with creds");
}

#[test]
fn a_failed_load_is_answered_500() {
    let mut flow = PublishFlow::new();
    start(&mut flow, Some("Basic dXJzdWxhOmxlIGd1aW4="));
    flow.step(PublishEvent::UserLookedUp(Ok(Some(1))));
    let a = flow.step(PublishEvent::SubscribersLoaded(Err("pool timed out".to_string())));
    assert_eq!(describe(&a), "error 500 pool timed out");
}

#[test]
fn a_failed_delivery_stops_the_newsletter() {
    let mut flow = PublishFlow::new();
    start(&mut flow, Some("Basic dXJzdWxhOmxlIGd1aW4="));
    flow.step(PublishEvent::UserLookedUp(Ok(Some(1))));
    let rows = vec!["a@b.com".to_string(), "c@d.org".to_string()];
    let a = flow.step(PublishEvent::SubscribersLoaded(Ok(rows)));
    assert_eq!(recipient(a), "a@b.com");
    let a = flow.step(PublishEvent::Delivered(Err("503".to_string())));
    assert_eq!(
        describe(&a),
        "error 500 Failed to send newsletter to SubscriberEmail(\"a@b.com\")"
    );
    assert_eq!(flow.stage(), PublishStage::Finished);
}

#[test]
fn events_out_of_order_are_not_expected() {
    let flow = PublishFlow::new();
    assert!(!flow.expects(&PublishEvent::UserLookedUp(Ok(Some(1)))));
    assert!(!flow.expects(&PublishEvent::SubscribersLoaded(Ok(vec![]))));
    assert!(flow.expects(&PublishEvent::Requested(None)));
}

#[test]
fn a_body_holds_both_renderings() {
    let body = BodyData {
        title: "Issue 1".to_string(),
        content: Content { html: "<p>hi</p>".to_string(), text: "hi".to_string() },
    };
    assert_eq!(body.content.text, "hi");
    let email = SubscriberEmail::parse("a@b.com".to_string()).unwrap();
    assert_eq!(email.as_ref(), "a@b.com");
}

#[test]
fn decoded_credentials_are_split_at_the_first_colon() {
    let c = credentials_from_decoded(b"a:b:c".to_vec()).unwrap();
    assert_eq!((c.username.as_str(), c.password.as_str()), ("a", "b:c"));
    let c = credentials_from_decoded("jürgen:päss".as_bytes().to_vec()).unwrap();
    assert_eq!((c.username.as_str(), c.password.as_str()), ("jürgen", "päss"));
    assert_eq!(credentials_from_decoded(vec![0xff, b':']).map(|_| ()), Err(AuthFailure::CredentialsNotUtf8));
    assert_eq!(credentials_from_decoded(b"abc".to_vec()).map(|_| ()), Err(AuthFailure::MissingPassword));
}

#[test]
fn the_send_failure_quotes_the_rendering() {
    match send_failure_with_rendering("\"x@y.z\"") {
        PublishError::UnexpectedError(text) => {
            assert_eq!(text, "Failed to send newsletter to SubscriberEmail(\"x@y.z\")")
        }
        other => panic!("unexpected {:?}", other),
    }
    match send_failure("quote\"d@b.c") {
        PublishError::UnexpectedError(text) => {
            assert_eq!(text, "Failed to send newsletter to SubscriberEmail(\"quote\\\"d@b.c\")")
        }
        other => panic!("unexpected {:?}", other),
    }
}
