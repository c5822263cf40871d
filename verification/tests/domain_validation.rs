//! Validator behaviour: which names and email addresses are accepted.

use zero2prod::domain::{NewSubscriber, SubscriberEmail, SubscriberName};
use zero2prod::subscriptions::FormData;

#[test]
fn subscriber_name_accepts_ordinary_names() {
    let parsed = SubscriberName::parse("le guin".to_string()).unwrap();
    assert_eq!(parsed.as_str(), "le guin");
}

#[test]
fn subscriber_name_accepts_a_256_character_name() {
    let name = "a".repeat(256);
    assert!(SubscriberName::parse(name).is_ok());
}

#[test]
fn subscriber_name_rejects_empty() {
    let r = SubscriberName::parse(String::new());
    assert_eq!(r.unwrap_err(), "not a valid subscriber name");
}

#[test]
fn subscriber_name_rejects_a_257_character_name() {
    let name = "a".repeat(257);
    assert!(SubscriberName::parse(name).is_err());
}

#[test]
fn subscriber_name_rejects_forbidden_characters() {
    for c in ['/', '(', ')', '"', '<', '>', '\\', '{', '}', '\u{7}', '\u{7f}'] {
        let name = format!("le{}guin", c);
        assert!(SubscriberName::parse(name).is_err(), "accepted {:?}", c);
    }
}

#[test]
fn subscriber_email_accepts_valid_addresses() {
    let parsed = SubscriberEmail::parse("ursula_le_guin@gmail.com".to_string()).unwrap();
    assert_eq!(parsed.as_str(), "ursula_le_guin@gmail.com");
}

#[test]
fn subscriber_email_rejects_empty() {
    let r = SubscriberEmail::parse(String::new());
    assert_eq!(r.unwrap_err(), "not a valid subscriber email");
}

#[test]
fn subscriber_email_rejects_missing_at_symbol() {
    assert!(SubscriberEmail::parse("ursulagmail.com".to_string()).is_err());
}

#[test]
fn subscriber_email_rejects_two_at_symbols() {
    assert!(SubscriberEmail::parse("ursula@le@gmail.com".to_string()).is_err());
}

#[test]
fn subscriber_email_rejects_at_symbol_at_either_end() {
    assert!(SubscriberEmail::parse("@gmail.com".to_string()).is_err());
    assert!(SubscriberEmail::parse("ursula@".to_string()).is_err());
}

#[test]
fn subscriber_email_rejects_spaces() {
    assert!(SubscriberEmail::parse("ursula le guin@gmail.com".to_string()).is_err());
}

#[test]
fn new_subscriber_reports_the_name_failure_first() {
    let form = FormData { email: "not-an-email".to_string(), name: String::new() };
    assert_eq!(NewSubscriber::parse(form).unwrap_err(), "not a valid subscriber name");
    let form = FormData { email: "not-an-email".to_string(), name: "le guin".to_string() };
    assert_eq!(NewSubscriber::parse(form).unwrap_err(), "not a valid subscriber email");
}

#[test]
fn new_subscriber_accepts_a_valid_form() {
    let form = FormData {
        email: "ursula_le_guin@gmail.com".to_string(),
        name: "le guin".to_string(),
    };
    let s = NewSubscriber::parse(form).unwrap();
    assert_eq!(s.name.as_str(), "le guin");
    assert_eq!(s.email.as_str(), "ursula_le_guin@gmail.com");
}
