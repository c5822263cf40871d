//! The registration workflow end to end: a valid submission persists
//! exactly one pending subscriber with one token and prepares exactly one
//! confirmation email; an invalid one is refused with no side effects.

use zero2prod::store::{SubscriberStatus, SubscriptionStore};
use zero2prod::subscriptions::{
    build_confirmation_email, build_confirmation_link, register, register_with, subscribe,
    FormData, SubscribeError,
};
use zero2prod::token::is_well_formed_token;

fn valid_form() -> FormData {
    FormData {
        email: "ursula_le_guin@gmail.com".to_string(),
        name: "le guin".to_string(),
    }
}

#[test]
fn subscribe_returns_a_200_for_valid_form_data() {
    let mut store = SubscriptionStore::new();
    let (status, registration) = subscribe(
        &mut store,
        "name=le%20guin&email=ursula_le_guin%40gmail.com",
        "http://127.0.0.1",
    );
    assert_eq!(status, 200);
    let registration = registration.unwrap();

    // exactly one pending subscriber row with the decoded identity
    assert_eq!(store.subscriber_count(), 1);
    let saved = store.subscriber_at(0);
    assert_eq!(saved.email.as_str(), "ursula_le_guin@gmail.com");
    assert_eq!(saved.name.as_str(), "le guin");
    assert_eq!(saved.status, SubscriberStatus::PendingConfirmation);

    // exactly one token row, owned by that subscriber
    assert_eq!(store.token_count(), 1);
    let token_row = store.token_at(0);
    assert_eq!(token_row.subscriber_id, saved.id);
    assert!(is_well_formed_token(token_row.token.as_str()));

    // one outbound email to that address, both bodies holding the link
    assert_eq!(registration.email.to, "ursula_le_guin@gmail.com");
    assert_eq!(registration.email.subject, "Welcome!");
    let link = format!(
        "http://127.0.0.1/subscriptions/confirm?subscription_token={}",
        token_row.token
    );
    assert!(registration.email.plain_body.contains(&link));
    assert!(registration.email.html_body.contains(&link));
}

#[test]
fn subscribe_accepts_a_name_beyond_ascii() {
    let mut store = SubscriptionStore::new();
    let (status, registration) = subscribe(
        &mut store,
        "name=gr%C3%BC%C3%9F&email=ursula_le_guin%40gmail.com",
        "http://127.0.0.1",
    );
    assert_eq!(status, 200);
    assert!(registration.is_some());
    assert_eq!(store.subscriber_count(), 1);
    let saved = store.subscriber_at(0);
    assert_eq!(saved.name.as_str(), "grüß");
    assert_eq!(saved.email.as_str(), "ursula_le_guin@gmail.com");
    assert_eq!(saved.status, SubscriberStatus::PendingConfirmation);
}

#[test]
fn subscribe_returns_a_400_when_data_is_missing() {
    let test_cases = [
        ("name=le%20guin", "missing the email"),
        ("email=ursula_le_guin%40gmail.com", "missing the name"),
        ("", "missing both name and email"),
    ];
    for (invalid_body, error_message) in test_cases {
        let mut store = SubscriptionStore::new();
        let (status, registration) = subscribe(&mut store, invalid_body, "http://127.0.0.1");
        assert_eq!(status, 400, "did not fail with 400 when the payload was {}", error_message);
        assert!(registration.is_none());
        assert_eq!(store.subscriber_count(), 0);
        assert_eq!(store.token_count(), 0);
    }
}

#[test]
fn register_rejects_a_malformed_email_with_no_side_effects() {
    let mut store = SubscriptionStore::new();
    let form = FormData { email: "definitely-not-an-email".to_string(), name: "le guin".to_string() };
    let r = register(&mut store, form, "http://127.0.0.1");
    let e = r.unwrap_err();
    assert!(matches!(e, SubscribeError::ValidationError(_)));
    assert_eq!(e.status_code(), 400);
    assert_eq!(store.subscriber_count(), 0);
    assert_eq!(store.token_count(), 0);
}

#[test]
fn register_rejects_an_empty_name_with_no_side_effects() {
    let mut store = SubscriptionStore::new();
    let form = FormData { email: "ursula_le_guin@gmail.com".to_string(), name: String::new() };
    let r = register(&mut store, form, "http://127.0.0.1");
    let e = r.unwrap_err();
    assert!(matches!(e, SubscribeError::ValidationError(_)));
    assert_eq!(store.subscriber_count(), 0);
    assert_eq!(store.token_count(), 0);
}

#[test]
fn register_with_a_duplicate_subscriber_id_is_a_database_error() {
    let mut store = SubscriptionStore::new();
    let token_a = "aaaaaaaaaaaaaaaaaaaaaaaaa".to_string();
    let token_b = "bbbbbbbbbbbbbbbbbbbbbbbbb".to_string();
    register_with(&mut store, valid_form(), "http://127.0.0.1", 7, token_a, 0).unwrap();
    let r = register_with(&mut store, valid_form(), "http://127.0.0.1", 7, token_b, 0);
    let e = r.unwrap_err();
    assert!(matches!(e, SubscribeError::DatabaseError));
    assert_eq!(e.status_code(), 500);
    // the refused write left nothing behind
    assert_eq!(store.subscriber_count(), 1);
    assert_eq!(store.token_count(), 1);
}

#[test]
fn register_with_a_duplicate_token_is_a_store_token_error() {
    let mut store = SubscriptionStore::new();
    let token = "aaaaaaaaaaaaaaaaaaaaaaaaa".to_string();
    register_with(&mut store, valid_form(), "http://127.0.0.1", 7, token.clone(), 0).unwrap();
    let r = register_with(&mut store, valid_form(), "http://127.0.0.1", 8, token, 0);
    let e = r.unwrap_err();
    assert!(matches!(e, SubscribeError::StoreTokenError));
    assert_eq!(e.status_code(), 500);
    assert_eq!(store.subscriber_count(), 1);
    assert_eq!(store.token_count(), 1);
}

#[test]
fn send_email_error_maps_to_a_500() {
    assert_eq!(SubscribeError::SendEmailError.status_code(), 500);
    assert_eq!(SubscribeError::ValidationError("m".to_string()).status_code(), 400);
}

#[test]
fn confirmation_link_joins_base_url_and_token() {
    let link = build_confirmation_link("http://example.com", "ABCDEFGHIJKLMNOPQRSTUVWXY");
    assert_eq!(
        link,
        "http://example.com/subscriptions/confirm?subscription_token=ABCDEFGHIJKLMNOPQRSTUVWXY"
    );
    // a base URL already ending in a slash gains no second one
    let link = build_confirmation_link("http://example.com/", "ABCDEFGHIJKLMNOPQRSTUVWXY");
    assert_eq!(
        link,
        "http://example.com/subscriptions/confirm?subscription_token=ABCDEFGHIJKLMNOPQRSTUVWXY"
    );
}

#[test]
fn confirmation_email_bodies_follow_the_fixed_format() {
    let email = build_confirmation_email(
        "ursula_le_guin@gmail.com".to_string(),
        "http://x/subscriptions/confirm?subscription_token=t",
    );
    assert_eq!(email.to, "ursula_le_guin@gmail.com");
    assert_eq!(email.subject, "Welcome!");
    assert_eq!(
        email.plain_body,
        "Welcome to our newsletter!\nVisit http://x/subscriptions/confirm?subscription_token=t to confirm your subscription."
    );
    assert_eq!(
        email.html_body,
        "Welcome to our newsletter!<br /> Click <a href=\"http://x/subscriptions/confirm?subscription_token=t\">here</a> to confirm your subscription."
    );
}
