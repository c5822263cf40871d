//! The confirmation workflow end to end: an issued token confirms its
//! subscriber, repeatably; an unknown token is rejected and changes
//! nothing.

use zero2prod::confirmation::{confirm, confirmation_result_of, confirmation_status_code, ConfirmationResult};
use zero2prod::store::{ConfirmationOutcome, SubscriberStatus, SubscriptionStore};
use zero2prod::subscriptions::subscribe;

/// Register one subscriber and hand back the token carried by the
/// captured outbound email's confirmation link.
fn register_and_capture_token(store: &mut SubscriptionStore) -> String {
    let (status, registration) = subscribe(
        store,
        "name=le%20guin&email=ursula_le_guin%40gmail.com",
        "http://127.0.0.1",
    );
    assert_eq!(status, 200);
    let body = registration.unwrap().email.plain_body;
    let marker = "subscription_token=";
    let at = body.find(marker).expect("no token in the email body") + marker.len();
    body[at..at + 25].to_string()
}

#[test]
fn confirming_with_the_emailed_token_succeeds_twice() {
    let mut store = SubscriptionStore::new();
    let token = register_and_capture_token(&mut store);

    let first = confirm(&mut store, token.as_str());
    assert_eq!(first, ConfirmationResult::Success);
    assert_eq!(store.subscriber_at(0).status, SubscriberStatus::Confirmed);

    // re-presenting the exhausted token is a no-op success, not an error
    let second = confirm(&mut store, token.as_str());
    assert_eq!(second, ConfirmationResult::Success);
    assert_eq!(store.subscriber_at(0).status, SubscriberStatus::Confirmed);
    assert_eq!(store.subscriber_count(), 1);
    assert_eq!(store.token_count(), 1);
}

#[test]
fn confirming_with_a_never_issued_token_is_rejected() {
    let mut store = SubscriptionStore::new();
    let issued = register_and_capture_token(&mut store);
    // a well-shaped 25-character token that was never issued
    let mut foreign = "ABCDEFGHIJKLMNOPQRSTUVWXY".to_string();
    if foreign == issued {
        foreign = "abcdefghijklmnopqrstuvwxy".to_string();
    }

    let r = confirm(&mut store, foreign.as_str());
    assert_eq!(r, ConfirmationResult::Rejected);
    // no subscriber was mutated
    assert_eq!(store.subscriber_at(0).status, SubscriberStatus::PendingConfirmation);
    assert_eq!(store.subscriber_count(), 1);
    assert_eq!(store.token_count(), 1);
}

#[test]
fn confirming_on_an_empty_store_is_rejected() {
    let mut store = SubscriptionStore::new();
    let r = confirm(&mut store, "ABCDEFGHIJKLMNOPQRSTUVWXY");
    assert_eq!(r, ConfirmationResult::Rejected);
    assert_eq!(store.subscriber_count(), 0);
}

#[test]
fn store_outcomes_map_to_results_variant_for_variant() {
    assert_eq!(
        confirmation_result_of(ConfirmationOutcome::Confirmed),
        ConfirmationResult::Success
    );
    assert_eq!(
        confirmation_result_of(ConfirmationOutcome::TokenNotFound),
        ConfirmationResult::Rejected
    );
    assert_eq!(
        confirmation_result_of(ConfirmationOutcome::StoreError),
        ConfirmationResult::TransientFailure
    );
}

#[test]
fn confirmation_results_map_to_status_codes() {
    assert_eq!(confirmation_status_code(&ConfirmationResult::Success), 200);
    assert_eq!(confirmation_status_code(&ConfirmationResult::Rejected), 401);
    assert_eq!(confirmation_status_code(&ConfirmationResult::TransientFailure), 500);
}
