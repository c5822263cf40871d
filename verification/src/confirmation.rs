//! The confirmation workflow: resolve an incoming token against the store
//! and map the store's outcome to the client-visible result. All transition
//! logic lives in the store, so that the lookup and the state change stay
//! atomic; this layer is intentionally thin.

use vstd::prelude::*;

use crate::store::{ConfirmationOutcome, StoreModel, SubscriberStatus, SubscriptionStore};

verus! {

/// The client-visible result of presenting a confirmation token.
#[derive(Clone, Copy, Debug, PartialEq, Eq, Structural)]
pub enum ConfirmationResult {
    /// The subscriber is confirmed — also when the same token had already
    /// confirmed them earlier.
    Success,
    /// The token matches no issued token.
    Rejected,
    /// The backing store failed transiently.
    TransientFailure,
}

/// How the store's outcome maps to the client-visible result.
pub open spec fn result_of_outcome(o: ConfirmationOutcome) -> ConfirmationResult {
    match o {
        ConfirmationOutcome::Confirmed => ConfirmationResult::Success,
        ConfirmationOutcome::TokenNotFound => ConfirmationResult::Rejected,
        ConfirmationOutcome::StoreError => ConfirmationResult::TransientFailure,
    }
}

/// Map a store outcome to the client-visible result, variant for variant.
pub fn confirmation_result_of(o: ConfirmationOutcome) -> (r: ConfirmationResult)
    ensures
        r == result_of_outcome(o),
{
    match o {
        ConfirmationOutcome::Confirmed => ConfirmationResult::Success,
        ConfirmationOutcome::TokenNotFound => ConfirmationResult::Rejected,
        ConfirmationOutcome::StoreError => ConfirmationResult::TransientFailure,
    }
}

/// The status code a confirmation answers with: success and idempotent
/// re-confirmation map to 200, an unknown token to an unauthorized-style
/// 401, a transient store failure to 500.
pub fn confirmation_status_code(r: &ConfirmationResult) -> (c: u16)
    ensures
        c == 200 <==> r is Success,
        c == 401 <==> r is Rejected,
        c == 500 <==> r is TransientFailure,
{
    match r {
        ConfirmationResult::Success => 200,
        ConfirmationResult::Rejected => 401,
        ConfirmationResult::TransientFailure => 500,
    }
}

/// Confirm a subscription from a token presented at the confirmation
/// endpoint. A known token confirms its subscriber — repeatably and
/// harmlessly; an unknown token is rejected and mutates nothing. The
/// in-memory store never fails transiently.
pub fn confirm(store: &mut SubscriptionStore, token: &str) -> (r: ConfirmationResult)
    requires
        old(store)@.wf(),
    ensures
        final(store)@.wf(),
        final(store)@ == old(store)@.confirm_transition(token@).0,
        r == result_of_outcome(old(store)@.confirm_transition(token@).1),
        r != ConfirmationResult::TransientFailure,
{
    let outcome = store.confirm_by_token(token);
    confirmation_result_of(outcome)
}

/// Law: presenting a valid token twice confirms the subscriber on the
/// first call and answers success on both; the second call changes
/// nothing. Re-presenting an exhausted token is a no-op, not an error.
pub proof fn lemma_confirm_idempotent(m: StoreModel, t: Seq<char>)
    requires
        m.wf(),
        m.has_token(t),
    ensures
        ({
            let once = m.confirm_transition(t);
            let twice = once.0.confirm_transition(t);
            &&& once.1 == ConfirmationOutcome::Confirmed
            &&& once.0.wf()
            &&& once.0.has_token(t)
            &&& once.0.token_owner(t) == m.token_owner(t)
            &&& once.0.status_of(m.token_owner(t)) == SubscriberStatus::Confirmed
            &&& twice.1 == ConfirmationOutcome::Confirmed
            &&& twice.0 == once.0
        }),
{
    let owner = m.token_owner(t);
    let ti = m.token_index(t);
    assert(0 <= ti < m.tokens.len() && m.tokens[ti].token == t);
    let m1 = m.confirm_subscriber(owner);
    crate::store::lemma_confirm_preserves_wf(m, owner);
    assert(m1.tokens[ti].token == t);
    assert(m1.has_token(t));
    crate::store::lemma_unique_token_index(m, t, ti);
    crate::store::lemma_unique_token_index(m1, t, ti);
    assert(m1.token_owner(t) == owner);
    assert(m.has_subscriber_id(owner));
    let w = m.subscriber_index(owner);
    assert(0 <= w < m.subscribers.len() && m.subscribers[w].id == owner);
    assert(m1.subscribers[w].id == owner);
    crate::store::lemma_unique_subscriber_index(m, owner, w);
    crate::store::lemma_unique_subscriber_index(m1, owner, w);
    assert(m1.subscribers[w].status == SubscriberStatus::Confirmed);
    assert(m1.status_of(owner) == SubscriberStatus::Confirmed);
    let m2 = m1.confirm_subscriber(owner);
    assert forall|k: int| 0 <= k < m2.subscribers.len() implies m2.subscribers[k]
        =~= m1.subscribers[k] by {
        if m1.subscribers[k].id == owner {
            assert(m.subscribers[k].id == owner);
            assert(m1.subscribers[k].status == SubscriberStatus::Confirmed);
        }
    }
    assert(m2.subscribers =~= m1.subscribers);
    assert(m2 =~= m1);
}

/// Law: a subscriber's identity, address, name and timestamp are
/// immutable, the token rows are untouched, and the status only ever
/// moves forward: resolving a token changes at most one status, from
/// pending to confirmed, never back.
pub proof fn lemma_confirm_changes_only_status_forward(m: StoreModel, t: Seq<char>, i: int)
    requires
        0 <= i < m.subscribers.len(),
    ensures
        ({
            let m2 = m.confirm_transition(t).0;
            &&& m2.subscribers.len() == m.subscribers.len()
            &&& m2.subscribers[i].id == m.subscribers[i].id
            &&& m2.subscribers[i].email == m.subscribers[i].email
            &&& m2.subscribers[i].name == m.subscribers[i].name
            &&& m2.subscribers[i].subscribed_at == m.subscribers[i].subscribed_at
            &&& (m.subscribers[i].status == SubscriberStatus::Confirmed
                ==> m2.subscribers[i].status == SubscriberStatus::Confirmed)
            &&& m2.tokens == m.tokens
        }),
{
}

/// Law: a string that matches no issued token is rejected and the store
/// is left exactly as it was — no subscriber is mutated.
pub proof fn lemma_confirm_unknown_token(m: StoreModel, t: Seq<char>)
    requires
        !m.has_token(t),
    ensures
        m.confirm_transition(t).0 == m,
        m.confirm_transition(t).1 == ConfirmationOutcome::TokenNotFound,
{
}

} // verus!
