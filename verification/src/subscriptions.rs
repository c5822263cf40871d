//! The registration workflow: validate the submitted form, atomically
//! persist a pending subscriber with a fresh confirmation token, and build
//! the confirmation email that the caller dispatches. Validation happens
//! before any write; an email is built only after the write committed.

use vstd::prelude::*;

use crate::domain::{
    email_error_message, name_error_message, valid_email, valid_name, NewSubscriber,
    SubscriberEmail, SubscriberName,
};
use crate::form::{parse_form, parse_form_body};
use crate::store::{StoreWriteError, SubscriptionStore};
use crate::token::{generate_subscription_token, valid_token};

verus! {

use vstd::string::StrSliceExecFns;
use vstd::string::StringExecFns;

/// The raw subscription form, as the HTTP boundary hands it over.
pub struct FormData {
    pub email: String,
    pub name: String,
}

/// Everything that can go wrong while registering a subscriber. Each
/// variant maps to exactly one client-visible status code.
#[derive(Debug)]
pub enum SubscribeError {
    /// The submitted name or email was rejected; the message says which.
    ValidationError(String),
    /// The subscriber row could not be written (here: the identifier would
    /// collide with an existing row).
    DatabaseError,
    /// The token row could not be written (here: the token string would
    /// collide with an existing row).
    StoreTokenError,
    /// The confirmation email could not be delivered. The subscriber stays
    /// durably persisted as pending; nothing is rolled back.
    SendEmailError,
}

impl SubscribeError {
    /// The status code a failed registration answers with.
    pub open spec fn spec_status_code(&self) -> u16 {
        if self is ValidationError {
            400
        } else {
            500
        }
    }

    /// Client input maps to 400, everything else to 500.
    pub fn status_code(&self) -> (r: u16)
        ensures
            r == self.spec_status_code(),
    {
        match self {
            SubscribeError::ValidationError(_) => 400,
            SubscribeError::DatabaseError => 500,
            SubscribeError::StoreTokenError => 500,
            SubscribeError::SendEmailError => 500,
        }
    }
}

impl NewSubscriber {
    /// Validate a submitted form, name first, then email. Succeeds exactly
    /// when both parts are valid; the error carries the validator's
    /// message for the first part that was rejected.
    pub fn parse(form: FormData) -> (r: Result<NewSubscriber, String>)
        ensures
            r is Ok <==> valid_name(form.name@) && valid_email(form.email@),
            r matches Ok(n) ==> n.name@ == form.name@ && n.email@ == form.email@ && n.wf(),
            r matches Err(e) ==> (if valid_name(form.name@) {
                e@ == email_error_message()
            } else {
                e@ == name_error_message()
            }),
    {
        let FormData { email, name } = form;
        let name = match SubscriberName::parse(name) {
            Ok(n) => n,
            Err(e) => {
                return Err(e);
            },
        };
        let email = match SubscriberEmail::parse(email) {
            Ok(e) => e,
            Err(e) => {
                return Err(e);
            },
        };
        Ok(NewSubscriber { email, name })
    }
}

/// The fixed path and query-parameter name of a confirmation link. The
/// confirmation endpoint parses the same shape back.
pub open spec fn confirmation_path_query() -> Seq<char> {
    "subscriptions/confirm?subscription_token="@
}

/// The confirmation link: the base URL, a single separating slash, the
/// fixed path, and the token as the query parameter's value.
pub open spec fn confirmation_link_of(base: Seq<char>, token: Seq<char>) -> Seq<char> {
    if base.len() > 0 && base.last() == '/' {
        base + confirmation_path_query() + token
    } else {
        base.push('/') + confirmation_path_query() + token
    }
}

/// The plain-text body of the confirmation email.
pub open spec fn plain_body_of(link: Seq<char>) -> Seq<char> {
    "Welcome to our newsletter!\nVisit "@ + link + " to confirm your subscription."@
}

/// The HTML body of the confirmation email.
pub open spec fn html_body_of(link: Seq<char>) -> Seq<char> {
    "Welcome to our newsletter!<br /> Click <a href=\""@ + link
        + "\">here</a> to confirm your subscription."@
}

/// One email ready to be dispatched: a recipient, a subject, and the two
/// body renderings, both carrying the confirmation link.
#[derive(Debug)]
pub struct OutboundEmail {
    pub to: String,
    pub subject: String,
    pub plain_body: String,
    pub html_body: String,
}

/// Join the base URL and the fixed confirmation path, with the token as
/// the query parameter.
pub fn build_confirmation_link(base_url: &str, token: &str) -> (r: String)
    ensures
        r@ == confirmation_link_of(base_url@, token@),
{
    let mut link: String = base_url.to_owned();
    let len = base_url.unicode_len();
    if len == 0 || base_url.get_char(len - 1) != '/' {
        link.append("/");
        proof {
            reveal_strlit("/");
            assert(link@ =~= base_url@.push('/'));
        }
    }
    link.append("subscriptions/confirm?subscription_token=");
    link.append(token);
    link
}

/// Build the confirmation email for a recipient from the confirmation
/// link: fixed subject, and a plain and an HTML body both holding the
/// link.
pub fn build_confirmation_email(recipient: String, link: &str) -> (r: OutboundEmail)
    ensures
        r.to@ == recipient@,
        r.subject@ == "Welcome!"@,
        r.plain_body@ == plain_body_of(link@),
        r.html_body@ == html_body_of(link@),
{
    let mut plain: String = "Welcome to our newsletter!\nVisit ".to_owned();
    plain.append(link);
    plain.append(" to confirm your subscription.");
    let mut html: String = "Welcome to our newsletter!<br /> Click <a href=\"".to_owned();
    html.append(link);
    html.append("\">here</a> to confirm your subscription.");
    OutboundEmail {
        to: recipient,
        subject: "Welcome!".to_owned(),
        plain_body: plain,
        html_body: html,
    }
}

/// A successful registration: the persisted identifiers and the email
/// that now awaits dispatch.
#[derive(Debug)]
pub struct Registration {
    pub subscriber_id: u128,
    pub token: String,
    pub subscribed_at: i64,
    pub email: OutboundEmail,
}

/// Whether a submitted form passes validation as a whole.
pub open spec fn valid_form(form: FormData) -> bool {
    valid_name(form.name@) && valid_email(form.email@)
}

/// Register a subscriber with the given identifier, token and timestamp.
/// Validation decides first: an invalid form is refused with no write.
/// A valid form is persisted atomically as one pending subscriber row and
/// one token row, unless the identifier or the token collides with an
/// existing row, in which case nothing is written. On success the
/// confirmation email for the new subscriber is returned, its bodies
/// carrying the confirmation link built from `base_url` and the token.
pub fn register_with(
    store: &mut SubscriptionStore,
    form: FormData,
    base_url: &str,
    subscriber_id: u128,
    token: String,
    subscribed_at: i64,
) -> (r: Result<Registration, SubscribeError>)
    requires
        old(store)@.wf(),
    ensures
        final(store)@.wf(),
        r is Ok <==> valid_form(form) && !old(store)@.has_subscriber_id(subscriber_id) && !old(
            store,
        )@.has_token(token@),
        r is Err ==> final(store)@ == old(store)@,
        r matches Err(e) ==> ((e is ValidationError) <==> !valid_form(form)),
        r matches Err(e) ==> ((e is DatabaseError) <==> valid_form(form) && old(
            store,
        )@.has_subscriber_id(subscriber_id)),
        r matches Err(e) ==> ((e is StoreTokenError) <==> valid_form(form) && !old(
            store,
        )@.has_subscriber_id(subscriber_id) && old(store)@.has_token(token@)),
        r matches Err(e) ==> !(e is SendEmailError),
        r matches Err(e) ==> (e matches SubscribeError::ValidationError(m) ==> (if valid_name(
            form.name@,
        ) {
            m@ == email_error_message()
        } else {
            m@ == name_error_message()
        })),
        r matches Ok(reg) ==> {
            let link = confirmation_link_of(base_url@, token@);
            &&& reg.subscriber_id == subscriber_id
            &&& reg.token@ == token@
            &&& reg.subscribed_at == subscribed_at
            &&& final(store)@ == old(store)@.with_pending(
                subscriber_id,
                form.email@,
                form.name@,
                subscribed_at,
                token@,
            )
            &&& reg.email.to@ == form.email@
            &&& reg.email.subject@ == "Welcome!"@
            &&& reg.email.plain_body@ == plain_body_of(link)
            &&& reg.email.html_body@ == html_body_of(link)
        },
{
    let new_subscriber = match NewSubscriber::parse(form) {
        Ok(s) => s,
        Err(m) => {
            return Err(SubscribeError::ValidationError(m));
        },
    };
    let recipient = new_subscriber.email.to_owned_string();
    let link = build_confirmation_link(base_url, token.as_str());
    let stored_token = token.clone();
    match store.create_pending_subscriber(new_subscriber, subscriber_id, stored_token, subscribed_at)
    {
        Ok(()) => {
            let email = build_confirmation_email(recipient, link.as_str());
            Ok(Registration { subscriber_id, token, subscribed_at, email })
        },
        Err(StoreWriteError::DuplicateSubscriberId) => Err(SubscribeError::DatabaseError),
        Err(StoreWriteError::DuplicateToken) => Err(SubscribeError::StoreTokenError),
    }
}

/// Relies on `uuid`: `Uuid::new_v4` draws a random version-4 identifier
/// and `as_u128` returns its 128-bit value. The draw is random, so nothing
/// is promised of the value.
#[verifier::external_body]
fn fresh_subscriber_id() -> (r: u128) {
    uuid::Uuid::new_v4().as_u128()
}

/// Relies on `chrono`: `Utc::now` reads the wall clock and `timestamp`
/// renders it as whole seconds since the Unix epoch. The clock is outside
/// the program, so nothing is promised of the value; `Utc::now` panics if
/// the system clock stands before the epoch, an environmental failure no
/// input can exclude.
#[verifier::external_body]
fn current_unix_timestamp() -> (r: i64) {
    chrono::Utc::now().timestamp()
}

/// Register a subscriber: validate the form, then persist it under a
/// fresh random identifier with a fresh random confirmation token and the
/// current time. An invalid form is refused with no write, whatever the
/// random draws; a collision of the drawn identifier or token with an
/// existing row refuses the write wholesale, so each refusal needs a row
/// to collide with, and on an empty store a valid form always registers.
/// On success exactly one pending subscriber row and one token row were
/// added, and exactly one confirmation email awaits dispatch, addressed
/// to the submitted email.
pub fn register(store: &mut SubscriptionStore, form: FormData, base_url: &str) -> (r: Result<
    Registration,
    SubscribeError,
>)
    requires
        old(store)@.wf(),
    ensures
        final(store)@.wf(),
        r is Err ==> final(store)@ == old(store)@,
        r matches Err(e) ==> ((e is ValidationError) <==> !valid_form(form)),
        r matches Err(e) ==> !(e is SendEmailError),
        r matches Err(e) ==> ((e is DatabaseError) ==> old(store)@.subscribers.len() > 0) && ((
        e is StoreTokenError) ==> old(store)@.tokens.len() > 0),
        valid_form(form) && old(store)@.subscribers.len() == 0 && old(store)@.tokens.len() == 0
            ==> r is Ok,
        r matches Err(e) ==> (e matches SubscribeError::ValidationError(m) ==> (if valid_name(
            form.name@,
        ) {
            m@ == email_error_message()
        } else {
            m@ == name_error_message()
        })),
        r matches Ok(reg) ==> {
            let link = confirmation_link_of(base_url@, reg.token@);
            &&& valid_form(form)
            &&& valid_token(reg.token@)
            &&& !old(store)@.has_subscriber_id(reg.subscriber_id)
            &&& !old(store)@.has_token(reg.token@)
            &&& final(store)@ == old(store)@.with_pending(
                reg.subscriber_id,
                form.email@,
                form.name@,
                reg.subscribed_at,
                reg.token@,
            )
            &&& reg.email.to@ == form.email@
            &&& reg.email.subject@ == "Welcome!"@
            &&& reg.email.plain_body@ == plain_body_of(link)
            &&& reg.email.html_body@ == html_body_of(link)
        },
{
    let subscriber_id = fresh_subscriber_id();
    let token = generate_subscription_token();
    let subscribed_at = current_unix_timestamp();
    register_with(store, form, base_url, subscriber_id, token, subscribed_at)
}

/// The compute part of the subscription endpoint: parse the raw form
/// body, register the subscriber, and answer a status code. A body that
/// is not a well-formed form carrying both fields, or whose fields fail
/// validation, is a client error (400) before any write; a persistence
/// failure is a server error (500) with no write, and can only arise from
/// a random draw colliding with a row already present — on an empty store
/// a valid submission always answers 200. Success hands back the
/// registration with its outbound email.
pub fn subscribe(store: &mut SubscriptionStore, body: &str, base_url: &str) -> (r: (
    u16,
    Option<Registration>,
))
    requires
        old(store)@.wf(),
    ensures
        final(store)@.wf(),
        r.0 == 200 || r.0 == 400 || r.0 == 500,
        r.1 is Some <==> r.0 == 200,
        r.0 != 200 ==> final(store)@ == old(store)@,
        parse_form_body(body@) is None ==> r.0 == 400,
        parse_form_body(body@) matches Some(p) ==> (r.0 == 400 <==> !(valid_name(p.0)
            && valid_email(p.1))),
        r.0 == 500 ==> old(store)@.subscribers.len() > 0 || old(store)@.tokens.len() > 0,
        parse_form_body(body@) matches Some(p) && valid_name(p.0) && valid_email(p.1) && old(
            store,
        )@.subscribers.len() == 0 && old(store)@.tokens.len() == 0 ==> r.0 == 200,
        r.1 matches Some(reg) ==> parse_form_body(body@) matches Some(p) && {
            let link = confirmation_link_of(base_url@, reg.token@);
            &&& valid_name(p.0)
            &&& valid_email(p.1)
            &&& valid_token(reg.token@)
            &&& !old(store)@.has_subscriber_id(reg.subscriber_id)
            &&& !old(store)@.has_token(reg.token@)
            &&& final(store)@ == old(store)@.with_pending(
                reg.subscriber_id,
                p.1,
                p.0,
                reg.subscribed_at,
                reg.token@,
            )
            &&& reg.email.to@ == p.1
            &&& reg.email.subject@ == "Welcome!"@
            &&& reg.email.plain_body@ == plain_body_of(link)
            &&& reg.email.html_body@ == html_body_of(link)
        },
{
    let form = match parse_form(body) {
        Some(f) => f,
        None => {
            return (400, None);
        },
    };
    match register(store, form, base_url) {
        Ok(reg) => (200, Some(reg)),
        Err(e) => (e.status_code(), None),
    }
}

} // verus!
