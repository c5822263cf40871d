//! Double-opt-in newsletter subscription core.
//!
//! A subscriber submits a name and an email address; the service records the
//! subscription as `pending_confirmation` together with a single-use
//! confirmation token, and an email carrying a confirmation link is prepared
//! for dispatch. Visiting the link confirms the subscription. The modules
//! here hold the validated identity types, the token generator, the
//! transactional subscription store, and the registration and confirmation
//! workflows, each with a verified contract.

pub mod confirmation;
pub mod domain;
pub mod form;
pub mod store;
pub mod subscriptions;
pub mod token;
