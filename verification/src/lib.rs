//! Interactive browser-based sign-in flow and a local multi-account
//! credential directory.
//!
//! The crate owns the decision logic of an OAuth-style login: a credential
//! store keyed by user identifier with a default-user pointer, the polling
//! state machine that watches an interactive browser surface for a redirect
//! carrying an authorization code, and the facade of typed account
//! operations a host shell invokes. The host (GUI windows, the identity
//! service, timers) lives outside and hands this crate plain values.

pub mod accounts;
pub mod credential;
pub mod flow;
pub mod redirect;
pub mod store;
pub mod surface;

pub use accounts::Accounts;
pub use credential::AccountType;
pub use credential::AuthError;
pub use credential::Credential;
pub use credential::Session;
pub use flow::FlowConfig;
pub use flow::FlowSession;
pub use store::CredentialStore;
pub use surface::SurfaceLedger;
