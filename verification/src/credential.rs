//! Core data types: credentials, account classification, and the error
//! taxonomy shared by the store, the flow controller and the facade.

use vstd::prelude::*;

verus! {

/// One authenticated account: a stable user identifier (a 128-bit UUID
/// value), display data, the issued token and its expiry. A credential is
/// immutable once issued; re-login replaces it wholesale.
pub struct Credential {
    /// Unique, stable handle of the account (UUID as its 128-bit value).
    pub user_id: u128,
    /// Display name shown by the host shell.
    pub username: String,
    /// Bearer token issued by the identity service.
    pub access_token: String,
    /// Expiry of the token, in milliseconds since the Unix epoch.
    pub expires_ms: u64,
}

impl Credential {
    /// An owned copy with the same fields; the store hands out snapshots,
    /// never live views.
    pub fn duplicate(&self) -> (c: Credential)
        ensures
            c == *self,
    {
        Credential {
            user_id: self.user_id,
            username: self.username.clone(),
            access_token: self.access_token.clone(),
            expires_ms: self.expires_ms,
        }
    }
}

/// Closed classification of a session's account.
#[derive(Clone, Copy, PartialEq, Eq, Structural, Debug)]
pub enum AccountType {
    Local,
    Microsoft,
}

impl AccountType {
    /// The wire value the host shell receives for this classification.
    pub fn wire_tag(&self) -> (s: String)
        ensures
            *self is Local ==> s@ == "local"@,
            *self is Microsoft ==> s@ == "microsoft"@,
    {
        match self {
            AccountType::Local => "local".to_owned(),
            AccountType::Microsoft => "microsoft".to_owned(),
        }
    }
}

/// The current session as far as account classification goes.
#[derive(Clone, Copy, PartialEq, Eq, Structural, Debug)]
pub struct Session {
    pub account_type: AccountType,
}

/// Failures surfaced to the caller. Cancellation (user close, timeout) is
/// not an error: it is a successful result carrying no credential.
#[derive(Clone, Copy, PartialEq, Eq, Structural, Debug)]
pub enum AuthError {
    /// The identity client could not start a flow.
    FlowInit,
    /// The redirect URI handed back by the identity client was malformed.
    RedirectParse,
    /// The host GUI surface could not be created or controlled.
    Surface,
    /// The code-for-token exchange failed.
    Exchange,
    /// An operation referenced a user identifier not in the store.
    NotFound,
}

impl AuthError {
    /// A short stable tag for host-side display.
    pub fn tag(&self) -> (s: String)
        ensures
            *self is FlowInit ==> s@ == "flow_init"@,
            *self is RedirectParse ==> s@ == "redirect_parse"@,
            *self is Surface ==> s@ == "surface"@,
            *self is Exchange ==> s@ == "exchange"@,
            *self is NotFound ==> s@ == "not_found"@,
    {
        match self {
            AuthError::FlowInit => "flow_init".to_owned(),
            AuthError::RedirectParse => "redirect_parse".to_owned(),
            AuthError::Surface => "surface".to_owned(),
            AuthError::Exchange => "exchange".to_owned(),
            AuthError::NotFound => "not_found".to_owned(),
        }
    }
}

} // verus!
