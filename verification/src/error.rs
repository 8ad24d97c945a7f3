//! The failures a credential operation can end in.

use vstd::prelude::*;

verus! {

/// Why a credential operation failed.
#[derive(Debug, PartialEq, Eq)]
pub enum AuthError {
    /// The token store could not be read or written; carries the reason the
    /// host reported.
    Io(String),
    /// A persisted record or a provider response could not be decoded.
    Decode,
    /// No record is stored: the user is logged out.
    NotAuthenticated,
    /// The provider refused the request or could not be reached; carries the
    /// reason.
    Provider(String),
    /// The device code expired before the user authorised it.
    FlowExpired,
}

/// Mathematical model of an [`AuthError`].
pub enum AuthErrorView {
    Io(Seq<char>),
    Decode,
    NotAuthenticated,
    Provider(Seq<char>),
    FlowExpired,
}

impl View for AuthError {
    type V = AuthErrorView;

    open spec fn view(&self) -> AuthErrorView {
        match self {
            AuthError::Io(reason) => AuthErrorView::Io(reason@),
            AuthError::Decode => AuthErrorView::Decode,
            AuthError::NotAuthenticated => AuthErrorView::NotAuthenticated,
            AuthError::Provider(reason) => AuthErrorView::Provider(reason@),
            AuthError::FlowExpired => AuthErrorView::FlowExpired,
        }
    }
}

/// The text shown to the user for each failure.
pub open spec fn failure_message(failure: AuthErrorView) -> Seq<char> {
    match failure {
        AuthErrorView::Io(reason) => reason,
        AuthErrorView::Decode => "Malformed credential data"@,
        AuthErrorView::NotAuthenticated => "Not authenticated"@,
        AuthErrorView::Provider(reason) => reason,
        AuthErrorView::FlowExpired => "Device code expired \u{2014} please try again"@,
    }
}

impl AuthError {
    /// The user-facing message for this failure.
    pub fn message(&self) -> (text: String)
        ensures
            text@ == failure_message(self@),
    {
        match self {
            AuthError::Io(reason) => reason.clone(),
            AuthError::Decode => String::from_str("Malformed credential data"),
            AuthError::NotAuthenticated => String::from_str("Not authenticated"),
            AuthError::Provider(reason) => reason.clone(),
            AuthError::FlowExpired => String::from_str(
                "Device code expired \u{2014} please try again",
            ),
        }
    }
}

impl Clone for AuthError {
    fn clone(&self) -> (copy: Self)
        ensures
            copy == *self,
    {
        match self {
            AuthError::Io(reason) => AuthError::Io(reason.clone()),
            AuthError::Decode => AuthError::Decode,
            AuthError::NotAuthenticated => AuthError::NotAuthenticated,
            AuthError::Provider(reason) => AuthError::Provider(reason.clone()),
            AuthError::FlowExpired => AuthError::FlowExpired,
        }
    }
}

} // verus!
