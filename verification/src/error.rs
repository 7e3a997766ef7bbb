//! Why the provider could not hand out a credential.

use vstd::prelude::*;

verus! {

/// What an [`IssuerError`] holds, as plain mathematical data.
pub enum IssuerErrorView {
    IssuerUnavailable { cause: Seq<char> },
    NoCredentialReturned,
}

/// Failure to obtain a credential from the issuer. Neither kind is retried,
/// and neither falls back to an older credential.
#[derive(Debug, PartialEq, Eq)]
pub enum IssuerError {
    /// The call to the issuer failed; `cause` is the issuer's own account of
    /// it.
    IssuerUnavailable { cause: String },
    /// The issuer answered, but without an access key id and a secret key.
    NoCredentialReturned,
}

impl View for IssuerError {
    type V = IssuerErrorView;

    open spec fn view(&self) -> IssuerErrorView {
        match self {
            IssuerError::IssuerUnavailable { cause } => IssuerErrorView::IssuerUnavailable {
                cause: cause@,
            },
            IssuerError::NoCredentialReturned => IssuerErrorView::NoCredentialReturned,
        }
    }
}

impl DeepView for IssuerError {
    type V = IssuerErrorView;

    open spec fn deep_view(&self) -> IssuerErrorView {
        self@
    }
}

/// The text for an answer that held no credential.
pub const NO_CREDENTIALS_MESSAGE: &'static str = "STS Assume Role returned no credentials";

/// The text that describes `error`.
pub open spec fn message_of(error: IssuerErrorView) -> Seq<char> {
    match error {
        IssuerErrorView::IssuerUnavailable { cause } => cause,
        IssuerErrorView::NoCredentialReturned => NO_CREDENTIALS_MESSAGE@,
    }
}

impl IssuerError {
    /// A description of the failure: the issuer's cause, or a fixed text
    /// where the issuer returned nothing.
    pub fn message(&self) -> (text: String)
        ensures
            text@ == message_of(self@),
    {
        match self {
            IssuerError::IssuerUnavailable { cause } => cause.clone(),
            IssuerError::NoCredentialReturned => NO_CREDENTIALS_MESSAGE.to_owned(),
        }
    }
}

} // verus!
