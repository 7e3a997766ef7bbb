//! What goes to the credential issuer and what comes back from it.
//!
//! The issuer is the STS `AssumeRole` operation. This module does not talk
//! to it: it describes the request, and turns the issuer's answer into a
//! credential or an error.

use crate::credentials::{Credentials, CredentialsView};
use crate::error::{IssuerError, IssuerErrorView};
use crate::timestamp::Timestamp;
use vstd::prelude::*;

verus! {

/// The provider name carried by every credential made here.
pub const PROVIDER_NAME: &'static str = "STSCredentialsProvider";

/// The parameters of one `AssumeRole` call.
pub struct IssuerRequest {
    pub role_arn: String,
    pub role_session_name: Option<String>,
    pub external_id: Option<String>,
    pub source_identity: Option<String>,
    pub duration_seconds: Option<i32>,
}

/// What an [`IssuerRequest`] holds, as plain mathematical data.
pub struct IssuerRequestView {
    pub role_arn: Seq<char>,
    pub role_session_name: Option<Seq<char>>,
    pub external_id: Option<Seq<char>>,
    pub source_identity: Option<Seq<char>>,
    pub duration_seconds: Option<i32>,
}

impl View for IssuerRequest {
    type V = IssuerRequestView;

    open spec fn view(&self) -> IssuerRequestView {
        IssuerRequestView {
            role_arn: self.role_arn@,
            role_session_name: self.role_session_name.deep_view(),
            external_id: self.external_id.deep_view(),
            source_identity: self.source_identity.deep_view(),
            duration_seconds: self.duration_seconds,
        }
    }
}

/// The credential material of an `AssumeRole` answer, every part of which
/// the issuer may have left out.
pub struct IssuedCredentials {
    pub access_key_id: Option<String>,
    pub secret_access_key: Option<String>,
    pub session_token: Option<String>,
    pub expiration: Option<Timestamp>,
}

/// What an [`IssuedCredentials`] holds, as plain mathematical data.
pub struct IssuedCredentialsView {
    pub access_key_id: Option<Seq<char>>,
    pub secret_access_key: Option<Seq<char>>,
    pub session_token: Option<Seq<char>>,
    pub expiration: Option<int>,
}

impl View for IssuedCredentials {
    type V = IssuedCredentialsView;

    open spec fn view(&self) -> IssuedCredentialsView {
        IssuedCredentialsView {
            access_key_id: self.access_key_id.deep_view(),
            secret_access_key: self.secret_access_key.deep_view(),
            session_token: self.session_token.deep_view(),
            expiration: self.expiration.deep_view(),
        }
    }
}

impl DeepView for IssuedCredentials {
    type V = IssuedCredentialsView;

    open spec fn deep_view(&self) -> IssuedCredentialsView {
        self@
    }
}

/// How one call to the issuer ended.
pub enum IssuerResponse {
    /// The call itself failed.
    Failed { cause: String },
    /// The issuer answered, with or without credential material.
    Answered { credentials: Option<IssuedCredentials> },
}

/// What an [`IssuerResponse`] holds, as plain mathematical data.
pub enum IssuerResponseView {
    Failed { cause: Seq<char> },
    Answered { credentials: Option<IssuedCredentialsView> },
}

impl View for IssuerResponse {
    type V = IssuerResponseView;

    open spec fn view(&self) -> IssuerResponseView {
        match self {
            IssuerResponse::Failed { cause } => IssuerResponseView::Failed { cause: cause@ },
            IssuerResponse::Answered { credentials } => IssuerResponseView::Answered {
                credentials: credentials.deep_view(),
            },
        }
    }
}

/// The view of a result of obtaining a credential.
pub open spec fn result_view(result: Result<Credentials, IssuerError>) -> Result<
    CredentialsView,
    IssuerErrorView,
> {
    match result {
        Ok(credentials) => Ok(credentials@),
        Err(error) => Err(error@),
    }
}

/// What a response from the issuer amounts to. A failed call is
/// `IssuerUnavailable` with the issuer's cause. An answer is a credential
/// when it holds both an access key id and a secret key; the session token
/// and the expiry are taken over as they are, present or not, and the
/// credential is marked with [`PROVIDER_NAME`]. Any other answer is
/// `NoCredentialReturned`.
pub open spec fn issued(response: IssuerResponseView) -> Result<CredentialsView, IssuerErrorView> {
    match response {
        IssuerResponseView::Failed { cause } => Err(IssuerErrorView::IssuerUnavailable { cause }),
        IssuerResponseView::Answered {
            credentials: Some(
                IssuedCredentialsView {
                    access_key_id: Some(access_key_id),
                    secret_access_key: Some(secret_access_key),
                    session_token,
                    expiration,
                },
            ),
        } => Ok(
            CredentialsView {
                access_key_id,
                secret_access_key,
                session_token,
                expiry: expiration,
                provider_name: PROVIDER_NAME@,
            },
        ),
        IssuerResponseView::Answered { .. } => Err(IssuerErrorView::NoCredentialReturned),
    }
}

/// Turns the issuer's response into the credential it carries, or into the
/// error that says why it carries none.
pub fn credentials_from_response(response: IssuerResponse) -> (result: Result<
    Credentials,
    IssuerError,
>)
    ensures
        result_view(result) == issued(response@),
{
    match response {
        IssuerResponse::Failed { cause } => Err(IssuerError::IssuerUnavailable { cause }),
        IssuerResponse::Answered { credentials: Some(material) } => {
            let IssuedCredentials { access_key_id, secret_access_key, session_token, expiration } =
                material;
            match (access_key_id, secret_access_key) {
                (Some(access_key_id), Some(secret_access_key)) => Ok(
                    Credentials::new(
                        access_key_id,
                        secret_access_key,
                        session_token,
                        expiration,
                        PROVIDER_NAME,
                    ),
                ),
                _ => Err(IssuerError::NoCredentialReturned),
            }
        },
        IssuerResponse::Answered { credentials: None } => Err(IssuerError::NoCredentialReturned),
    }
}

} // verus!
