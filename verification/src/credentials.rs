//! The credential that the provider hands out.

use crate::timestamp::Timestamp;
use vstd::prelude::*;

verus! {

/// What a [`Credentials`] value holds, as plain mathematical data.
pub struct CredentialsView {
    pub access_key_id: Seq<char>,
    pub secret_access_key: Seq<char>,
    pub session_token: Option<Seq<char>>,
    /// Expiry in nanoseconds since the Unix epoch, where there is one.
    pub expiry: Option<int>,
    pub provider_name: Seq<char>,
}

/// Access key material with an optional session token, an optional expiry and
/// the name of the provider that produced it. A value never changes once it
/// is built. It has no `Debug` output, so the secret cannot end up in a log
/// by accident.
#[derive(PartialEq, Eq)]
pub struct Credentials {
    access_key_id: String,
    secret_access_key: String,
    session_token: Option<String>,
    expires_after: Option<Timestamp>,
    provider_name: &'static str,
}

impl View for Credentials {
    type V = CredentialsView;

    closed spec fn view(&self) -> CredentialsView {
        CredentialsView {
            access_key_id: self.access_key_id@,
            secret_access_key: self.secret_access_key@,
            session_token: self.session_token.deep_view(),
            expiry: self.expires_after.deep_view(),
            provider_name: self.provider_name@,
        }
    }
}

impl DeepView for Credentials {
    type V = CredentialsView;

    open spec fn deep_view(&self) -> CredentialsView {
        self@
    }
}

impl Clone for Credentials {
    fn clone(&self) -> (copy: Self)
        ensures
            copy == *self,
    {
        Credentials {
            access_key_id: self.access_key_id.clone(),
            secret_access_key: self.secret_access_key.clone(),
            session_token: match &self.session_token {
                Some(token) => Some(token.clone()),
                None => None,
            },
            expires_after: self.expires_after,
            provider_name: self.provider_name,
        }
    }
}

impl Credentials {
    pub fn new(
        access_key_id: String,
        secret_access_key: String,
        session_token: Option<String>,
        expires_after: Option<Timestamp>,
        provider_name: &'static str,
    ) -> (credentials: Credentials)
        ensures
            credentials@ == (CredentialsView {
                access_key_id: access_key_id@,
                secret_access_key: secret_access_key@,
                session_token: session_token.deep_view(),
                expiry: expires_after.deep_view(),
                provider_name: provider_name@,
            }),
    {
        Credentials { access_key_id, secret_access_key, session_token, expires_after, provider_name }
    }

    pub fn access_key_id(&self) -> (id: &str)
        ensures
            id@ == self@.access_key_id,
    {
        self.access_key_id.as_str()
    }

    pub fn secret_access_key(&self) -> (key: &str)
        ensures
            key@ == self@.secret_access_key,
    {
        self.secret_access_key.as_str()
    }

    pub fn session_token(&self) -> (token: Option<&str>)
        ensures
            token.deep_view() == self@.session_token,
    {
        match &self.session_token {
            Some(token) => Some(token.as_str()),
            None => None,
        }
    }

    /// The time after which the credential must no longer be used.
    pub fn expiry(&self) -> (expiry: Option<Timestamp>)
        ensures
            expiry.deep_view() == self@.expiry,
    {
        self.expires_after
    }

    pub fn provider_name(&self) -> (name: &'static str)
        ensures
            name@ == self@.provider_name,
    {
        self.provider_name
    }
}

} // verus!
