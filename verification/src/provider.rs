//! The caching credentials provider.

use crate::credentials::Credentials;
use crate::error::IssuerError;
use crate::expiry::is_fresh;
use crate::issuer::{
    credentials_from_response, issued, result_view, IssuerRequest, IssuerRequestView,
    IssuerResponse, IssuerResponseView,
};
use crate::model::CacheView;
use crate::timestamp::Timestamp;
use vstd::prelude::*;

verus! {

/// A caching provider of credentials that STS issues through `AssumeRole`.
///
/// The fields mirror the parameters of that call. `cache_timeout` is the
/// number of seconds for which a cached credential must still be valid to be
/// handed out. The provider itself is plain data: a caller that shares it
/// puts it behind a lock, reads under the shared lock and refreshes under
/// the exclusive one.
pub struct STSCredentialsProvider {
    role_arn: String,
    external_id: Option<String>,
    source_identity: Option<String>,
    cred_cache: Option<Credentials>,
    session_name: Option<String>,
    session_duration: Option<i32>,
    cache_timeout: u64,
}

impl View for STSCredentialsProvider {
    type V = CacheView;

    closed spec fn view(&self) -> CacheView {
        CacheView {
            request: IssuerRequestView {
                role_arn: self.role_arn@,
                role_session_name: self.session_name.deep_view(),
                external_id: self.external_id.deep_view(),
                source_identity: self.source_identity.deep_view(),
                duration_seconds: self.session_duration,
            },
            margin_secs: self.cache_timeout as nat,
            slot: self.cred_cache.deep_view(),
        }
    }
}

fn owned(text: Option<&str>) -> (copy: Option<String>)
    ensures
        copy.deep_view() == text.deep_view(),
{
    match text {
        Some(text) => Some(text.to_owned()),
        None => None,
    }
}

fn cloned_text(text: &Option<String>) -> (copy: Option<String>)
    ensures
        copy.deep_view() == text.deep_view(),
{
    match text {
        Some(text) => Some(text.clone()),
        None => None,
    }
}

/// Whether `issuer`, called with a request that reads as `request`, may
/// return a response that reads as `response`.
pub open spec fn answers<F: FnOnce(IssuerRequest) -> IssuerResponse>(
    issuer: F,
    request: IssuerRequestView,
    response: IssuerResponseView,
) -> bool {
    exists|asked: IssuerRequest, answered: IssuerResponse|
        asked@ == request && answered@ == response && #[trigger] issuer.ensures((asked,), answered)
}

impl STSCredentialsProvider {
    /// A provider with the given `AssumeRole` parameters and margin, and
    /// nothing cached yet.
    pub fn new(
        role_arn: &str,
        external_id: Option<&str>,
        source_identity: Option<&str>,
        session_name: Option<&str>,
        session_duration: Option<i32>,
        cache_timeout: u64,
    ) -> (provider: Self)
        ensures
            provider@ == (CacheView {
                request: IssuerRequestView {
                    role_arn: role_arn@,
                    role_session_name: session_name.deep_view(),
                    external_id: external_id.deep_view(),
                    source_identity: source_identity.deep_view(),
                    duration_seconds: session_duration,
                },
                margin_secs: cache_timeout as nat,
                slot: None,
            }),
    {
        Self {
            role_arn: role_arn.to_owned(),
            external_id: owned(external_id),
            source_identity: owned(source_identity),
            cred_cache: None,
            session_name: owned(session_name),
            session_duration,
            cache_timeout,
        }
    }

    /// The cached credential if it is fresh at `now`: there is one, it has
    /// an expiry, and the expiry is more than `cache_timeout` seconds after
    /// `now`.
    pub fn stored_credentials(&self, now: Timestamp) -> (stored: Option<Credentials>)
        ensures
            stored.deep_view() == self@.fresh_at(now@),
    {
        if is_fresh(self.cred_cache.as_ref(), now, self.cache_timeout) {
            match &self.cred_cache {
                Some(credentials) => Some(credentials.clone()),
                None => None,
            }
        } else {
            None
        }
    }

    /// The request that every call to the issuer is made with: the
    /// parameters given at construction, unchanged.
    pub fn issuer_request(&self) -> (request: IssuerRequest)
        ensures
            request@ == self@.request,
    {
        IssuerRequest {
            role_arn: self.role_arn.clone(),
            role_session_name: cloned_text(&self.session_name),
            external_id: cloned_text(&self.external_id),
            source_identity: cloned_text(&self.source_identity),
            duration_seconds: self.session_duration,
        }
    }

    /// Calls the issuer once, with [`Self::issuer_request`], and returns the
    /// credential that its response carries or the error that it amounts to.
    /// The cache is not touched.
    pub fn load_credentials<F: FnOnce(IssuerRequest) -> IssuerResponse>(&self, issuer: F) -> (result:
        Result<Credentials, IssuerError>)
        requires
            forall|request: IssuerRequest| request@ == self@.request ==> issuer.requires((request,)),
        ensures
            exists|response: IssuerResponseView| #[trigger]
                answers(issuer, self@.request, response) && result_view(result) == issued(response),
    {
        let request = self.issuer_request();
        let response = issuer(request);
        assert(answers(issuer, self@.request, response@));
        credentials_from_response(response)
    }

    /// Puts the outcome of a call to the issuer into the cache: a credential
    /// is kept, an error leaves the cache empty.
    fn store(&mut self, outcome: &Result<Credentials, IssuerError>)
        ensures
            final(self)@ == old(self)@.with_slot(
                match outcome {
                    Ok(credentials) => Some(credentials@),
                    Err(_) => None,
                },
            ),
    {
        match outcome {
            Ok(creds) => {
                self.cred_cache = Some(creds.clone());
            },
            Err(_) => {
                self.cred_cache = None;
            },
        }
    }

    /// Takes in the issuer's response to [`Self::issuer_request`]: a
    /// credential is cached and returned, an error empties the cache,
    /// whatever it held, and is returned. This is the second half of
    /// [`Self::get_credentials`] for a caller that reaches the issuer on its
    /// own, between a call of [`Self::stored_credentials`] that found
    /// nothing and this one.
    pub fn complete_refresh(&mut self, response: IssuerResponse) -> (result: Result<
        Credentials,
        IssuerError,
    >)
        ensures
            final(self)@ == old(self)@.refresh(response@).cache,
            result_view(result) == old(self)@.refresh(response@).result,
    {
        let new_creds = credentials_from_response(response);
        self.store(&new_creds);
        new_creds
    }

    /// Returns the cached credential if it is fresh at `now`, and leaves the
    /// cache as it is. Otherwise calls the issuer once, caches the credential
    /// it returned or empties the cache if it returned none, and hands on
    /// what the call gave. The issuer is consumed by its one call, so no
    /// path calls it twice.
    ///
    /// In terms of the model this is one step [`CacheView::obtain`]; where
    /// that step counts a call to the issuer, the response it takes in is one
    /// that `issuer` gave to the provider's request.
    pub fn get_credentials<F: FnOnce(IssuerRequest) -> IssuerResponse>(
        &mut self,
        now: Timestamp,
        issuer: F,
    ) -> (result: Result<Credentials, IssuerError>)
        requires
            forall|request: IssuerRequest|
                request@ == old(self)@.request ==> issuer.requires((request,)),
        ensures
            exists|response: IssuerResponseView|
                {
                    &&& final(self)@ == (#[trigger] old(self)@.obtain(now@, response)).cache
                    &&& result_view(result) == old(self)@.obtain(now@, response).result
                    &&& old(self)@.obtain(now@, response).issuer_calls == 1 ==> answers(
                        issuer,
                        old(self)@.request,
                        response,
                    )
                },
    {
        match self.stored_credentials(now) {
            Some(creds) => {
                let ghost unused = IssuerResponseView::Answered { credentials: None };
                assert(self@ == old(self)@.obtain(now@, unused).cache);
                Ok(creds)
            },
            None => {
                let new_creds = self.load_credentials(issuer);
                self.store(&new_creds);
                proof {
                    let response = choose|response: IssuerResponseView| #[trigger]
                        answers(issuer, old(self)@.request, response) && result_view(new_creds)
                            == issued(response);
                    assert(self@ == old(self)@.obtain(now@, response).cache);
                }
                new_creds
            },
        }
    }
}

} // verus!
