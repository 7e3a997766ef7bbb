//! The credential cache as a mathematical state machine.
//!
//! The state is the fixed configuration and a slot that holds at most one
//! credential. Obtaining a credential either reads the slot or replaces its
//! content with what the issuer returned. The issuer's response is an input
//! of the transition: the model says what the cache does with any response,
//! not what the issuer answers.

use crate::credentials::CredentialsView;
use crate::error::IssuerErrorView;
use crate::expiry::fresh;
use crate::issuer::{issued, IssuerRequestView, IssuerResponseView};
use vstd::prelude::*;

verus! {

/// The state of the cache.
pub struct CacheView {
    /// What every call to the issuer is made with.
    pub request: IssuerRequestView,
    /// How many seconds before its expiry a credential stops being handed
    /// out.
    pub margin_secs: nat,
    /// The cached credential, if there is one.
    pub slot: Option<CredentialsView>,
}

/// The cache after a call to the issuer, and what the caller gets.
pub struct Refreshed {
    pub cache: CacheView,
    pub result: Result<CredentialsView, IssuerErrorView>,
}

/// The cache after one attempt to obtain a credential, what the caller
/// gets, and how many calls to the issuer the attempt made.
pub struct Obtained {
    pub cache: CacheView,
    pub result: Result<CredentialsView, IssuerErrorView>,
    pub issuer_calls: nat,
}

/// One attempt to obtain a credential: the time at which it is made, and
/// the response the issuer would give if the attempt reached it.
pub struct Attempt {
    pub now: int,
    pub response: IssuerResponseView,
}

/// The cache after a run of attempts and the calls to the issuer they made
/// in total.
pub struct Run {
    pub cache: CacheView,
    pub issuer_calls: nat,
}

impl CacheView {
    /// The same cache with another slot content.
    pub open spec fn with_slot(self, slot: Option<CredentialsView>) -> CacheView {
        CacheView { slot, ..self }
    }

    /// The cached credential if it is fresh at `now`, else nothing.
    pub open spec fn fresh_at(self, now: int) -> Option<CredentialsView> {
        if fresh(self.slot, now, self.margin_secs) {
            self.slot
        } else {
            None
        }
    }

    /// Takes in the issuer's response. A credential is stored and returned;
    /// an error empties the slot, whatever it held, and is returned.
    pub open spec fn refresh(self, response: IssuerResponseView) -> Refreshed {
        match issued(response) {
            Ok(credentials) => Refreshed {
                cache: self.with_slot(Some(credentials)),
                result: Ok(credentials),
            },
            Err(error) => Refreshed { cache: self.with_slot(None), result: Err(error) },
        }
    }

    /// One attempt to obtain a credential at `now`. A fresh cached credential
    /// is returned without a call to the issuer and the cache stays as it
    /// is; otherwise the issuer is called once and `response` is taken in.
    pub open spec fn obtain(self, now: int, response: IssuerResponseView) -> Obtained {
        match self.fresh_at(now) {
            Some(credentials) => Obtained { cache: self, result: Ok(credentials), issuer_calls: 0 },
            None => {
                let refreshed = self.refresh(response);
                Obtained { cache: refreshed.cache, result: refreshed.result, issuer_calls: 1 }
            },
        }
    }

    /// The attempts of `attempts` made one after the other.
    pub open spec fn run(self, attempts: Seq<Attempt>) -> Run
        decreases attempts.len(),
    {
        if attempts.len() == 0 {
            Run { cache: self, issuer_calls: 0 }
        } else {
            let first = self.obtain(attempts[0].now, attempts[0].response);
            let rest = first.cache.run(attempts.skip(1));
            Run { cache: rest.cache, issuer_calls: first.issuer_calls + rest.issuer_calls }
        }
    }
}

} // verus!
