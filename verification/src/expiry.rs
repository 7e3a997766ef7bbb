//! The rule that decides whether a credential may still be handed out.

use crate::credentials::{Credentials, CredentialsView};
use crate::timestamp::{Timestamp, NANOS_PER_SECOND};
use vstd::prelude::*;

verus! {

/// A credential is fresh at `now` when it is there, carries an expiry, and
/// that expiry lies strictly later than `now` plus the margin. A credential
/// without an expiry is never fresh: nothing shows how long it may be used.
/// Times are in nanoseconds since the Unix epoch, the margin in seconds.
pub open spec fn fresh(credential: Option<CredentialsView>, now: int, margin_secs: nat) -> bool {
    match credential {
        Some(CredentialsView { expiry: Some(expiry), .. }) => expiry > now + margin_secs
            * NANOS_PER_SECOND,
        _ => false,
    }
}

/// Whether `credential` is fresh at `now`, given a margin in seconds.
pub fn is_fresh(credential: Option<&Credentials>, now: Timestamp, margin_secs: u64) -> (answer:
    bool)
    ensures
        answer == fresh(credential.deep_view(), now@, margin_secs as nat),
{
    match credential {
        Some(credential) => match credential.expiry() {
            Some(expiry) => {
                let margin: i128 = (margin_secs as i128) * 1_000_000_000;
                expiry.as_nanos() > now.as_nanos() + margin
            },
            None => false,
        },
        None => false,
    }
}

} // verus!
