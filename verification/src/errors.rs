//! The error taxonomy of the ingestion engine.

use vstd::prelude::*;
use vstd::string::StringExecFns;
use crate::text::dec_str;
use crate::text::u64_to_dec;

verus! {

/// What can go wrong while fetching and storing one entity.
///
/// `CredentialsUnavailable` is systemic: a credential refresh exhausted its
/// attempts, and the whole run must pause.  The others are per-candidate and
/// are only counted, never allowed to abort a batch or the run.
#[derive(Debug)]
pub enum SyncError {
    /// A credential refresh exhausted its attempts.
    CredentialsUnavailable,
    /// The remote service answered outside the 2xx range, or with an empty
    /// body.
    RemoteError { status: u16, body: String },
    /// The response body does not fit the tolerant document shape.
    DecodeError { detail: String },
    /// The backing store failed during ingest; the candidate counts as
    /// not-yet-ingested and is safe to retry.
    StoreError { detail: String },
}

impl SyncError {
    /// Whether this error must stop the whole run rather than only the
    /// candidate.
    pub fn is_systemic(&self) -> (r: bool)
        ensures
            r == (self matches SyncError::CredentialsUnavailable),
    {
        match self {
            SyncError::CredentialsUnavailable => true,
            _ => false,
        }
    }

    /// A short description for structured logs.
    pub fn describe(&self) -> (r: String)
        ensures
            self matches SyncError::CredentialsUnavailable ==> r@
                == "credentials unavailable: token refresh exhausted its attempts"@,
            self matches SyncError::RemoteError { status, body } ==> r@ == "remote error, status "@
                + dec_str(status as int) + ": "@ + body@,
            self matches SyncError::DecodeError { detail } ==> r@ == "decode error: "@ + detail@,
            self matches SyncError::StoreError { detail } ==> r@ == "store error: "@ + detail@,
    {
        match self {
            SyncError::CredentialsUnavailable => String::from_str(
                "credentials unavailable: token refresh exhausted its attempts",
            ),
            SyncError::RemoteError { status, body } => {
                let mut r = String::from_str("remote error, status ");
                let st = u64_to_dec(*status as u64);
                r.append(st.as_str());
                r.append(": ");
                r.append(body.as_str());
                r
            },
            SyncError::DecodeError { detail } => {
                let mut r = String::from_str("decode error: ");
                r.append(detail.as_str());
                r
            },
            SyncError::StoreError { detail } => {
                let mut r = String::from_str("store error: ");
                r.append(detail.as_str());
                r
            },
        }
    }
}

} // verus!
