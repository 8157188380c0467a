//! The decisions of the remote client: response acceptance and the rating
//! lookup predicate.  The HTTP transport itself belongs to the host process.

use vstd::prelude::*;
use crate::text::starts_with;
use crate::text::str_starts_with;

verus! {

/// Whether a remote response is acceptable: a 2xx status and a non-empty
/// body.  Anything else is a `RemoteError` for this candidate.
pub fn response_ok(status: u16, content_length: u64) -> (r: bool)
    ensures
        r == (200 <= status < 300 && content_length > 0),
{
    200 <= status && status < 300 && content_length > 0
}

/// The package-name prefix of sub-entities, which never carry ratings; the
/// default for [`skip_rating_lookup`]'s pluggable predicate.
pub fn default_sub_entity_prefix() -> (r: &'static str)
    ensures
        r@ == "com.atomicservice"@,
{
    "com.atomicservice"
}

/// Whether the rating lookup is skipped for this package: it names a
/// sub-entity, recognised by the configured prefix.
pub fn skip_rating_lookup(pkg_name: &str, sub_entity_prefix: &str) -> (r: bool)
    ensures
        r == starts_with(pkg_name@, sub_entity_prefix@),
{
    str_starts_with(pkg_name, sub_entity_prefix)
}

} // verus!
