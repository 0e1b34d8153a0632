//! The durable anonymous client identifier.
//!
//! The identifier lives in a fixed-name file inside the cache
//! directory. Resolving it is read-or-create: an existing value is
//! returned verbatim, and only when none exists is a fresh random one
//! generated, to be persisted by the caller before any further use.

use vstd::prelude::*;

verus! {

/// Name of the file inside the cache directory that holds the client
/// identifier.
pub const CLIENT_ID_METAFILE: &'static str = "CLIENT_ID";

pub open spec fn is_lower_hex_digit(c: char) -> bool {
    ('0' <= c && c <= '9') || ('a' <= c && c <= 'f')
}

/// The canonical hyphenated UUID shape: 32 lowercase hex digits
/// grouped 8-4-4-4-12 by `-` separators, 36 characters in all.
pub open spec fn is_uuid_hyphenated(s: Seq<char>) -> bool {
    &&& s.len() == 36
    &&& forall|i: int|
        0 <= i < 36 ==> if i == 8 || i == 13 || i == 18 || i == 23 {
            s[i] == '-'
        } else {
            is_lower_hex_digit(#[trigger] s[i])
        }
}

/// What a resolution returns: the stored value where one exists, the
/// freshly generated one otherwise.
pub open spec fn identity_lookup(stored: Option<Seq<char>>, fresh: Seq<char>) -> Seq<char> {
    match stored {
        Some(v) => v,
        None => fresh,
    }
}

/// What the identity file holds after a resolution.
pub open spec fn identity_store_after(stored: Option<Seq<char>>, fresh: Seq<char>) -> Option<
    Seq<char>,
> {
    Some(identity_lookup(stored, fresh))
}

/// Whether a resolution writes the identity file: only when no value
/// was stored yet.
pub open spec fn identity_writes(stored: Option<Seq<char>>) -> bool {
    stored is None
}

/// Resolving the identity twice against an initially empty directory
/// returns the same value both times, whatever fresh identifiers the
/// two resolutions draw, and the second resolution performs no write.
pub proof fn lemma_identity_idempotent(fresh1: Seq<char>, fresh2: Seq<char>)
    ensures
        identity_lookup(identity_store_after(None, fresh1), fresh2) == identity_lookup(
            None,
            fresh1,
        ),
        !identity_writes(identity_store_after(None, fresh1)),
{
}

/// Relies on `uuid::Uuid::new_v4` and `uuid::fmt::Hyphenated`'s
/// `Display`: a random 128-bit value rendered as 32 lowercase hex
/// digits grouped 8-4-4-4-12 by hyphens.
#[verifier::external_body]
fn generate_client_id() -> (r: String)
    ensures
        is_uuid_hyphenated(r@),
{
    uuid::Uuid::new_v4().hyphenated().to_string()
}

/// The contents of the identity file as a sequence of characters, or
/// `None` where the file is absent.
pub open spec fn stored_view(existing: Option<String>) -> Option<Seq<char>> {
    match existing {
        Some(v) => Some(v@),
        None => None,
    }
}

/// Decide a client identifier from the current contents of the
/// identity file: `existing` is the file's full contents, or `None`
/// where the file is absent. Returns the identifier together with
/// whether it is fresh and must be persisted by the caller.
pub fn resolve_client_id(existing: Option<String>) -> (r: (String, bool))
    ensures
        r.0@ == identity_lookup(stored_view(existing), r.0@),
        existing is None ==> is_uuid_hyphenated(r.0@),
        r.1 == identity_writes(stored_view(existing)),
{
    match existing {
        Some(v) => (v, false),
        None => (generate_client_id(), true),
    }
}

} // verus!
