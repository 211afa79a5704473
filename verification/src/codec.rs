//! Text encodings that the adapters need when building requests:
//! percent-encoding for query strings and base64 for HTTP basic
//! authorization, together with a verified query-string builder.

use vstd::prelude::*;

verus! {

/// What `urlencoding::encode` returns; the result depends on the characters
/// alone.
pub uninterp spec fn percent_encoded(s: Seq<char>) -> Seq<char>;

/// Relies on urlencoding::encode: percent-encodes every byte except ASCII
/// alphanumerics and `-`, `_`, `.`, `~`; a function of the input alone.
#[verifier::external_body]
pub(crate) fn percent_encode(s: &str) -> (r: String)
    ensures
        r@ == percent_encoded(s@),
{
    urlencoding::encode(s).into_owned()
}

/// What `base64::encode` returns; the result depends on the characters
/// alone.
pub uninterp spec fn base64_of(s: Seq<char>) -> Seq<char>;

/// Relies on base64::encode: the standard base64 text of the input's bytes,
/// a function of the input alone.
#[verifier::external_body]
pub(crate) fn base64_encode(s: &str) -> (r: String)
    ensures
        r@ == base64_of(s@),
{
    base64::encode(s)
}

} // verus!
