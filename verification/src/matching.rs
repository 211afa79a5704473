//! The match verifier: the pure gate that decides whether a search candidate
//! is accepted as the resolution of a requested track.

use vstd::prelude::*;
use crate::mbzlists::Track;

verus! {

/// A remote platform's search result considered as a possible match for a
/// track: its native identifier, its title, and its primary artist.
pub struct Candidate {
    pub external_id: String,
    pub title: String,
    pub primary_artist: String,
}

impl Candidate {
    /// An identical copy of this candidate.
    pub fn duplicate(&self) -> (r: Candidate)
        ensures
            r == *self,
    {
        Candidate {
            external_id: self.external_id.clone(),
            title: self.title.clone(),
            primary_artist: self.primary_artist.clone(),
        }
    }
}

/// The verification policy an adapter is configured with.
///
/// `Strict` compares title and artist byte for byte (used for the
/// self-hosted media-server protocol). `CaseFolded` compares them after
/// lower-casing (used for the OAuth-gated catalogs, which capitalize
/// inconsistently).
pub enum Policy {
    Strict,
    CaseFolded,
}

/// What `str::to_lowercase` returns; the result depends on the characters
/// alone.
pub uninterp spec fn lower_of(s: Seq<char>) -> Seq<char>;

/// Relies on str::to_lowercase: the Unicode lowercase mapping of the string,
/// a function of its characters alone.
#[verifier::external_body]
fn lowercase(s: &str) -> (r: String)
    ensures
        r@ == lower_of(s@),
{
    s.to_lowercase()
}

/// Whether two strings are equal once both are lower-cased.
pub fn folded_eq(a: &str, b: &str) -> (r: bool)
    ensures
        r == (lower_of(a@) == lower_of(b@)),
{
    let la = lowercase(a);
    let lb = lowercase(b);
    la == lb
}

/// Acceptance under the strict policy: byte-for-byte equality on both fields.
pub open spec fn strict_accepts(requested: Track, candidate: Candidate) -> bool {
    candidate.title@ == requested.title@ && candidate.primary_artist@ == requested.creator@
}

/// Acceptance under the case-folded policy: equality after lower-casing both
/// fields.
pub open spec fn folded_accepts(requested: Track, candidate: Candidate) -> bool {
    lower_of(candidate.title@) == lower_of(requested.title@)
        && lower_of(candidate.primary_artist@) == lower_of(requested.creator@)
}

/// Acceptance under the given policy.
pub open spec fn accepts(policy: Policy, requested: Track, candidate: Candidate) -> bool {
    match policy {
        Policy::Strict => strict_accepts(requested, candidate),
        Policy::CaseFolded => folded_accepts(requested, candidate),
    }
}

impl Policy {
    /// Decide whether `candidate` is accepted as a resolution of `requested`
    /// under this policy. A false rejection is preferred over a false
    /// acceptance, so no fuzzy or partial matching is performed.
    pub fn verify(&self, requested: &Track, candidate: &Candidate) -> (r: bool)
        ensures
            r == accepts(*self, *requested, *candidate),
    {
        match self {
            Policy::Strict => {
                candidate.title == requested.title && candidate.primary_artist == requested.creator
            },
            Policy::CaseFolded => {
                folded_eq(candidate.title.as_str(), requested.title.as_str()) && folded_eq(
                    candidate.primary_artist.as_str(),
                    requested.creator.as_str(),
                )
            },
        }
    }
}

} // verus!
