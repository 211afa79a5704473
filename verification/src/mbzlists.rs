//! The playlist data model: an ordered list of `(title, creator)` pairs with
//! a name, as read from a hosted playlist document, together with the logic
//! that turns a hosted-playlist page URL into the document's API URL.

use vstd::prelude::*;

verus! {

/// A single entry of a playlist: a title and its creator. Equality for
/// matching purposes is decided by the match verifier's policy.
pub struct Track {
    pub title: String,
    pub creator: String,
}

/// The ordered tracks of a playlist.
pub struct Tracklist {
    pub tracks: Vec<Track>,
}

/// A platform-neutral playlist: a name and its ordered tracks.
pub struct Playlist {
    pub title: String,
    pub tracklist: Tracklist,
}

impl Track {
    /// An identical copy of this track.
    pub fn duplicate(&self) -> (r: Track)
        ensures
            r == *self,
    {
        Track { title: self.title.clone(), creator: self.creator.clone() }
    }
}

/// A fatal input error: the playlist's location could not be understood.
#[derive(Debug)]
pub enum InputError {
    MalformedUrl,
}

#[verifier::external_type_specification]
#[verifier::external_body]
pub struct ExUrl(url::Url);

#[verifier::external_type_specification]
#[verifier::external_body]
pub struct ExUrlParseError(url::ParseError);

/// What `url::Url::parse` yields for a text: the parsed URL, or None where
/// the text is no well-formed absolute URL.
pub uninterp spec fn parsed_url(s: Seq<char>) -> Option<url::Url>;

/// What `url::Url::host_str` yields: the URL's host, when it has one.
pub uninterp spec fn host_of(u: url::Url) -> Option<Seq<char>>;

/// What `url::Url::path_segments`, reduced to the last segment, yields:
/// None for a URL that cannot have path segments.
pub uninterp spec fn last_segment_of(u: url::Url) -> Option<Seq<char>>;

/// Relies on url::Url::parse: parses an absolute URL.
#[verifier::external_body]
fn url_parse(s: &str) -> (r: Result<url::Url, url::ParseError>)
    ensures
        r matches Ok(u) ==> parsed_url(s@) == Some(u),
        r is Err ==> parsed_url(s@) is None,
{
    url::Url::parse(s)
}

/// Relies on url::Url::host_str: the URL's host, when it has one.
#[verifier::external_body]
fn url_host(u: &url::Url) -> (r: Option<String>)
    ensures
        r matches Some(h) ==> host_of(*u) == Some(h@),
        r is None ==> host_of(*u) is None,
{
    match u.host_str() {
        Some(h) => Some(h.to_owned()),
        None => None,
    }
}

/// Relies on url::Url::path_segments: the last segment of the URL's path,
/// or None for a URL that cannot have path segments.
#[verifier::external_body]
fn url_last_segment(u: &url::Url) -> (r: Option<String>)
    ensures
        r matches Some(s) ==> last_segment_of(*u) == Some(s@),
        r is None ==> last_segment_of(*u) is None,
{
    match u.path_segments() {
        Some(segments) => match segments.last() {
            Some(s) => Some(s.to_owned()),
            None => None,
        },
        None => None,
    }
}

/// The hosted-playlist API URL for a view identifier:
/// `https://{host}/api/list/{view_id}?type=xspf`, with the default host when
/// none is given.
pub open spec fn spec_api_url(host: Option<Seq<char>>, view_id: Seq<char>) -> Seq<char> {
    "https://"@ + (match host {
        Some(h) => h,
        None => "mbzlists.com"@,
    }) + "/api/list/"@ + view_id + "?type=xspf"@
}

/// The views of an optional host string.
pub open spec fn spec_host_view(host: Option<&str>) -> Option<Seq<char>> {
    match host {
        Some(h) => Some(h@),
        None => None,
    }
}

/// Build the API URL that serves the playlist document for a view
/// identifier, against the given host or the default one.
pub fn api_url_for_view(host: Option<&str>, view_id: &str) -> (r: String)
    ensures
        r@ == spec_api_url(spec_host_view(host), view_id@),
{
    let mut out = String::from_str("https://");
    match host {
        Some(h) => out.append(h),
        None => out.append("mbzlists.com"),
    }
    out.append("/api/list/");
    out.append(view_id);
    out.append("?type=xspf");
    out
}

/// Turn the URL of a hosted-playlist page into the API URL of its document:
/// the view identifier is the last path segment, and the page's own host
/// serves the document. A URL that does not parse, or has no path, is a
/// fatal input error.
pub fn view_api_url(page_url: &str) -> (r: Result<String, InputError>)
    ensures
        match parsed_url(page_url@) {
            None => r == Err::<String, InputError>(InputError::MalformedUrl),
            Some(u) => match last_segment_of(u) {
                None => r == Err::<String, InputError>(InputError::MalformedUrl),
                Some(seg) => r matches Ok(s) && s@ == spec_api_url(host_of(u), seg),
            },
        },
{
    let parsed = match url_parse(page_url) {
        Ok(u) => u,
        Err(_) => {
            return Err(InputError::MalformedUrl);
        },
    };
    let host = url_host(&parsed);
    let view_id = match url_last_segment(&parsed) {
        Some(s) => s,
        None => {
            return Err(InputError::MalformedUrl);
        },
    };
    let host_ref = match &host {
        Some(h) => Some(h.as_str()),
        None => None,
    };
    Ok(api_url_for_view(host_ref, view_id.as_str()))
}

} // verus!
