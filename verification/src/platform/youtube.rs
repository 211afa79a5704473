//! The adapter for the OAuth-gated video service: the authorization and
//! token-exchange requests, the video search, and playlist creation with
//! per-video insertion. This adapter family uses the case-folded
//! verification policy.

use vstd::prelude::*;
use crate::auth::TokenRequest;
use crate::codec::{percent_encode, percent_encoded};
use crate::json::{
    array_len_of, document_text, element_of, json_array_len, json_at, json_get, json_parse,
    json_quote, json_str, json_string_of, member_of, member_text, parsed_json,
};
use crate::matching::Candidate;
use crate::mbzlists::Track;
use crate::sync::{found_with, PlatformError, SearchReply};

verus! {

/// The free-text search query for a track: its title and creator, separated
/// by a space.
pub open spec fn spec_search_query(track: Track) -> Seq<char> {
    track.title@ + " "@ + track.creator@
}

/// Build the URL of the video-search call, with the percent-encoded
/// free-text query.
pub fn search_url(track: &Track) -> (r: String)
    ensures
        r@ == "https://www.googleapis.com/youtube/v3/search?part=snippet&type=video&q="@
            + percent_encoded(spec_search_query(*track)),
{
    let mut query = track.title.clone();
    query.append(" ");
    query.append(track.creator.as_str());
    let mut out = String::from_str(
        "https://www.googleapis.com/youtube/v3/search?part=snippet&type=video&q=",
    );
    let encoded = percent_encode(query.as_str());
    out.append(encoded.as_str());
    out
}

/// The reply owed for a 200 search response body: a body that does not
/// parse or does not follow the schema is a transient failure; an empty
/// item list is an empty-but-valid result; else the first item — and no
/// other — is the one forwarded candidate, its fields exactly the item's
/// `id.videoId`, `snippet.title` and `snippet.channelTitle` strings.
pub open spec fn spec_search_reply(body: Seq<char>, r: SearchReply) -> bool {
    match parsed_json(body) {
        None => r is TransientError,
        Some(doc) => match member_of(doc, "items"@) {
            None => r is TransientError,
            Some(items) => match array_len_of(items) {
                None => r is TransientError,
                Some(n) => if n == 0 {
                    r is NotFound
                } else {
                    match element_of(items, 0) {
                        None => r is TransientError,
                        Some(first) => match member_of(first, "id"@) {
                            None => r is TransientError,
                            Some(id_value) => match member_text(id_value, "videoId"@) {
                                None => r is TransientError,
                                Some(video_id) => match member_of(first, "snippet"@) {
                                    None => r is TransientError,
                                    Some(snippet) => match (
                                        member_text(snippet, "title"@),
                                        member_text(snippet, "channelTitle"@),
                                    ) {
                                        (Some(title), Some(channel)) => found_with(
                                            r,
                                            video_id,
                                            title,
                                            channel,
                                        ),
                                        _ => r is TransientError,
                                    },
                                },
                            },
                        },
                    }
                },
            },
        },
    }
}

/// Interpret a search response. These endpoints answer 200 OK on success,
/// so any other status is a transient failure; a 200 body is interpreted
/// as `spec_search_reply` states.
pub fn interpret_search(status: u16, body: &str) -> (r: SearchReply)
    ensures
        status != 200 ==> r is TransientError,
        status == 200 ==> spec_search_reply(body@, r),
{
    if status != 200 {
        return SearchReply::TransientError;
    }
    let parsed = match json_parse(body) {
        Ok(v) => v,
        Err(_) => {
            return SearchReply::TransientError;
        },
    };
    let items = match json_get(&parsed, "items") {
        Some(v) => v,
        None => {
            return SearchReply::TransientError;
        },
    };
    let count = match json_array_len(items) {
        Some(n) => n,
        None => {
            return SearchReply::TransientError;
        },
    };
    if count == 0 {
        return SearchReply::NotFound;
    }
    let first = match json_at(items, 0) {
        Some(v) => v,
        None => {
            return SearchReply::TransientError;
        },
    };
    let video_id = match json_get(first, "id") {
        Some(id_value) => match json_get(id_value, "videoId") {
            Some(v) => match json_str(v) {
                Some(s) => s,
                None => {
                    return SearchReply::TransientError;
                },
            },
            None => {
                return SearchReply::TransientError;
            },
        },
        None => {
            return SearchReply::TransientError;
        },
    };
    let snippet = match json_get(first, "snippet") {
        Some(v) => v,
        None => {
            return SearchReply::TransientError;
        },
    };
    let title = match json_get(snippet, "title") {
        Some(v) => match json_str(v) {
            Some(s) => s,
            None => {
                return SearchReply::TransientError;
            },
        },
        None => {
            return SearchReply::TransientError;
        },
    };
    let channel = match json_get(snippet, "channelTitle") {
        Some(v) => match json_str(v) {
            Some(s) => s,
            None => {
                return SearchReply::TransientError;
            },
        },
        None => {
            return SearchReply::TransientError;
        },
    };
    SearchReply::Found(Candidate { external_id: video_id, title, primary_artist: channel })
}

/// Build the URL of the playlist-creation call.
pub fn create_playlist_url() -> (r: String)
    ensures
        r@ == "https://www.googleapis.com/youtube/v3/playlists?part=snippet,status"@,
{
    String::from_str("https://www.googleapis.com/youtube/v3/playlists?part=snippet,status")
}

/// Build the JSON payload of the playlist-creation call: a private playlist
/// with the given title and the import description. The payload is always
/// produced.
pub fn create_playlist_body(title: &str) -> (r: Result<String, PlatformError>)
    ensures
        r is Ok,
        r matches Ok(b) ==> b@ == "{\"snippet\":{\"title\":"@ + json_string_of(title@)
            + ",\"description\":\"Imported from mbzlists\"},\"status\":{\"privacyStatus\":\"private\"}}"@,
{
    let quoted = match json_quote(title) {
        Ok(q) => q,
        Err(_) => {
            return Err(PlatformError::BadSchema);
        },
    };
    let mut out = String::from_str("{\"snippet\":{\"title\":");
    out.append(quoted.as_str());
    out.append(",\"description\":\"Imported from mbzlists\"},\"status\":{\"privacyStatus\":\"private\"}}");
    Ok(out)
}

/// Read the created playlist's identifier out of a creation response.
/// These endpoints answer 200 OK on success, so any other status is a
/// transport failure; on 200 the result is exactly the response's `id`
/// string, and a body without it is a schema error.
pub fn playlist_id_from_response(status: u16, body: &str) -> (r: Result<String, PlatformError>)
    ensures
        status != 200 ==> r == Err::<String, PlatformError>(PlatformError::Http),
        status == 200 ==> match document_text(body@, "id"@) {
            Some(id) => r matches Ok(s) && s@ == id,
            None => r == Err::<String, PlatformError>(PlatformError::BadSchema),
        },
{
    if status != 200 {
        return Err(PlatformError::Http);
    }
    let parsed = match json_parse(body) {
        Ok(v) => v,
        Err(_) => {
            return Err(PlatformError::BadSchema);
        },
    };
    match json_get(&parsed, "id") {
        Some(v) => match json_str(v) {
            Some(s) => Ok(s),
            None => Err(PlatformError::BadSchema),
        },
        None => Err(PlatformError::BadSchema),
    }
}

/// Build the URL of the video-insertion call.
pub fn add_video_url() -> (r: String)
    ensures
        r@ == "https://www.googleapis.com/youtube/v3/playlistItems?part=snippet"@,
{
    String::from_str("https://www.googleapis.com/youtube/v3/playlistItems?part=snippet")
}

/// Build the JSON payload of the video-insertion call for one video of a
/// created playlist. The payload is always produced.
pub fn add_video_body(playlist_id: &str, video_id: &str) -> (r: Result<String, PlatformError>)
    ensures
        r is Ok,
        r matches Ok(b) ==> b@ == "{\"snippet\":{\"playlistId\":"@ + json_string_of(playlist_id@)
            + ",\"resourceId\":{\"kind\":\"youtube#video\",\"videoId\":"@ + json_string_of(
            video_id@,
        ) + "}}}"@,
{
    let quoted_playlist = match json_quote(playlist_id) {
        Ok(q) => q,
        Err(_) => {
            return Err(PlatformError::BadSchema);
        },
    };
    let quoted_video = match json_quote(video_id) {
        Ok(q) => q,
        Err(_) => {
            return Err(PlatformError::BadSchema);
        },
    };
    let mut out = String::from_str("{\"snippet\":{\"playlistId\":");
    out.append(quoted_playlist.as_str());
    out.append(",\"resourceId\":{\"kind\":\"youtube#video\",\"videoId\":");
    out.append(quoted_video.as_str());
    out.append("}}}");
    Ok(out)
}

/// Interpret a video-insertion response: the call succeeded iff the status
/// is 2xx OK.
pub fn interpret_add(status: u16) -> (r: Result<(), PlatformError>)
    ensures
        r == if status == 200 {
            Ok::<(), PlatformError>(())
        } else {
            Err::<(), PlatformError>(PlatformError::Http)
        },
{
    if status == 200 {
        Ok(())
    } else {
        Err(PlatformError::Http)
    }
}

/// The public page URL of a created playlist.
pub fn playlist_page_url(playlist_id: &str) -> (r: String)
    ensures
        r@ == "https://www.youtube.com/playlist?list="@ + playlist_id@,
{
    let mut out = String::from_str("https://www.youtube.com/playlist?list=");
    out.append(playlist_id);
    out
}

/// Build the consent-page URL the user agent is redirected to: the
/// service's authorization endpoint with the client identifier, the
/// redirect URI, the service scope, offline access and a consent prompt,
/// each value percent-encoded.
pub fn authorize_url(client_id: &str, redirect_uri: &str) -> (r: String)
    ensures
        r@ == "https://accounts.google.com/o/oauth2/auth?client_id="@ + percent_encoded(client_id@)
            + "&response_type=code&redirect_uri="@ + percent_encoded(redirect_uri@) + "&scope="@
            + percent_encoded("https://www.googleapis.com/auth/youtube"@)
            + "&access_type=offline&prompt=consent"@,
{
    let mut out = String::from_str("https://accounts.google.com/o/oauth2/auth?client_id=");
    let enc_client = percent_encode(client_id);
    out.append(enc_client.as_str());
    out.append("&response_type=code&redirect_uri=");
    let enc_redirect = percent_encode(redirect_uri);
    out.append(enc_redirect.as_str());
    out.append("&scope=");
    let enc_scope = percent_encode("https://www.googleapis.com/auth/youtube");
    out.append(enc_scope.as_str());
    out.append("&access_type=offline&prompt=consent");
    out
}

/// Build the token-exchange request for a one-time code: the token endpoint
/// and the authorization-code grant parameters, client secret included; no
/// authorization header is used.
pub fn token_request(client_id: &str, client_secret: &str, redirect_uri: &str, code: &str) -> (r:
    TokenRequest)
    ensures
        r.url@ == "https://oauth2.googleapis.com/token"@,
        r.auth_header is None,
        r.params@.len() == 5,
        r.params@[0].0@ == "code"@ && r.params@[0].1@ == code@,
        r.params@[1].0@ == "client_id"@ && r.params@[1].1@ == client_id@,
        r.params@[2].0@ == "client_secret"@ && r.params@[2].1@ == client_secret@,
        r.params@[3].0@ == "redirect_uri"@ && r.params@[3].1@ == redirect_uri@,
        r.params@[4].0@ == "grant_type"@ && r.params@[4].1@ == "authorization_code"@,
{
    let mut params: Vec<(String, String)> = Vec::new();
    params.push((String::from_str("code"), String::from_str(code)));
    params.push((String::from_str("client_id"), String::from_str(client_id)));
    params.push((String::from_str("client_secret"), String::from_str(client_secret)));
    params.push((String::from_str("redirect_uri"), String::from_str(redirect_uri)));
    params.push((String::from_str("grant_type"), String::from_str("authorization_code")));
    TokenRequest {
        url: String::from_str("https://oauth2.googleapis.com/token"),
        auth_header: None,
        params,
    }
}

} // verus!
