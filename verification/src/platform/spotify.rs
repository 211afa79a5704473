//! The adapter for the OAuth-gated music catalog: the authorization and
//! token-exchange requests, the catalog search, and the two-step playlist
//! creation. This adapter family uses the case-folded verification policy.

use vstd::prelude::*;
use crate::auth::TokenRequest;
use crate::codec::{base64_encode, base64_of, percent_encode, percent_encoded};
use crate::json::{
    array_len_of, document_text, element_of, json_array_len, json_at, json_get, json_parse,
    json_quote, json_str, json_string_of, member_of, member_text, parsed_json,
};
use crate::matching::Candidate;
use crate::mbzlists::Track;
use crate::sync::{found_with, PlatformError, SearchReply};

verus! {

/// An album as the catalog reports it.
pub struct SpotifyAlbum {
    pub id: String,
    pub name: String,
}

/// An artist as the catalog reports it.
pub struct SpotifyArtist {
    pub id: String,
    pub name: String,
}

/// A track as the catalog reports it: its identifier, name, the credited
/// artists in the catalog's order, and its album.
pub struct SpotifyTrack {
    pub id: String,
    pub name: String,
    pub artists: Vec<SpotifyArtist>,
    pub album: SpotifyAlbum,
}

/// A playlist created on the catalog: its identifier and its public URL.
pub struct SpotifyPlaylist {
    pub id: String,
    pub url: String,
}

impl SpotifyTrack {
    /// The track as a candidate for the match verifier: the first credited
    /// artist is its primary artist. A track credited to nobody yields no
    /// candidate.
    pub fn candidate(&self) -> (r: Option<Candidate>)
        ensures
            r is Some <==> self.artists@.len() > 0,
            r matches Some(c) ==> {
                &&& c.external_id == self.id
                &&& c.title == self.name
                &&& c.primary_artist == self.artists@[0].name
            },
    {
        if self.artists.len() > 0 {
            Some(
                Candidate {
                    external_id: self.id.clone(),
                    title: self.name.clone(),
                    primary_artist: self.artists[0].name.clone(),
                },
            )
        } else {
            None
        }
    }
}

/// The catalog's API root.
pub open spec fn spec_api_root() -> Seq<char> {
    "https://api.spotify.com/v1"@
}

/// The free-text search query for a track: its title, then an `artist:`
/// filter with its creator.
pub open spec fn spec_search_query(track: Track) -> Seq<char> {
    track.title@ + " artist:"@ + track.creator@
}

/// Build the URL of the track-search call, with the percent-encoded
/// free-text query.
pub fn search_url(track: &Track) -> (r: String)
    ensures
        r@ == spec_api_root() + "/search?q="@ + percent_encoded(spec_search_query(*track))
            + "&type=track"@,
{
    let mut query = track.title.clone();
    query.append(" artist:");
    query.append(track.creator.as_str());
    let mut out = String::from_str("https://api.spotify.com/v1");
    out.append("/search?q=");
    let encoded = percent_encode(query.as_str());
    out.append(encoded.as_str());
    out.append("&type=track");
    out
}

/// The `id` and `name` strings of one entry of an artist array, or None
/// where the entry is absent or off-schema.
pub open spec fn spec_artist_entry(arr: serde_json::Value, i: int) -> Option<(Seq<char>, Seq<char>)> {
    match element_of(arr, i) {
        None => None,
        Some(a) => match (member_text(a, "id"@), member_text(a, "name"@)) {
            (Some(id), Some(name)) => Some((id, name)),
            _ => None,
        },
    }
}

/// The `id` and `name` strings of the first `n` entries of an artist
/// array, in order, or None where any entry is off-schema.
pub open spec fn spec_artists(arr: serde_json::Value, n: int) -> Option<Seq<(Seq<char>, Seq<char>)>>
    decreases n,
{
    if n <= 0 {
        Some(Seq::empty())
    } else {
        match spec_artists(arr, n - 1) {
            None => None,
            Some(prefix) => match spec_artist_entry(arr, n - 1) {
                None => None,
                Some(entry) => Some(prefix.push(entry)),
            },
        }
    }
}

/// One off-schema entry makes the whole artist array off-schema.
proof fn lemma_artists_entry_none(arr: serde_json::Value, i: int, n: int)
    requires
        0 <= i < n,
        spec_artist_entry(arr, i) is None,
    ensures
        spec_artists(arr, n) is None,
    decreases n,
{
    if i < n - 1 {
        lemma_artists_entry_none(arr, i, n - 1);
    }
}

/// Read the artist list of a track object: every entry's `id` and `name`,
/// in the array's order; None wherever the schema is not followed.
fn artists_from_json(v: &serde_json::Value) -> (r: Option<Vec<SpotifyArtist>>)
    ensures
        match array_len_of(*v) {
            None => r is None,
            Some(n) => match spec_artists(*v, n) {
                None => r is None,
                Some(entries) => r matches Some(artists) && artists@.len() == entries.len() && (
                forall|i: int|
                    #![trigger artists@[i]]
                    0 <= i < entries.len() ==> artists@[i].id@ == entries[i].0
                        && artists@[i].name@ == entries[i].1),
            },
        },
{
    let count = match json_array_len(v) {
        Some(n) => n,
        None => {
            return None;
        },
    };
    let mut artists: Vec<SpotifyArtist> = Vec::new();
    let mut i: usize = 0;
    while i < count
        invariant
            i <= count,
            array_len_of(*v) == Some(count as int),
            spec_artists(*v, i as int) matches Some(entries) && artists@.len() == entries.len()
                && (forall|j: int|
                #![trigger artists@[j]]
                0 <= j < entries.len() ==> artists@[j].id@ == entries[j].0 && artists@[j].name@
                    == entries[j].1),
        decreases count - i,
    {
        let entry: Option<SpotifyArtist> = match json_at(v, i) {
            Some(item) => {
                let id = match json_get(item, "id") {
                    Some(m) => json_str(m),
                    None => None,
                };
                let name = match json_get(item, "name") {
                    Some(m) => json_str(m),
                    None => None,
                };
                match (id, name) {
                    (Some(id), Some(name)) => Some(SpotifyArtist { id, name }),
                    _ => None,
                }
            },
            None => None,
        };
        match entry {
            Some(artist) => {
                artists.push(artist);
            },
            None => {
                proof {
                    lemma_artists_entry_none(*v, i as int, count as int);
                }
                return None;
            },
        }
        i = i + 1;
    }
    Some(artists)
}

/// The plain fields of one track object, as character sequences: its
/// identifier and name, its artists' identifiers and names in order, and
/// its album's identifier and name.
pub struct TrackFields {
    pub id: Seq<char>,
    pub name: Seq<char>,
    pub artists: Seq<(Seq<char>, Seq<char>)>,
    pub album_id: Seq<char>,
    pub album_name: Seq<char>,
}

/// The fields of a track object, or None wherever the schema is not
/// followed: `id` and `name` strings, a well-formed `artists` array, and an
/// `album` object with `id` and `name` strings.
pub open spec fn spec_track_fields(v: serde_json::Value) -> Option<TrackFields> {
    match (member_text(v, "id"@), member_text(v, "name"@)) {
        (Some(id), Some(name)) => match member_of(v, "artists"@) {
            None => None,
            Some(arr) => match array_len_of(arr) {
                None => None,
                Some(n) => match spec_artists(arr, n) {
                    None => None,
                    Some(artists) => match member_of(v, "album"@) {
                        None => None,
                        Some(album) => match (
                            member_text(album, "id"@),
                            member_text(album, "name"@),
                        ) {
                            (Some(album_id), Some(album_name)) => Some(
                                TrackFields { id, name, artists, album_id, album_name },
                            ),
                            _ => None,
                        },
                    },
                },
            },
        },
        _ => None,
    }
}

/// Read one track object, as `spec_track_fields` states; None wherever the
/// schema is not followed.
fn track_from_json(v: &serde_json::Value) -> (r: Option<SpotifyTrack>)
    ensures
        match spec_track_fields(*v) {
            None => r is None,
            Some(f) => r matches Some(t) && t.id@ == f.id && t.name@ == f.name && t.artists@.len()
                == f.artists.len() && (forall|i: int|
                #![trigger t.artists@[i]]
                0 <= i < f.artists.len() ==> t.artists@[i].id@ == f.artists[i].0
                    && t.artists@[i].name@ == f.artists[i].1) && t.album.id@ == f.album_id
                && t.album.name@ == f.album_name,
        },
{
    let id = match json_get(v, "id") {
        Some(m) => match json_str(m) {
            Some(s) => s,
            None => {
                return None;
            },
        },
        None => {
            return None;
        },
    };
    let name = match json_get(v, "name") {
        Some(m) => match json_str(m) {
            Some(s) => s,
            None => {
                return None;
            },
        },
        None => {
            return None;
        },
    };
    let artists = match json_get(v, "artists") {
        Some(m) => match artists_from_json(m) {
            Some(a) => a,
            None => {
                return None;
            },
        },
        None => {
            return None;
        },
    };
    let album_value = match json_get(v, "album") {
        Some(m) => m,
        None => {
            return None;
        },
    };
    let album_id = match json_get(album_value, "id") {
        Some(m) => match json_str(m) {
            Some(s) => s,
            None => {
                return None;
            },
        },
        None => {
            return None;
        },
    };
    let album_name = match json_get(album_value, "name") {
        Some(m) => match json_str(m) {
            Some(s) => s,
            None => {
                return None;
            },
        },
        None => {
            return None;
        },
    };
    Some(SpotifyTrack { id, name, artists, album: SpotifyAlbum { id: album_id, name: album_name } })
}

/// The reply owed for a 200 search response body: a body that does not
/// parse, an error response, or one that does not follow the schema is a
/// transient failure; an empty item list is an empty-but-valid result;
/// else the first item — and no other — is the one forwarded candidate,
/// its fields exactly the item's `id` and `name` strings and its first
/// artist's `name` string, a track credited to nobody being off-schema.
pub open spec fn spec_search_reply(body: Seq<char>, r: SearchReply) -> bool {
    match parsed_json(body) {
        None => r is TransientError,
        Some(doc) => match member_of(doc, "tracks"@) {
            None => r is TransientError,
            Some(tracks) => match member_of(tracks, "items"@) {
                None => r is TransientError,
                Some(items) => match array_len_of(items) {
                    None => r is TransientError,
                    Some(n) => if n == 0 {
                        r is NotFound
                    } else {
                        match element_of(items, 0) {
                            None => r is TransientError,
                            Some(first) => match spec_track_fields(first) {
                                None => r is TransientError,
                                Some(f) => if f.artists.len() == 0 {
                                    r is TransientError
                                } else {
                                    found_with(r, f.id, f.name, f.artists[0].1)
                                },
                            },
                        }
                    },
                },
            },
        },
    }
}

/// Interpret a search response. These endpoints answer 200 OK on success,
/// so any other status is a transient failure; a 200 body is interpreted
/// as `spec_search_reply` states.
pub fn interpret_search(status: u16, body: &str) -> (r: SearchReply)
    ensures
        status != 200 ==> r is TransientError,
        status == 200 ==> spec_search_reply(body@, r),
{
    if status != 200 {
        return SearchReply::TransientError;
    }
    let parsed = match json_parse(body) {
        Ok(v) => v,
        Err(_) => {
            return SearchReply::TransientError;
        },
    };
    let tracks = match json_get(&parsed, "tracks") {
        Some(v) => v,
        None => {
            return SearchReply::TransientError;
        },
    };
    let items = match json_get(tracks, "items") {
        Some(v) => v,
        None => {
            return SearchReply::TransientError;
        },
    };
    let count = match json_array_len(items) {
        Some(n) => n,
        None => {
            return SearchReply::TransientError;
        },
    };
    if count == 0 {
        return SearchReply::NotFound;
    }
    let first = match json_at(items, 0) {
        Some(v) => v,
        None => {
            return SearchReply::TransientError;
        },
    };
    let track = match track_from_json(first) {
        Some(t) => t,
        None => {
            return SearchReply::TransientError;
        },
    };
    match track.candidate() {
        Some(c) => SearchReply::Found(c),
        None => SearchReply::TransientError,
    }
}

/// Build the URL of the playlist-creation call for the authenticated
/// account.
pub fn create_playlist_url(user_id: &str) -> (r: String)
    ensures
        r@ == spec_api_root() + "/users/"@ + user_id@ + "/playlists"@,
{
    let mut out = String::from_str("https://api.spotify.com/v1");
    out.append("/users/");
    out.append(user_id);
    out.append("/playlists");
    out
}

/// Build the JSON payload of the playlist-creation call: a private playlist
/// with the given name and the import description. The payload is always
/// produced.
pub fn create_playlist_body(name: &str) -> (r: Result<String, PlatformError>)
    ensures
        r is Ok,
        r matches Ok(b) ==> b@ == "{\"name\":"@ + json_string_of(name@)
            + ",\"public\":false,\"description\":\"Imported from mbzlists\"}"@,
{
    let quoted = match json_quote(name) {
        Ok(q) => q,
        Err(_) => {
            return Err(PlatformError::BadSchema);
        },
    };
    let mut out = String::from_str("{\"name\":");
    out.append(quoted.as_str());
    out.append(",\"public\":false,\"description\":\"Imported from mbzlists\"}");
    Ok(out)
}

/// Build the URL of the track-insertion call for a created playlist.
pub fn add_tracks_url(playlist_id: &str) -> (r: String)
    ensures
        r@ == spec_api_root() + "/playlists/"@ + playlist_id@ + "/tracks"@,
{
    let mut out = String::from_str("https://api.spotify.com/v1");
    out.append("/playlists/");
    out.append(playlist_id);
    out.append("/tracks");
    out
}

/// The quoted track URI of one candidate.
pub open spec fn spec_uri(c: Candidate) -> Seq<char> {
    json_string_of("spotify:track:"@ + c.external_id@)
}

/// The quoted track URIs of the candidates, joined with commas, in source
/// order.
pub open spec fn spec_uri_list(candidates: Seq<Candidate>) -> Seq<char>
    decreases candidates.len(),
{
    if candidates.len() == 0 {
        Seq::empty()
    } else if candidates.len() == 1 {
        spec_uri(candidates[0])
    } else {
        spec_uri_list(candidates.drop_last()) + ","@ + spec_uri(candidates.last())
    }
}

/// Build the JSON payload of the track-insertion call: the track URI of
/// every resolved candidate, in source order. The payload is always
/// produced.
pub fn add_tracks_body(candidates: &Vec<Candidate>) -> (r: Result<String, PlatformError>)
    ensures
        r is Ok,
        r matches Ok(b) ==> b@ == "{\"uris\":["@ + spec_uri_list(candidates@) + "]}"@,
{
    let mut out = String::from_str("{\"uris\":[");
    let mut i: usize = 0;
    while i < candidates.len()
        invariant
            i <= candidates@.len(),
            out@ == "{\"uris\":["@ + spec_uri_list(candidates@.take(i as int)),
        decreases candidates@.len() - i,
    {
        let mut uri = String::from_str("spotify:track:");
        uri.append(candidates[i].external_id.as_str());
        let quoted = match json_quote(uri.as_str()) {
            Ok(q) => q,
            Err(_) => {
                return Err(PlatformError::BadSchema);
            },
        };
        if i > 0 {
            out.append(",");
        }
        out.append(quoted.as_str());
        i = i + 1;
        proof {
            let taken = candidates@.take(i as int);
            assert(taken.drop_last() =~= candidates@.take(i - 1));
            assert(taken.last() == candidates@[i - 1]);
        }
    }
    proof {
        assert(candidates@.take(candidates@.len() as int) =~= candidates@);
    }
    out.append("]}");
    Ok(out)
}

/// Interpret a playlist-creation response. These endpoints answer 200 OK
/// on success, so any other status is a transport failure; on 200 the
/// result carries exactly the response's `id` and `external_urls.spotify`
/// strings, and a body missing either is a schema error.
pub fn interpret_create(status: u16, body: &str) -> (r: Result<SpotifyPlaylist, PlatformError>)
    ensures
        status != 200 ==> r == Err::<SpotifyPlaylist, PlatformError>(PlatformError::Http),
        status == 200 ==> match parsed_json(body@) {
            None => r == Err::<SpotifyPlaylist, PlatformError>(PlatformError::BadSchema),
            Some(doc) => match member_text(doc, "id"@) {
                None => r == Err::<SpotifyPlaylist, PlatformError>(PlatformError::BadSchema),
                Some(id) => match member_of(doc, "external_urls"@) {
                    None => r == Err::<SpotifyPlaylist, PlatformError>(PlatformError::BadSchema),
                    Some(urls) => match member_text(urls, "spotify"@) {
                        None => r == Err::<SpotifyPlaylist, PlatformError>(PlatformError::BadSchema),
                        Some(url) => r matches Ok(p) && p.id@ == id && p.url@ == url,
                    },
                },
            },
        },
{
    if status != 200 {
        return Err(PlatformError::Http);
    }
    let parsed = match json_parse(body) {
        Ok(v) => v,
        Err(_) => {
            return Err(PlatformError::BadSchema);
        },
    };
    let id = match json_get(&parsed, "id") {
        Some(v) => match json_str(v) {
            Some(s) => s,
            None => {
                return Err(PlatformError::BadSchema);
            },
        },
        None => {
            return Err(PlatformError::BadSchema);
        },
    };
    let urls = match json_get(&parsed, "external_urls") {
        Some(v) => v,
        None => {
            return Err(PlatformError::BadSchema);
        },
    };
    let url = match json_get(urls, "spotify") {
        Some(v) => match json_str(v) {
            Some(s) => s,
            None => {
                return Err(PlatformError::BadSchema);
            },
        },
        None => {
            return Err(PlatformError::BadSchema);
        },
    };
    Ok(SpotifyPlaylist { id, url })
}

/// Read the authenticated account's identifier out of a profile response.
/// These endpoints answer 200 OK on success, so any other status is a
/// transport failure; on 200 the result is exactly the response's `id`
/// string, and a body without it is a schema error.
pub fn user_id_from_response(status: u16, body: &str) -> (r: Result<String, PlatformError>)
    ensures
        status != 200 ==> r == Err::<String, PlatformError>(PlatformError::Http),
        status == 200 ==> match document_text(body@, "id"@) {
            Some(id) => r matches Ok(s) && s@ == id,
            None => r == Err::<String, PlatformError>(PlatformError::BadSchema),
        },
{
    if status != 200 {
        return Err(PlatformError::Http);
    }
    let parsed = match json_parse(body) {
        Ok(v) => v,
        Err(_) => {
            return Err(PlatformError::BadSchema);
        },
    };
    match json_get(&parsed, "id") {
        Some(v) => match json_str(v) {
            Some(s) => Ok(s),
            None => Err(PlatformError::BadSchema),
        },
        None => Err(PlatformError::BadSchema),
    }
}

/// Build the URL of the account's profile call.
pub fn profile_url() -> (r: String)
    ensures
        r@ == spec_api_root() + "/me"@,
{
    let mut out = String::from_str("https://api.spotify.com/v1");
    out.append("/me");
    out
}

/// Build the consent-page URL the user agent is redirected to: the catalog's
/// authorization endpoint with the client identifier, the redirect URI and
/// the playlist-modification scopes, each percent-encoded.
pub fn authorize_url(client_id: &str, redirect_uri: &str) -> (r: String)
    ensures
        r@ == "https://accounts.spotify.com/authorize?client_id="@ + percent_encoded(client_id@)
            + "&response_type=code&redirect_uri="@ + percent_encoded(redirect_uri@) + "&scope="@
            + percent_encoded("playlist-modify-private playlist-modify-public"@),
{
    let mut out = String::from_str("https://accounts.spotify.com/authorize?client_id=");
    let enc_client = percent_encode(client_id);
    out.append(enc_client.as_str());
    out.append("&response_type=code&redirect_uri=");
    let enc_redirect = percent_encode(redirect_uri);
    out.append(enc_redirect.as_str());
    out.append("&scope=");
    let enc_scope = percent_encode("playlist-modify-private playlist-modify-public");
    out.append(enc_scope.as_str());
    out
}

/// Build the token-exchange request for a one-time code: the token endpoint,
/// HTTP basic authorization from the client identifier and secret, and the
/// authorization-code grant parameters.
pub fn token_request(client_id: &str, client_secret: &str, redirect_uri: &str, code: &str) -> (r:
    TokenRequest)
    ensures
        r.url@ == "https://accounts.spotify.com/api/token"@,
        r.auth_header matches Some(h) && h@ == "Basic "@ + base64_of(
            client_id@ + ":"@ + client_secret@,
        ),
        r.params@.len() == 3,
        r.params@[0].0@ == "grant_type"@ && r.params@[0].1@ == "authorization_code"@,
        r.params@[1].0@ == "code"@ && r.params@[1].1@ == code@,
        r.params@[2].0@ == "redirect_uri"@ && r.params@[2].1@ == redirect_uri@,
{
    let mut credentials = String::from_str(client_id);
    credentials.append(":");
    credentials.append(client_secret);
    let mut header = String::from_str("Basic ");
    let encoded = base64_encode(credentials.as_str());
    header.append(encoded.as_str());
    let mut params: Vec<(String, String)> = Vec::new();
    params.push((String::from_str("grant_type"), String::from_str("authorization_code")));
    params.push((String::from_str("code"), String::from_str(code)));
    params.push((String::from_str("redirect_uri"), String::from_str(redirect_uri)));
    TokenRequest {
        url: String::from_str("https://accounts.spotify.com/api/token"),
        auth_header: Some(header),
        params,
    }
}

} // verus!
