//! The adapter for the self-hosted media-server protocol: authenticated
//! query URLs, the free-text search query, and the interpretation of search
//! and playlist-creation responses. This adapter family uses the strict
//! verification policy.

use vstd::prelude::*;
use crate::codec::{percent_encode, percent_encoded};
use crate::json::{
    array_len_of, element_of, json_array_len, json_at, json_get, json_parse, json_str, member_of,
    member_text, parsed_json,
};
use crate::matching::Candidate;
use crate::mbzlists::Track;
use crate::sync::{found_with, PlatformError, SearchReply};

verus! {

/// A song as the media server reports it: its identifier, title and artist.
pub struct SubsonicTrack {
    pub id: String,
    pub title: String,
    pub artist: String,
}

impl SubsonicTrack {
    /// The song as a candidate for the match verifier: the artist field is
    /// its primary artist.
    pub fn candidate(self) -> (r: Candidate)
        ensures
            r.external_id == self.id,
            r.title == self.title,
            r.primary_artist == self.artist,
    {
        Candidate { external_id: self.id, title: self.title, primary_artist: self.artist }
    }
}

/// The media server's fixed configuration: endpoint root, account
/// credentials, and the protocol version and client name sent with every
/// call.
pub struct SubsonicClient {
    pub root: String,
    pub user: String,
    pub password: String,
    pub version: String,
    pub client: String,
}

impl SubsonicClient {
    /// A client for the given endpoint root and credentials, speaking
    /// protocol version 1.12.0.
    pub fn new(root: String, user: String, password: String) -> (r: SubsonicClient)
        ensures
            r.root == root,
            r.user == user,
            r.password == password,
            r.version@ == "1.12.0"@,
            r.client@ == "mbzlists-resolvers"@,
    {
        SubsonicClient {
            root,
            user,
            password,
            version: String::from_str("1.12.0"),
            client: String::from_str("mbzlists-resolvers"),
        }
    }

    /// The URL of one API call: the endpoint root, the API path, the
    /// authentication and protocol query parameters, and the call's own
    /// query parameters.
    pub open spec fn spec_request_url(self, api: Seq<char>, query_params: Seq<char>) -> Seq<char> {
        self.root@ + api + "?u="@ + self.user@ + "&p="@ + self.password@ + "&v="@ + self.version@
            + "&c="@ + self.client@ + "&f=json&"@ + query_params
    }

    /// Build the URL of one API call.
    pub fn request_url(&self, api: &str, query_params: &str) -> (r: String)
        ensures
            r@ == self.spec_request_url(api@, query_params@),
    {
        let mut out = self.root.clone();
        out.append(api);
        out.append("?u=");
        out.append(self.user.as_str());
        out.append("&p=");
        out.append(self.password.as_str());
        out.append("&v=");
        out.append(self.version.as_str());
        out.append("&c=");
        out.append(self.client.as_str());
        out.append("&f=json&");
        out.append(query_params);
        out
    }

    /// The free-text search query for a track: its title and creator,
    /// separated by a space.
    pub open spec fn spec_search_query(track: Track) -> Seq<char> {
        track.title@ + " "@ + track.creator@
    }

    /// Build the URL of the search call for a track: the `search2` API with
    /// the percent-encoded free-text query.
    pub fn search_url(&self, track: &Track) -> (r: String)
        ensures
            r@ == self.spec_request_url(
                "/search2"@,
                "query="@ + percent_encoded(Self::spec_search_query(*track)),
            ),
    {
        let mut query = self.track_query(track);
        let mut params = String::from_str("query=");
        let encoded = percent_encode(query.as_str());
        params.append(encoded.as_str());
        self.request_url("/search2", params.as_str())
    }

    /// Build the free-text search query for a track.
    fn track_query(&self, track: &Track) -> (r: String)
        ensures
            r@ == Self::spec_search_query(*track),
    {
        let mut query = track.title.clone();
        query.append(" ");
        query.append(track.creator.as_str());
        query
    }

    /// The `songId` query parameters naming each candidate to put into the
    /// created playlist, joined with `&`.
    pub open spec fn spec_song_ids(candidates: Seq<Candidate>) -> Seq<char>
        decreases candidates.len(),
    {
        if candidates.len() == 0 {
            Seq::empty()
        } else if candidates.len() == 1 {
            "songId="@ + candidates[0].external_id@
        } else {
            Self::spec_song_ids(candidates.drop_last()) + "&songId="@
                + candidates.last().external_id@
        }
    }

    /// Build the URL of the playlist-creation call: the `createPlaylist`
    /// API with the percent-encoded playlist name and one `songId`
    /// parameter per resolved candidate, in source order.
    pub fn create_url(&self, name: &str, candidates: &Vec<Candidate>) -> (r: String)
        ensures
            r@ == self.spec_request_url(
                "/createPlaylist"@,
                "name="@ + percent_encoded(name@) + "&"@ + Self::spec_song_ids(candidates@),
            ),
    {
        let mut params = String::from_str("name=");
        let encoded = percent_encode(name);
        params.append(encoded.as_str());
        params.append("&");
        let mut i: usize = 0;
        while i < candidates.len()
            invariant
                i <= candidates@.len(),
                params@ == "name="@ + percent_encoded(name@) + "&"@ + Self::spec_song_ids(
                    candidates@.take(i as int),
                ),
            decreases candidates@.len() - i,
        {
            if i > 0 {
                params.append("&songId=");
            } else {
                params.append("songId=");
            }
            params.append(candidates[i].external_id.as_str());
            i = i + 1;
            proof {
                let taken = candidates@.take(i as int);
                assert(taken.drop_last() =~= candidates@.take(i - 1));
                assert(taken.last() == candidates@[i - 1]);
            }
        }
        proof {
            assert(candidates@.take(candidates@.len() as int) =~= candidates@);
        }
        self.request_url("/createPlaylist", params.as_str())
    }
}

/// The reply owed for a search response body: a body that does not parse
/// or does not follow the protocol's schema is a transient failure; a
/// response without a result list, or with an empty one, is an
/// empty-but-valid result; else the first song of the list — and no other —
/// is the one forwarded candidate, its fields exactly the song's `id`,
/// `title` and `artist` strings.
pub open spec fn spec_search_reply(body: Seq<char>, r: SearchReply) -> bool {
    match parsed_json(body) {
        None => r is TransientError,
        Some(doc) => match member_of(doc, "subsonic-response"@) {
            None => r is TransientError,
            Some(resp) => match member_of(resp, "searchResult2"@) {
                None => r is NotFound,
                Some(results) => match member_of(results, "song"@) {
                    None => r is NotFound,
                    Some(songs) => match array_len_of(songs) {
                        None => r is TransientError,
                        Some(n) => if n == 0 {
                            r is NotFound
                        } else {
                            match element_of(songs, 0) {
                                None => r is TransientError,
                                Some(first) => match (
                                    member_text(first, "id"@),
                                    member_text(first, "title"@),
                                    member_text(first, "artist"@),
                                ) {
                                    (Some(id), Some(title), Some(artist)) => found_with(
                                        r,
                                        id,
                                        title,
                                        artist,
                                    ),
                                    _ => r is TransientError,
                                },
                            }
                        },
                    },
                },
            },
        },
    }
}

/// Interpret a search response body, as `spec_search_reply` states.
pub fn interpret_search(body: &str) -> (r: SearchReply)
    ensures
        spec_search_reply(body@, r),
{
    let parsed = match json_parse(body) {
        Ok(v) => v,
        Err(_) => {
            return SearchReply::TransientError;
        },
    };
    let response = match json_get(&parsed, "subsonic-response") {
        Some(v) => v,
        None => {
            return SearchReply::TransientError;
        },
    };
    let results = match json_get(response, "searchResult2") {
        Some(v) => v,
        None => {
            return SearchReply::NotFound;
        },
    };
    let songs = match json_get(results, "song") {
        Some(v) => v,
        None => {
            return SearchReply::NotFound;
        },
    };
    let count = match json_array_len(songs) {
        Some(n) => n,
        None => {
            return SearchReply::TransientError;
        },
    };
    if count == 0 {
        return SearchReply::NotFound;
    }
    let first = match json_at(songs, 0) {
        Some(v) => v,
        None => {
            return SearchReply::TransientError;
        },
    };
    let id = match json_get(first, "id") {
        Some(v) => match json_str(v) {
            Some(s) => s,
            None => {
                return SearchReply::TransientError;
            },
        },
        None => {
            return SearchReply::TransientError;
        },
    };
    let title = match json_get(first, "title") {
        Some(v) => match json_str(v) {
            Some(s) => s,
            None => {
                return SearchReply::TransientError;
            },
        },
        None => {
            return SearchReply::TransientError;
        },
    };
    let artist = match json_get(first, "artist") {
        Some(v) => match json_str(v) {
            Some(s) => s,
            None => {
                return SearchReply::TransientError;
            },
        },
        None => {
            return SearchReply::TransientError;
        },
    };
    SearchReply::Found((SubsonicTrack { id, title, artist }).candidate())
}

/// The result owed for a playlist-creation response body: the call
/// succeeded iff the response's status field is `ok`; a well-formed non-ok
/// status is a refusal; a body that does not follow the schema is a schema
/// error.
pub open spec fn spec_create_reply(body: Seq<char>, r: Result<(), PlatformError>) -> bool {
    match parsed_json(body) {
        None => r == Err::<(), PlatformError>(PlatformError::BadSchema),
        Some(doc) => match member_of(doc, "subsonic-response"@) {
            None => r == Err::<(), PlatformError>(PlatformError::BadSchema),
            Some(resp) => match member_text(resp, "status"@) {
                None => r == Err::<(), PlatformError>(PlatformError::BadSchema),
                Some(status) => if status == "ok"@ {
                    r is Ok
                } else {
                    r == Err::<(), PlatformError>(PlatformError::Refused)
                },
            },
        },
    }
}

/// Interpret a playlist-creation response body, as `spec_create_reply`
/// states.
pub fn interpret_create(body: &str) -> (r: Result<(), PlatformError>)
    ensures
        spec_create_reply(body@, r),
{
    let parsed = match json_parse(body) {
        Ok(v) => v,
        Err(_) => {
            return Err(PlatformError::BadSchema);
        },
    };
    let response = match json_get(&parsed, "subsonic-response") {
        Some(v) => v,
        None => {
            return Err(PlatformError::BadSchema);
        },
    };
    let status = match json_get(response, "status") {
        Some(v) => match json_str(v) {
            Some(s) => s,
            None => {
                return Err(PlatformError::BadSchema);
            },
        },
        None => {
            return Err(PlatformError::BadSchema);
        },
    };
    let ok_status = String::from_str("ok");
    if status == ok_status {
        Ok(())
    } else {
        Err(PlatformError::Refused)
    }
}

} // verus!
