use mbzlists_resolvers::matching::Candidate;
use mbzlists_resolvers::mbzlists::{api_url_for_view, view_api_url, Track};
use mbzlists_resolvers::platform::subsonic::SubsonicClient;
use mbzlists_resolvers::platform::{spotify, youtube};
use mbzlists_resolvers::view::{generate_page, PlCreatePageTemplate, PlCreatedPageTemplate};

fn client() -> SubsonicClient {
    SubsonicClient::new(
        String::from("https://music.example/rest"),
        String::from("alice"),
        String::from("p%40ss"),
    )
}

fn candidate(id: &str) -> Candidate {
    Candidate {
        external_id: String::from(id),
        title: String::from("t"),
        primary_artist: String::from("a"),
    }
}

#[test]
fn subsonic_request_url_carries_credentials_and_params() {
    let url = client().request_url("/ping", "x=1");
    assert_eq!(
        url,
        "https://music.example/rest/ping?u=alice&p=p%40ss&v=1.12.0&c=mbzlists-resolvers&f=json&x=1"
    );
}

#[test]
fn subsonic_search_url_encodes_the_free_text_query() {
    let track = Track {
        title: String::from("Hey Jude"),
        creator: String::from("The Beatles"),
    };
    let url = client().search_url(&track);
    assert_eq!(
        url,
        "https://music.example/rest/search2?u=alice&p=p%40ss&v=1.12.0&c=mbzlists-resolvers&f=json&query=Hey%20Jude%20The%20Beatles"
    );
}

#[test]
fn subsonic_create_url_names_every_song() {
    let url = client().create_url("My List", &vec![candidate("1"), candidate("2")]);
    assert_eq!(
        url,
        "https://music.example/rest/createPlaylist?u=alice&p=p%40ss&v=1.12.0&c=mbzlists-resolvers&f=json&name=My%20List&songId=1&songId=2"
    );
}

#[test]
fn subsonic_create_url_with_no_songs() {
    let url = client().create_url("Empty", &vec![]);
    assert_eq!(
        url,
        "https://music.example/rest/createPlaylist?u=alice&p=p%40ss&v=1.12.0&c=mbzlists-resolvers&f=json&name=Empty&"
    );
}

#[test]
fn spotify_search_url_uses_the_artist_filter() {
    let track = Track {
        title: String::from("Yesterday"),
        creator: String::from("The Beatles"),
    };
    assert_eq!(
        spotify::search_url(&track),
        "https://api.spotify.com/v1/search?q=Yesterday%20artist%3AThe%20Beatles&type=track"
    );
}

#[test]
fn spotify_create_playlist_request_is_exact() {
    assert_eq!(
        spotify::create_playlist_url("user9"),
        "https://api.spotify.com/v1/users/user9/playlists"
    );
    let body = spotify::create_playlist_body("My List").expect("a payload");
    assert_eq!(
        body,
        "{\"name\":\"My List\",\"public\":false,\"description\":\"Imported from mbzlists\"}"
    );
}

#[test]
fn spotify_create_playlist_body_escapes_the_name() {
    let body = spotify::create_playlist_body("A \"B\"").expect("a payload");
    assert_eq!(
        body,
        "{\"name\":\"A \\\"B\\\"\",\"public\":false,\"description\":\"Imported from mbzlists\"}"
    );
}

#[test]
fn spotify_add_tracks_request_is_exact() {
    assert_eq!(
        spotify::add_tracks_url("pl1"),
        "https://api.spotify.com/v1/playlists/pl1/tracks"
    );
    let body = spotify::add_tracks_body(&vec![candidate("a"), candidate("b")]).expect("a payload");
    assert_eq!(
        body,
        "{\"uris\":[\"spotify:track:a\",\"spotify:track:b\"]}"
    );
    let empty = spotify::add_tracks_body(&vec![]).expect("a payload");
    assert_eq!(empty, "{\"uris\":[]}");
}

#[test]
fn spotify_token_request_uses_basic_authorization() {
    let request = spotify::token_request("id", "client-secret-value", "https://cb.example/x", "code9");
    assert_eq!(request.url, "https://accounts.spotify.com/api/token");
    let header = request.auth_header.expect("a basic authorization header");
    assert!(header.starts_with("Basic "));
    let expected = format!("Basic {}", base64::encode("id:client-secret-value"));
    assert_eq!(header, expected);
    assert_eq!(request.params.len(), 3);
    assert_eq!(request.params[0].0, "grant_type");
    assert_eq!(request.params[0].1, "authorization_code");
    assert_eq!(request.params[1].0, "code");
    assert_eq!(request.params[1].1, "code9");
    assert_eq!(request.params[2].0, "redirect_uri");
    assert_eq!(request.params[2].1, "https://cb.example/x");
}

#[test]
fn spotify_basic_authorization_is_base64_of_the_credentials() {
    let request = spotify::token_request("id", "secret", "https://cb.example/x", "c");
    assert_eq!(request.auth_header.as_deref(), Some("Basic aWQ6c2VjcmV0"));
}

#[test]
fn spotify_authorize_url_is_exact() {
    assert_eq!(
        spotify::authorize_url("cid", "https://cb.example/x"),
        "https://accounts.spotify.com/authorize?client_id=cid&response_type=code&redirect_uri=https%3A%2F%2Fcb.example%2Fx&scope=playlist-modify-private%20playlist-modify-public"
    );
}

#[test]
fn youtube_authorize_url_is_exact() {
    assert_eq!(
        youtube::authorize_url("cid", "https://cb.example/y"),
        "https://accounts.google.com/o/oauth2/auth?client_id=cid&response_type=code&redirect_uri=https%3A%2F%2Fcb.example%2Fy&scope=https%3A%2F%2Fwww.googleapis.com%2Fauth%2Fyoutube&access_type=offline&prompt=consent"
    );
}

#[test]
fn youtube_search_url_encodes_the_query() {
    let track = Track {
        title: String::from("Hey Jude"),
        creator: String::from("The Beatles"),
    };
    assert_eq!(
        youtube::search_url(&track),
        "https://www.googleapis.com/youtube/v3/search?part=snippet&type=video&q=Hey%20Jude%20The%20Beatles"
    );
}

#[test]
fn youtube_creation_requests_are_exact() {
    assert_eq!(
        youtube::create_playlist_url(),
        "https://www.googleapis.com/youtube/v3/playlists?part=snippet,status"
    );
    let body = youtube::create_playlist_body("My List").expect("a payload");
    assert_eq!(
        body,
        "{\"snippet\":{\"title\":\"My List\",\"description\":\"Imported from mbzlists\"},\"status\":{\"privacyStatus\":\"private\"}}"
    );
    assert_eq!(
        youtube::add_video_url(),
        "https://www.googleapis.com/youtube/v3/playlistItems?part=snippet"
    );
    let add = youtube::add_video_body("pl", "vid").expect("a payload");
    assert_eq!(
        add,
        "{\"snippet\":{\"playlistId\":\"pl\",\"resourceId\":{\"kind\":\"youtube#video\",\"videoId\":\"vid\"}}}"
    );
}

#[test]
fn youtube_playlist_page_url_is_exact() {
    assert_eq!(
        youtube::playlist_page_url("pl7"),
        "https://www.youtube.com/playlist?list=pl7"
    );
}

#[test]
fn youtube_token_request_carries_the_grant_parameters() {
    let request = youtube::token_request("cid", "client-secret-value", "https://cb.example/y", "code9");
    assert_eq!(request.url, "https://oauth2.googleapis.com/token");
    assert!(request.auth_header.is_none());
    let expected = vec![
        ("code", "code9"),
        ("client_id", "cid"),
        ("client_secret", "client-secret-value"),
        ("redirect_uri", "https://cb.example/y"),
        ("grant_type", "authorization_code"),
    ];
    assert_eq!(request.params.len(), expected.len());
    for (pair, (key, value)) in request.params.iter().zip(expected) {
        assert_eq!(pair.0, key);
        assert_eq!(pair.1, value);
    }
}

#[test]
fn api_url_uses_the_given_host_or_the_default() {
    assert_eq!(
        api_url_for_view(Some("example.org"), "v123"),
        "https://example.org/api/list/v123?type=xspf"
    );
    assert_eq!(
        api_url_for_view(None, "v123"),
        "https://mbzlists.com/api/list/v123?type=xspf"
    );
}

#[test]
fn view_api_url_takes_the_last_path_segment() {
    let url = view_api_url("https://mbzlists.com/view/abc123").expect("an API URL");
    assert_eq!(url, "https://mbzlists.com/api/list/abc123?type=xspf");
}

#[test]
fn view_api_url_rejects_a_malformed_url() {
    assert!(view_api_url("not a url").is_err());
}

#[test]
fn generated_page_wraps_the_body() {
    let page = generate_page("<p>Hi</p>");
    assert!(page.starts_with("<!DOCTYPE html>"));
    assert!(page.contains("<body>\n  <p>Hi</p>\n</body>"));
    assert!(page.ends_with("</html>"));
}

#[test]
fn create_page_names_the_platform() {
    let body = PlCreatePageTemplate {
        app_name: "Spotify",
        app_slug: "spotify",
    }
    .render();
    assert!(body.contains("Export to Spotify"));
    assert!(body.contains("action=\"/spotify/create\""));
    assert!(body.contains("name=\"mbzlists_url\""));
}

#[test]
fn created_page_links_the_playlist() {
    let body = PlCreatedPageTemplate {
        app_name: "YouTube",
        playlist_url: "https://www.youtube.com/playlist?list=pl7",
    }
    .render();
    assert!(body.contains("YouTube playlist created"));
    assert!(body.contains("href=\"https://www.youtube.com/playlist?list=pl7\""));
}
