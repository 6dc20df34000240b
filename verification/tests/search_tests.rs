use playlist_sync::json::parse;
use playlist_sync::playlist::{append_request, post_request, uris_body, AppendError};
use playlist_sync::request::{pair, Body, Method};
use playlist_sync::search::{
    bearer, first_match, match_from_response, search_query, search_request, SearchError,
};

#[test]
fn query_takes_artist_and_title_verbatim() {
    assert_eq!(search_query("A", "T1"), "artist:A track:T1");
    assert_eq!(search_query("track:x", "a b:c"), "artist:track:x track:a b:c");
    assert_eq!(search_query("", ""), "artist: track:");
}

#[test]
fn bearer_presents_the_token() {
    assert_eq!(bearer("AT"), "Bearer AT");
}

#[test]
fn search_request_asks_for_one_track() {
    let req = search_request("AT", "A", "T1");
    assert_eq!(req.method, Method::Get);
    assert_eq!(req.url, "https://api.spotify.com/v1/search");
    assert_eq!(req.authorization, "Bearer AT");
    assert_eq!(
        req.query,
        vec![pair("q", "artist:A track:T1"), pair("type", "track"), pair("limit", "1")]
    );
    assert_eq!(req.body, Body::Empty);
}

#[test]
fn first_hit_is_the_match_however_many_follow() {
    let one = "{\"tracks\":{\"items\":[{\"uri\":\"spotify:track:111\"}]}}";
    assert_eq!(match_from_response(200, one), Ok(Some("spotify:track:111".to_string())));
    let three = "{\"tracks\":{\"items\":[{\"uri\":\"u1\",\"name\":\"x\"},{\"uri\":\"u2\"},{\"uri\":\"u3\"}],\"total\":3}}";
    assert_eq!(match_from_response(200, three), Ok(Some("u1".to_string())));
}

#[test]
fn no_hit_is_no_match_and_no_error() {
    let body = "{\"tracks\":{\"items\":[]}}";
    assert_eq!(match_from_response(200, body), Ok(None));
    assert_eq!(first_match(&parse(body).unwrap()), Ok(None));
}

#[test]
fn search_reply_of_wrong_shape_is_an_error() {
    assert_eq!(match_from_response(200, "{}"), Err(SearchError::Malformed));
    assert_eq!(match_from_response(200, "{\"tracks\":{}}"), Err(SearchError::Malformed));
    assert_eq!(match_from_response(200, "{\"tracks\":{\"items\":{}}}"), Err(SearchError::Malformed));
    assert_eq!(
        match_from_response(200, "{\"tracks\":{\"items\":[{\"id\":\"1\"}]}}"),
        Err(SearchError::Malformed)
    );
    assert_eq!(
        match_from_response(200, "{\"tracks\":{\"items\":[{\"uri\":\"u1\"},{\"uri\":5}]}}"),
        Err(SearchError::Malformed)
    );
    assert_eq!(match_from_response(200, "<html>"), Err(SearchError::Malformed));
}

#[test]
fn search_reply_with_bad_status_is_an_error() {
    let body = "{\"tracks\":{\"items\":[{\"uri\":\"u1\"}]}}";
    assert_eq!(match_from_response(401, body), Err(SearchError::Status(401)));
    assert_eq!(match_from_response(500, body), Err(SearchError::Status(500)));
}

#[test]
fn append_request_names_the_one_track() {
    let req = append_request("AT", "PL1", "spotify:track:111").unwrap();
    assert_eq!(req.method, Method::Post);
    assert_eq!(req.url, "https://api.spotify.com/v1/playlists/PL1/tracks");
    assert_eq!(req.authorization, "Bearer AT");
    assert!(req.query.is_empty());
    assert_eq!(req.body, Body::Json("{\"uris\":[\"spotify:track:111\"]}".to_string()));
}

#[test]
fn append_body_escapes_the_identifier() {
    let req = append_request("AT", "PL1", "a\"b").unwrap();
    assert_eq!(req.body, Body::Json("{\"uris\":[\"a\\\"b\"]}".to_string()));
    assert_eq!(parse("{\"uris\":[\"a\\\"b\"]}"), Some(uris_body("a\"b")));
}

#[test]
fn post_request_carries_the_body_it_was_given() {
    let req = post_request("AT", "PL1", Some("{}".to_string())).unwrap();
    assert_eq!(req.method, Method::Post);
    assert_eq!(req.url, "https://api.spotify.com/v1/playlists/PL1/tracks");
    assert_eq!(req.authorization, "Bearer AT");
    assert_eq!(req.body, Body::Json("{}".to_string()));
    assert_eq!(post_request("AT", "PL1", None), Err(AppendError::Encoding));
}
