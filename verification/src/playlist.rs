//! The request that appends one track to a playlist.

use crate::json::{json_text, render, Json, JsonModel};
use crate::request::{pairs, Body, BodyModel, Method, Request, RequestModel};
use crate::search::{bearer, bearer_header};
use vstd::prelude::*;

verus! {

/// Why a track could not be appended.
#[derive(Debug, PartialEq, Eq, Clone, Copy)]
pub enum AppendError {
    /// The body of the request could not be written as JSON.
    Encoding,
    /// The request could not be sent or no reply came.
    Transport,
}

/// The document that names the one track to append: an object whose member
/// `uris` is an array of that track's identifier.
pub open spec fn uris_doc(track_uri: Seq<char>) -> JsonModel {
    JsonModel::Object(seq![("uris"@, JsonModel::Array(seq![JsonModel::Text(track_uri)]))])
}

/// The address of a playlist's collection of tracks.
pub open spec fn tracks_url(playlist_id: Seq<char>) -> Seq<char> {
    "https://api.spotify.com/v1/playlists/"@ + playlist_id + "/tracks"@
}

/// The request that posts a JSON body to a playlist's collection of tracks.
pub open spec fn post_model(
    access_token: Seq<char>,
    playlist_id: Seq<char>,
    body: Seq<char>,
) -> RequestModel {
    RequestModel {
        method: Method::Post,
        url: tracks_url(playlist_id),
        authorization: bearer_header(access_token),
        query: Seq::empty(),
        body: BodyModel::Json(body),
    }
}

/// The request that appends one track to a playlist, where the body that
/// names the track can be written.
pub open spec fn append_request_model(
    access_token: Seq<char>,
    playlist_id: Seq<char>,
    track_uri: Seq<char>,
) -> RequestModel {
    post_model(access_token, playlist_id, json_text(uris_doc(track_uri)).unwrap())
}

/// Builds the request that posts a JSON body to a playlist's collection of
/// tracks; without a body there is no request.
pub fn post_request(access_token: &str, playlist_id: &str, body: Option<String>) -> (r: Result<
    Request,
    AppendError,
>)
    ensures
        match body {
            Some(text) => r is Ok && r->Ok_0@ == post_model(access_token@, playlist_id@, text@),
            None => r == Err::<Request, AppendError>(AppendError::Encoding),
        },
{
    let body = match body {
        Some(text) => text,
        None => {
            return Err(AppendError::Encoding);
        },
    };
    let req = Request {
        method: Method::Post,
        url: "https://api.spotify.com/v1/playlists/".to_owned().concat(playlist_id).concat(
            "/tracks",
        ),
        authorization: bearer(access_token),
        query: Vec::new(),
        body: Body::Json(body),
    };
    proof {
        assert(pairs(req.query@) =~= Seq::empty());
    }
    Ok(req)
}

/// Builds the document that names the one track to append.
pub fn uris_body(track_uri: &str) -> (j: Json)
    ensures
        j@ == uris_doc(track_uri@),
        j@.storable(),
{
    let mut uris: Vec<Json> = Vec::new();
    uris.push(Json::Text(track_uri.to_owned()));
    let mut members: Vec<(String, Json)> = Vec::new();
    members.push(("uris".to_owned(), Json::Array(uris)));
    let j = Json::Object(members);
    proof {
        reveal_with_fuel(Json::model, 3);
        reveal_with_fuel(JsonModel::storable, 3);
        let inner = seq![JsonModel::Text(track_uri@)];
        assert(members@[0].1@->Array_0 =~= inner);
        assert(j@->Object_0 =~= uris_doc(track_uri@)->Object_0);
        assert(inner[0].storable());
        assert(JsonModel::Array(inner).storable());
    }
    j
}

/// Builds the request that appends one track to a playlist: a POST to the
/// playlist's collection of tracks whose JSON body names the track. The
/// error is `Encoding`, and comes exactly where the body cannot be written.
pub fn append_request(access_token: &str, playlist_id: &str, track_uri: &str) -> (r: Result<
    Request,
    AppendError,
>)
    ensures
        match r {
            Ok(req) => json_text(uris_doc(track_uri@)).is_some() && req@ == append_request_model(
                access_token@,
                playlist_id@,
                track_uri@,
            ),
            Err(e) => json_text(uris_doc(track_uri@)).is_none() && e == AppendError::Encoding,
        },
{
    let doc = uris_body(track_uri);
    let body = render(&doc);
    post_request(access_token, playlist_id, body)
}

} // verus!
