//! The catalog search for one track.

use crate::json::{json_reading, parse, Json, JsonModel};
use crate::request::{is_success, pair, pairs, status_ok};
use crate::request::{Body, BodyModel, Method, Request, RequestModel};
use vstd::prelude::*;

verus! {

/// Why a search failed. That the catalog holds no match is no failure.
#[derive(Debug, PartialEq, Eq, Clone, Copy)]
pub enum SearchError {
    /// The request could not be sent or no reply came.
    Transport,
    /// The catalog answered with a status outside 200 to 299.
    Status(u16),
    /// The reply is not a JSON document of the expected shape.
    Malformed,
}

/// The value of the `Authorization` header that presents an access token.
pub open spec fn bearer_header(access_token: Seq<char>) -> Seq<char> {
    "Bearer "@ + access_token
}

/// Builds the `Authorization` header value that presents an access token.
pub fn bearer(access_token: &str) -> (r: String)
    ensures
        r@ == bearer_header(access_token@),
{
    "Bearer ".to_owned().concat(access_token)
}

/// The search expression for an artist and a title, both taken verbatim.
pub open spec fn query_text(artist: Seq<char>, title: Seq<char>) -> Seq<char> {
    "artist:"@ + artist + " track:"@ + title
}

/// Builds the search expression for an artist and a title. Neither is
/// escaped.
pub fn search_query(artist: &str, title: &str) -> (r: String)
    ensures
        r@ == query_text(artist@, title@),
{
    "artist:".to_owned().concat(artist).concat(" track:").concat(title)
}

/// The request that searches the catalog for one track.
pub open spec fn search_request_model(
    access_token: Seq<char>,
    artist: Seq<char>,
    title: Seq<char>,
) -> RequestModel {
    RequestModel {
        method: Method::Get,
        url: "https://api.spotify.com/v1/search"@,
        authorization: bearer_header(access_token),
        query: seq![("q"@, query_text(artist, title)), ("type"@, "track"@), ("limit"@, "1"@)],
        body: BodyModel::Empty,
    }
}

/// Builds the search for one track: a GET that asks for at most one track
/// by artist and title.
pub fn search_request(access_token: &str, artist: &str, title: &str) -> (r: Request)
    ensures
        r@ == search_request_model(access_token@, artist@, title@),
{
    let expression = search_query(artist, title);
    let mut query: Vec<(String, String)> = Vec::new();
    query.push(pair("q", expression.as_str()));
    query.push(pair("type", "track"));
    query.push(pair("limit", "1"));
    let req = Request {
        method: Method::Get,
        url: "https://api.spotify.com/v1/search".to_owned(),
        authorization: bearer(access_token),
        query,
        body: Body::Empty,
    };
    proof {
        assert(pairs(req.query@) =~= search_request_model(access_token@, artist@, title@).query);
    }
    req
}

/// The identifier of a search hit: its string member `uri`.
pub open spec fn item_uri(item: JsonModel) -> Option<Seq<char>> {
    match item.get("uri"@) {
        Some(JsonModel::Text(u)) => Some(u),
        _ => None,
    }
}

/// The hits of a search reply: the array `items` of its member `tracks`.
pub open spec fn catalog_items(doc: JsonModel) -> Option<Seq<JsonModel>> {
    match doc.get("tracks"@) {
        Some(tracks) => match tracks.get("items"@) {
            Some(JsonModel::Array(items)) => Some(items),
            _ => None,
        },
        None => None,
    }
}

/// Whether a document has the shape of a search reply: it holds the hits,
/// and every hit has an identifier.
pub open spec fn well_shaped(doc: JsonModel) -> bool {
    match catalog_items(doc) {
        Some(items) => forall|i: int| 0 <= i < items.len() ==> item_uri(#[trigger] items[i]).is_some(),
        None => false,
    }
}

/// The match that a search reply document reports: the identifier of its
/// first hit, or none where it has no hits.
pub open spec fn doc_match(doc: JsonModel) -> Result<Option<Seq<char>>, SearchError> {
    if !well_shaped(doc) {
        Err(SearchError::Malformed)
    } else if catalog_items(doc).unwrap().len() == 0 {
        Ok(None)
    } else {
        Ok(item_uri(catalog_items(doc).unwrap()[0]))
    }
}

/// What a reply of the search endpoint means.
pub open spec fn reply_match(status: u16, body: Seq<char>) -> Result<
    Option<Seq<char>>,
    SearchError,
> {
    if !is_success(status) {
        Err(SearchError::Status(status))
    } else {
        match json_reading(body) {
            None => Err(SearchError::Malformed),
            Some(d) => doc_match(d),
        }
    }
}

/// The value of what a search returns.
pub open spec fn match_view(r: Result<Option<String>, SearchError>) -> Result<
    Option<Seq<char>>,
    SearchError,
> {
    match r {
        Ok(Some(uri)) => Ok(Some(uri@)),
        Ok(None) => Ok(None),
        Err(e) => Err(e),
    }
}

/// A well-shaped reply with at least one hit reports the identifier of its
/// first hit, however many hits follow.
pub proof fn lemma_first_hit_is_match(doc: JsonModel)
    requires
        well_shaped(doc),
        catalog_items(doc).unwrap().len() > 0,
    ensures
        item_uri(catalog_items(doc).unwrap()[0]).is_some(),
        doc_match(doc) == Ok::<Option<Seq<char>>, SearchError>(
            Some(item_uri(catalog_items(doc).unwrap()[0]).unwrap()),
        ),
{
}

/// A well-shaped reply without hits reports no match, and that is no error.
pub proof fn lemma_no_hit_is_no_match(doc: JsonModel)
    requires
        well_shaped(doc),
        catalog_items(doc).unwrap().len() == 0,
    ensures
        doc_match(doc) == Ok::<Option<Seq<char>>, SearchError>(None),
{
}

/// Reads the identifier of one search hit.
fn uri_of(item: &Json) -> (r: Option<&String>)
    ensures
        match r {
            Some(u) => item_uri(item@) == Some(u@),
            None => item_uri(item@).is_none(),
        },
{
    match item.get("uri") {
        Some(u) => u.text(),
        None => None,
    }
}

/// Finds the match in a search reply document: the identifier of the first
/// hit, or none where there are no hits.
pub fn first_match(doc: &Json) -> (r: Result<Option<String>, SearchError>)
    ensures
        match_view(r) == doc_match(doc@),
{
    let items = match doc.get("tracks") {
        Some(tracks) => match tracks.get("items") {
            Some(list) => list.items(),
            None => None,
        },
        None => None,
    };
    let items = match items {
        Some(v) => v,
        None => {
            return Err(SearchError::Malformed);
        },
    };
    let ghost docs = catalog_items(doc@).unwrap();
    assert(docs == Seq::new(items@.len(), |k: int| items@[k]@));
    let mut i: usize = 0;
    while i < items.len()
        invariant
            i <= items@.len(),
            catalog_items(doc@) == Some(docs),
            docs == Seq::new(items@.len(), |k: int| items@[k]@),
            forall|k: int| 0 <= k < i ==> item_uri(#[trigger] docs[k]).is_some(),
        decreases items@.len() - i,
    {
        if uri_of(&items[i]).is_none() {
            assert(item_uri(docs[i as int]).is_none());
            return Err(SearchError::Malformed);
        }
        i += 1;
    }
    if items.len() == 0 {
        return Ok(None);
    }
    match uri_of(&items[0]) {
        Some(u) => Ok(Some(u.clone())),
        None => Err(SearchError::Malformed),
    }
}

/// Reads the reply of the search endpoint: the identifier of the first hit,
/// none where the catalog has no hit, or the error.
pub fn match_from_response(status: u16, body: &str) -> (r: Result<Option<String>, SearchError>)
    ensures
        match_view(r) == reply_match(status, body@),
{
    if !status_ok(status) {
        return Err(SearchError::Status(status));
    }
    match parse(body) {
        None => Err(SearchError::Malformed),
        Some(doc) => first_match(&doc),
    }
}

} // verus!
