//! Requested tracks and the JSON lists that hold them.

use crate::json::{json_pretty_text, json_reading, member, parse, render_pretty, text_before};
use crate::json::{Json, JsonModel};
use vstd::prelude::*;

verus! {

/// A requested track as a mathematical value.
pub struct TrackModel {
    pub artist: Seq<char>,
    pub title: Seq<char>,
}

/// One requested track: an artist and a title.
#[derive(Debug, PartialEq, Eq)]
pub struct Track {
    pub artist: String,
    pub title: String,
}

impl View for Track {
    type V = TrackModel;

    open spec fn view(&self) -> TrackModel {
        TrackModel { artist: self.artist@, title: self.title@ }
    }
}

/// The values of a sequence of tracks, in order.
pub open spec fn models(tracks: Seq<Track>) -> Seq<TrackModel> {
    Seq::new(tracks.len(), |i: int| tracks[i]@)
}

/// The JSON object that stands for one track.
pub open spec fn track_doc(t: TrackModel) -> JsonModel {
    JsonModel::Object(
        seq![("artist"@, JsonModel::Text(t.artist)), ("title"@, JsonModel::Text(t.title))],
    )
}

/// The JSON array that stands for a list of tracks.
pub open spec fn tracks_doc(ts: Seq<TrackModel>) -> JsonModel {
    JsonModel::Array(Seq::new(ts.len(), |i: int| track_doc(ts[i])))
}

/// The track that a JSON document stands for: an object of exactly two
/// members, `artist` and `title`, both of them strings.
pub open spec fn doc_track(d: JsonModel) -> Option<TrackModel> {
    match d {
        JsonModel::Object(members) => {
            if members.len() == 2 {
                match (member(members, "artist"@), member(members, "title"@)) {
                    (Some(JsonModel::Text(a)), Some(JsonModel::Text(t))) => Some(
                        TrackModel { artist: a, title: t },
                    ),
                    _ => None,
                }
            } else {
                None
            }
        },
        _ => None,
    }
}

/// The list of tracks that a JSON document stands for: an array whose items
/// all stand for tracks.
pub open spec fn doc_tracks(d: JsonModel) -> Option<Seq<TrackModel>> {
    match d {
        JsonModel::Array(items) => {
            if forall|i: int| 0 <= i < items.len() ==> doc_track(#[trigger] items[i]).is_some() {
                Some(Seq::new(items.len(), |i: int| doc_track(items[i]).unwrap()))
            } else {
                None
            }
        },
        _ => None,
    }
}

/// Why a list of tracks could not be loaded.
#[derive(Debug, PartialEq, Eq, Clone, Copy)]
pub enum LoadError {
    /// The input could not be read at all.
    Unreadable,
    /// The input is not a JSON document.
    NotJson,
    /// The input is JSON, but not an array of objects that hold exactly an
    /// artist and a title string.
    WrongShape,
}

/// What a text holds when it is loaded as a list of tracks.
pub open spec fn loaded(text: Seq<char>) -> Result<Seq<TrackModel>, LoadError> {
    match json_reading(text) {
        None => Err(LoadError::NotJson),
        Some(d) => match doc_tracks(d) {
            None => Err(LoadError::WrongShape),
            Some(ts) => Ok(ts),
        },
    }
}

/// The names `artist` and `title` differ, and the first sorts before the
/// second.
pub proof fn lemma_field_names()
    ensures
        "artist"@ != "title"@,
        text_before("artist"@, "title"@),
{
    reveal_strlit("artist");
    reveal_strlit("title");
    assert("artist"@.len() == 6 && "title"@.len() == 5);
    assert("artist"@[0] == 'a' && "title"@[0] == 't');
}

/// A track's JSON object stands for that track again.
pub proof fn lemma_track_round_trip(t: TrackModel)
    ensures
        doc_track(track_doc(t)) == Some(t),
        track_doc(t).storable(),
{
    reveal_with_fuel(JsonModel::storable, 2);
    lemma_field_names();
    let members = track_doc(t)->Object_0;
    assert(members.len() == 2);
    assert(members[0] == ("artist"@, JsonModel::Text(t.artist)));
    assert(members[1] == ("title"@, JsonModel::Text(t.title)));
    assert(members.drop_first() =~= seq![("title"@, JsonModel::Text(t.title))]);
    assert(member(members, "artist"@) == Some(JsonModel::Text(t.artist)));
    assert(member(members.drop_first(), "title"@) == Some(JsonModel::Text(t.title)));
    assert(member(members, "title"@) == Some(JsonModel::Text(t.title)));
}

/// Writing a list of tracks as a JSON array and reading that array back
/// gives the same tracks, in the same order.
pub proof fn lemma_tracks_round_trip(ts: Seq<TrackModel>)
    ensures
        doc_tracks(tracks_doc(ts)) == Some(ts),
        tracks_doc(ts).storable(),
{
    let items = tracks_doc(ts)->Array_0;
    assert forall|i: int| 0 <= i < items.len() implies doc_track(#[trigger] items[i]) == Some(
        ts[i],
    ) && items[i].storable() by {
        lemma_track_round_trip(ts[i]);
    }
    assert(Seq::new(items.len(), |i: int| doc_track(items[i]).unwrap()) =~= ts);
}

impl Track {
    /// A track of the same artist and title.
    pub fn copy(&self) -> (r: Track)
        ensures
            r@ == self@,
    {
        Track { artist: self.artist.clone(), title: self.title.clone() }
    }

    /// The JSON object that stands for the track.
    pub fn to_json(&self) -> (j: Json)
        ensures
            j@ == track_doc(self@),
    {
        let mut members: Vec<(String, Json)> = Vec::new();
        members.push(("artist".to_owned(), Json::Text(self.artist.clone())));
        members.push(("title".to_owned(), Json::Text(self.title.clone())));
        let j = Json::Object(members);
        proof {
            reveal_with_fuel(Json::model, 2);
            assert(j@->Object_0 =~= track_doc(self@)->Object_0);
        }
        j
    }

    /// Reads a track from the JSON object that stands for it.
    pub fn from_json(j: &Json) -> (r: Option<Track>)
        ensures
            match r {
                Some(t) => doc_track(j@) == Some(t@),
                None => doc_track(j@).is_none(),
            },
    {
        match j {
            Json::Object(members) => {
                if members.len() != 2 {
                    return None;
                }
            },
            _ => {
                return None;
            },
        }
        let artist = match j.get("artist") {
            Some(a) => a.text(),
            None => None,
        };
        let title = match j.get("title") {
            Some(t) => t.text(),
            None => None,
        };
        match (artist, title) {
            (Some(a), Some(t)) => Some(Track { artist: a.clone(), title: t.clone() }),
            _ => None,
        }
    }
}

/// The JSON array that stands for a list of tracks.
pub fn tracks_to_json(tracks: &Vec<Track>) -> (j: Json)
    ensures
        j@ == tracks_doc(models(tracks@)),
{
    let mut items: Vec<Json> = Vec::new();
    let mut i: usize = 0;
    while i < tracks.len()
        invariant
            i <= tracks@.len(),
            items@.len() == i,
            forall|k: int| 0 <= k < i ==> (#[trigger] items@[k])@ == track_doc(tracks@[k]@),
        decreases tracks@.len() - i,
    {
        items.push(tracks[i].to_json());
        i += 1;
    }
    let j = Json::Array(items);
    assert(j@->Array_0 =~= tracks_doc(models(tracks@))->Array_0);
    j
}

/// Reads a list of tracks from the JSON array that stands for it.
pub fn tracks_from_json(j: &Json) -> (r: Option<Vec<Track>>)
    ensures
        match r {
            Some(ts) => doc_tracks(j@) == Some(models(ts@)),
            None => doc_tracks(j@).is_none(),
        },
{
    match j.items() {
        None => None,
        Some(items) => {
            let ghost docs = j@->Array_0;
            let mut tracks: Vec<Track> = Vec::new();
            let mut i: usize = 0;
            while i < items.len()
                invariant
                    i <= items@.len(),
                    tracks@.len() == i,
                    j@ == JsonModel::Array(docs),
                    docs == Seq::new(items@.len(), |k: int| items@[k]@),
                    forall|k: int| 0 <= k < i ==> doc_track(#[trigger] docs[k]) == Some(tracks@[k]@),
                decreases items@.len() - i,
            {
                match Track::from_json(&items[i]) {
                    Some(t) => {
                        tracks.push(t);
                    },
                    None => {
                        assert(doc_track(docs[i as int]).is_none());
                        return None;
                    },
                }
                i += 1;
            }
            assert(doc_tracks(j@).unwrap() =~= models(tracks@));
            Some(tracks)
        },
    }
}

/// Loads the list of requested tracks from the text of the input file, in
/// the order of the file.
pub fn load_tracks(text: &str) -> (r: Result<Vec<Track>, LoadError>)
    ensures
        match r {
            Ok(ts) => loaded(text@) == Ok::<Seq<TrackModel>, LoadError>(models(ts@)),
            Err(e) => loaded(text@) == Err::<Seq<TrackModel>, LoadError>(e),
        },
{
    match parse(text) {
        None => Err(LoadError::NotJson),
        Some(j) => match tracks_from_json(&j) {
            None => Err(LoadError::WrongShape),
            Some(ts) => Ok(ts),
        },
    }
}

/// Tells whether two lists hold the same tracks in the same order.
pub fn same_tracks(a: &Vec<Track>, b: &Vec<Track>) -> (r: bool)
    ensures
        r == (models(a@) == models(b@)),
{
    if a.len() != b.len() {
        assert(models(a@).len() != models(b@).len());
        return false;
    }
    let mut i: usize = 0;
    while i < a.len()
        invariant
            i <= a@.len(),
            a@.len() == b@.len(),
            forall|k: int| 0 <= k < i ==> a@[k]@ == b@[k]@,
        decreases a@.len() - i,
    {
        if !(a[i].artist == b[i].artist && a[i].title == b[i].title) {
            assert(models(a@)[i as int] != models(b@)[i as int]);
            return false;
        }
        i += 1;
    }
    assert(models(a@) =~= models(b@));
    true
}

/// What becomes of the tracks that found no match when the run ends.
#[derive(Debug, PartialEq, Eq)]
pub enum Leftover {
    /// Every track found a match: no file is written.
    Nothing,
    /// The text to write to the output file.
    Write(String),
    /// The list could not be written as JSON that loads again.
    Failed,
}

/// Whether `l` is what is owed for the tracks that found no match: nothing
/// where there are none; else their list as an indented JSON array, which
/// loads again as the same tracks; and a failure exactly where no such text
/// could be written.
pub open spec fn leftover_for(l: Leftover, not_found: Seq<TrackModel>) -> bool {
    match l {
        Leftover::Nothing => not_found.len() == 0,
        Leftover::Write(text) => {
            &&& not_found.len() > 0
            &&& json_pretty_text(tracks_doc(not_found)) == Some(text@)
            &&& loaded(text@) == Ok::<Seq<TrackModel>, LoadError>(not_found)
        },
        Leftover::Failed => {
            &&& not_found.len() > 0
            &&& match json_pretty_text(tracks_doc(not_found)) {
                Some(text) => loaded(text) != Ok::<Seq<TrackModel>, LoadError>(not_found),
                None => true,
            }
        },
    }
}

/// What is owed for the tracks that found no match, given the text that
/// was written for them, if any: nothing where there are none; the text
/// where it loads again as these tracks; else a failure.
pub open spec fn leftover_of(not_found: Seq<TrackModel>, rendered: Option<String>) -> Leftover {
    if not_found.len() == 0 {
        Leftover::Nothing
    } else {
        match rendered {
            Some(text) => if loaded(text@) == Ok::<Seq<TrackModel>, LoadError>(not_found) {
                Leftover::Write(text)
            } else {
                Leftover::Failed
            },
            None => Leftover::Failed,
        }
    }
}

/// Decides what becomes of the tracks that found no match, given the text
/// that was written for them: the text is handed out only where it loads
/// again and gives the same tracks.
pub fn checked_leftover(tracks: &Vec<Track>, rendered: Option<String>) -> (r: Leftover)
    ensures
        r == leftover_of(models(tracks@), rendered),
{
    if tracks.len() == 0 {
        return Leftover::Nothing;
    }
    let text = match rendered {
        Some(s) => s,
        None => {
            return Leftover::Failed;
        },
    };
    match load_tracks(text.as_str()) {
        Ok(again) => {
            if same_tracks(&again, tracks) {
                Leftover::Write(text)
            } else {
                Leftover::Failed
            }
        },
        Err(_) => Leftover::Failed,
    }
}

/// Decides what to write for the tracks that found no match: nothing for an
/// empty list, else the list as an indented JSON array. The text is handed
/// out only after it was loaded again and gave the same tracks.
pub fn not_found_text(tracks: &Vec<Track>) -> (r: Leftover)
    ensures
        leftover_for(r, models(tracks@)),
{
    if tracks.len() == 0 {
        return Leftover::Nothing;
    }
    let j = tracks_to_json(tracks);
    proof {
        lemma_tracks_round_trip(models(tracks@));
    }
    let rendered = render_pretty(&j);
    checked_leftover(tracks, rendered)
}

/// A list of tracks that was written to the output file loads again as the
/// same tracks, in the same order.
pub proof fn lemma_written_list_loads_again(l: Leftover, not_found: Seq<TrackModel>)
    requires
        leftover_for(l, not_found),
        l is Write,
    ensures
        loaded(l->Write_0@) == Ok::<Seq<TrackModel>, LoadError>(not_found),
{
}

} // verus!
