use playlist_sync::json::{parse, Json};
use playlist_sync::track::{
    checked_leftover, load_tracks, not_found_text, same_tracks, tracks_from_json, tracks_to_json,
    Leftover, LoadError, Track,
};

fn track(artist: &str, title: &str) -> Track {
    Track { artist: artist.to_string(), title: title.to_string() }
}

#[test]
fn load_keeps_file_order() {
    let text = "[{\"artist\":\"A\",\"title\":\"T1\"},{\"title\":\"T2\",\"artist\":\"B\"}]";
    assert_eq!(load_tracks(text), Ok(vec![track("A", "T1"), track("B", "T2")]));
}

#[test]
fn load_accepts_empty_list() {
    assert_eq!(load_tracks("[]"), Ok(vec![]));
}

#[test]
fn load_rejects_text_that_is_not_json() {
    assert_eq!(load_tracks("[{\"artist\":"), Err(LoadError::NotJson));
    assert_eq!(load_tracks(""), Err(LoadError::NotJson));
}

#[test]
fn load_rejects_missing_field() {
    assert_eq!(load_tracks("[{\"artist\":\"A\"}]"), Err(LoadError::WrongShape));
}

#[test]
fn load_rejects_extra_field() {
    let text = "[{\"artist\":\"A\",\"title\":\"T\",\"year\":\"1999\"}]";
    assert_eq!(load_tracks(text), Err(LoadError::WrongShape));
}

#[test]
fn load_rejects_mistyped_field() {
    assert_eq!(load_tracks("[{\"artist\":\"A\",\"title\":7}]"), Err(LoadError::WrongShape));
    assert_eq!(load_tracks("[{\"artist\":null,\"title\":\"T\"}]"), Err(LoadError::WrongShape));
}

#[test]
fn load_rejects_document_that_is_no_array() {
    assert_eq!(load_tracks("{\"artist\":\"A\",\"title\":\"T\"}"), Err(LoadError::WrongShape));
    assert_eq!(load_tracks("[[\"A\",\"T\"]]"), Err(LoadError::WrongShape));
}

#[test]
fn one_bad_item_fails_the_whole_load() {
    let text = "[{\"artist\":\"A\",\"title\":\"T1\"},{\"artist\":\"B\"}]";
    assert_eq!(load_tracks(text), Err(LoadError::WrongShape));
}

#[test]
fn track_json_has_artist_then_title() {
    let j = track("A", "T1").to_json();
    let want = Json::Object(vec![
        ("artist".to_string(), Json::Text("A".to_string())),
        ("title".to_string(), Json::Text("T1".to_string())),
    ]);
    assert_eq!(j, want);
    assert_eq!(Track::from_json(&j), Some(track("A", "T1")));
}

#[test]
fn tracks_json_round_trip() {
    let tracks = vec![track("A", "T1"), track("B", "T2"), track("A", "T1")];
    let j = tracks_to_json(&tracks);
    assert_eq!(tracks_from_json(&j), Some(tracks));
}

#[test]
fn copy_keeps_both_fields() {
    let t = track("Björk", "Jóga");
    assert_eq!(t.copy(), t);
}

#[test]
fn nothing_is_written_for_an_empty_list() {
    assert_eq!(not_found_text(&vec![]), Leftover::Nothing);
}

#[test]
fn not_found_text_is_indented_json() {
    let want = "[\n  {\n    \"artist\": \"B\",\n    \"title\": \"T2\"\n  }\n]";
    assert_eq!(not_found_text(&vec![track("B", "T2")]), Leftover::Write(want.to_string()));
}

#[test]
fn written_list_loads_again() {
    let tracks = vec![
        track("Sigur Rós", "Hoppípolla"),
        track("a \"quoted\" artist", "back\\slash\nnewline"),
        track("", ""),
        track("artist:x", "track:y"),
    ];
    match not_found_text(&tracks) {
        Leftover::Write(text) => {
            assert_eq!(parse(&text).and_then(|j| tracks_from_json(&j)), Some(tracks.iter().map(|t| t.copy()).collect()));
            assert_eq!(load_tracks(&text), Ok(tracks));
        }
        other => panic!("no text: {:?}", other),
    }
}

#[test]
fn leftover_is_checked_against_the_tracks() {
    let tracks = vec![track("B", "T2")];
    let compact = "[{\"artist\":\"B\",\"title\":\"T2\"}]".to_string();
    assert_eq!(checked_leftover(&tracks, Some(compact.clone())), Leftover::Write(compact.clone()));
    assert_eq!(checked_leftover(&tracks, None), Leftover::Failed);
    let other = "[{\"artist\":\"B\",\"title\":\"T3\"}]".to_string();
    assert_eq!(checked_leftover(&tracks, Some(other)), Leftover::Failed);
    assert_eq!(checked_leftover(&tracks, Some("[]".to_string())), Leftover::Failed);
    assert_eq!(checked_leftover(&tracks, Some("oops".to_string())), Leftover::Failed);
    assert_eq!(checked_leftover(&vec![], Some(compact)), Leftover::Nothing);
    assert_eq!(checked_leftover(&vec![], None), Leftover::Nothing);
}

#[test]
fn same_tracks_compares_in_order() {
    let a = vec![track("A", "1"), track("B", "2")];
    assert!(same_tracks(&a, &vec![track("A", "1"), track("B", "2")]));
    assert!(!same_tracks(&a, &vec![track("B", "2"), track("A", "1")]));
    assert!(!same_tracks(&a, &vec![track("A", "1")]));
    assert!(!same_tracks(&a, &vec![track("A", "1"), track("B", "3")]));
    assert!(same_tracks(&vec![], &vec![]));
}
