use playlist_sync::auth::{ConfigError, Setting};
use playlist_sync::request::Body;
use playlist_sync::run::{added_message, not_found_message, Action, Event, Phase, Run, RunError, Step};
use playlist_sync::search::{search_request, SearchError};
use playlist_sync::track::{load_tracks, Leftover, Track};

fn track(artist: &str, title: &str) -> Track {
    Track { artist: artist.to_string(), title: title.to_string() }
}

fn reply(body: &str, playlist: Option<&str>) -> Event {
    Event::SearchReply {
        status: 200,
        body: body.to_string(),
        playlist_id: playlist.map(|p| p.to_string()),
    }
}

const HIT: &str = "{\"tracks\":{\"items\":[{\"uri\":\"spotify:track:111\"},{\"uri\":\"spotify:track:222\"}]}}";
const MISS: &str = "{\"tracks\":{\"items\":[]}}";

#[test]
fn one_track_added_and_one_not_found() {
    let tracks = load_tracks("[{\"artist\":\"A\",\"title\":\"T1\"},{\"artist\":\"B\",\"title\":\"T2\"}]").unwrap();
    let run = Run::new(tracks, "AT".to_string());
    assert_eq!(run.phase(), Phase::Fresh);

    let (run, step) = run.step(Event::Begin);
    assert_eq!(step, Step { line: None, action: Action::Search(search_request("AT", "A", "T1")) });
    assert_eq!(run.phase(), Phase::Searching);

    let (run, step) = run.step(reply(HIT, Some("PL1")));
    assert_eq!(step.line, None);
    match step.action {
        Action::Append(req) => {
            assert_eq!(req.url, "https://api.spotify.com/v1/playlists/PL1/tracks");
            assert_eq!(req.authorization, "Bearer AT");
            assert_eq!(req.body, Body::Json("{\"uris\":[\"spotify:track:111\"]}".to_string()));
        }
        other => panic!("no append: {:?}", other),
    }
    assert_eq!(run.phase(), Phase::Appending);
    assert_eq!(run.settled_count(), 0);

    let (run, step) = run.step(Event::Appended);
    assert_eq!(step.line, Some("Track added successfully: A - T1".to_string()));
    assert_eq!(step.action, Action::Search(search_request("AT", "B", "T2")));
    assert_eq!(run.settled_count(), 1);
    assert!(run.not_found().is_empty());

    let (run, step) = run.step(reply(MISS, Some("PL1")));
    assert_eq!(step.line, Some("Track not found: B - T2".to_string()));
    let want = "[\n  {\n    \"artist\": \"B\",\n    \"title\": \"T2\"\n  }\n]";
    assert_eq!(step.action, Action::Finish(Leftover::Write(want.to_string())));
    assert_eq!(run.phase(), Phase::Closed);
    assert_eq!(run.settled_count(), 2);
    assert_eq!(run.not_found(), &vec![track("B", "T2")]);
    assert_eq!(load_tracks(want), Ok(vec![track("B", "T2")]));
}

#[test]
fn empty_input_finishes_at_once_and_writes_nothing() {
    let run = Run::new(vec![], "AT".to_string());
    let (run, step) = run.step(Event::Begin);
    assert_eq!(step, Step { line: None, action: Action::Finish(Leftover::Nothing) });
    assert_eq!(run.phase(), Phase::Closed);
}

#[test]
fn nothing_is_written_when_every_track_matches() {
    let run = Run::new(vec![track("A", "T1"), track("B", "T2")], "AT".to_string());
    let (run, _) = run.step(Event::Begin);
    let (run, _) = run.step(reply(HIT, Some("PL1")));
    let (run, _) = run.step(Event::Appended);
    let (run, _) = run.step(reply(HIT, Some("PL1")));
    let (run, step) = run.step(Event::Appended);
    assert_eq!(step.line, Some("Track added successfully: B - T2".to_string()));
    assert_eq!(step.action, Action::Finish(Leftover::Nothing));
    assert!(run.not_found().is_empty());
    assert_eq!(run.settled_count(), 2);
}

#[test]
fn every_track_is_added_or_not_found() {
    let tracks = vec![track("A", "1"), track("B", "2"), track("C", "3"), track("D", "4")];
    let hits = [false, true, true, false];
    let mut lines: Vec<String> = Vec::new();
    let (mut run, mut step) = Run::new(tracks.iter().map(|t| t.copy()).collect(), "AT".to_string()).step(Event::Begin);
    let mut i = 0;
    loop {
        lines.extend(step.line);
        match step.action {
            Action::Search(_) => {
                (run, step) = run.step(reply(if hits[i] { HIT } else { MISS }, Some("PL")));
                i += 1;
            }
            Action::Append(_) => {
                (run, step) = run.step(Event::Appended);
            }
            Action::Finish(_) => break,
            Action::Fail(e) => panic!("failed: {:?}", e),
        }
    }
    assert_eq!(
        lines,
        vec![
            not_found_message(&tracks[0]),
            added_message(&tracks[1]),
            added_message(&tracks[2]),
            not_found_message(&tracks[3]),
        ]
    );
    assert_eq!(run.not_found(), &vec![track("A", "1"), track("D", "4")]);
    assert_eq!(run.settled_count(), 4);
}

#[test]
fn no_match_needs_no_playlist() {
    let run = Run::new(vec![track("A", "T1")], "AT".to_string());
    let (run, _) = run.step(Event::Begin);
    let (run, step) = run.step(reply(MISS, None));
    assert_eq!(step.line, Some("Track not found: A - T1".to_string()));
    assert!(matches!(step.action, Action::Finish(Leftover::Write(_))));
    assert_eq!(run.not_found().len(), 1);
}

#[test]
fn match_without_playlist_aborts_the_run() {
    let run = Run::new(vec![track("A", "T1"), track("B", "T2")], "AT".to_string());
    let (run, _) = run.step(Event::Begin);
    let (run, step) = run.step(reply(HIT, None));
    assert_eq!(
        step,
        Step {
            line: None,
            action: Action::Fail(RunError::Config(ConfigError::Missing(Setting::PlaylistId))),
        }
    );
    assert_eq!(run.phase(), Phase::Closed);
}

#[test]
fn search_error_aborts_the_run() {
    let run = Run::new(vec![track("A", "T1"), track("B", "T2")], "AT".to_string());
    let (run, _) = run.step(Event::Begin);
    let (run, _) = run.step(reply(MISS, Some("PL")));
    let (run, step) = run.step(Event::SearchReply {
        status: 503,
        body: String::new(),
        playlist_id: Some("PL".to_string()),
    });
    assert_eq!(
        step,
        Step { line: None, action: Action::Fail(RunError::Search(SearchError::Status(503))) }
    );
    assert_eq!(run.phase(), Phase::Closed);
    let (run, step) = run.step(Event::Begin);
    assert_eq!(step.action, Action::Fail(RunError::OutOfTurn));
    assert_eq!(run.phase(), Phase::Closed);
}

#[test]
fn malformed_search_reply_aborts_the_run() {
    let run = Run::new(vec![track("A", "T1")], "AT".to_string());
    let (run, _) = run.step(Event::Begin);
    let (_, step) = run.step(reply("{\"tracks\":5}", Some("PL")));
    assert_eq!(step.action, Action::Fail(RunError::Search(SearchError::Malformed)));
}

#[test]
fn event_out_of_turn_changes_nothing() {
    let run = Run::new(vec![track("A", "T1")], "AT".to_string());
    let (run, step) = run.step(Event::Appended);
    assert_eq!(step, Step { line: None, action: Action::Fail(RunError::OutOfTurn) });
    assert_eq!(run.phase(), Phase::Fresh);
    let (run, _) = run.step(Event::Begin);
    let (run, step) = run.step(Event::Appended);
    assert_eq!(step.action, Action::Fail(RunError::OutOfTurn));
    assert_eq!(run.phase(), Phase::Searching);
    assert_eq!(run.settled_count(), 0);
}

#[test]
fn messages_name_artist_and_title() {
    let t = track("A", "T1");
    assert_eq!(added_message(&t), "Track added successfully: A - T1");
    assert_eq!(not_found_message(&t), "Track not found: A - T1");
}

#[test]
fn file_names_and_final_message() {
    assert_eq!(playlist_sync::run::input_path(), "tracks.json");
    assert_eq!(playlist_sync::run::output_path(), "not_found_tracks.json");
    assert_eq!(
        playlist_sync::run::written_message(),
        "Not found tracks written to not_found_tracks.json"
    );
}

#[test]
fn settings_have_their_variables() {
    assert_eq!(Setting::ClientId.variable(), "SPOTIFY_CLIENT_ID");
    assert_eq!(Setting::ClientSecret.variable(), "SPOTIFY_CLIENT_SECRET");
    assert_eq!(Setting::RedirectUri.variable(), "SPOTIFY_REDIRECT_URI");
    assert_eq!(Setting::AuthCode.variable(), "SPOTIFY_AUTH_CODE");
    assert_eq!(Setting::PlaylistId.variable(), "SPOTIFY_PLAYLIST_ID");
}
