//! The run over the requested tracks, as a state machine: the library
//! decides what is to be done next, the program around it does it and
//! reports back what happened.

use crate::auth::{ConfigError, Setting};
use crate::json::{json_reading, json_text, JsonModel};
use crate::playlist::{append_request, append_request_model, uris_doc, AppendError};
use crate::request::{is_success, Request};
use crate::search::{catalog_items, item_uri, lemma_first_hit_is_match, well_shaped};
use crate::search::{match_from_response, reply_match, search_request, search_request_model};
use crate::search::SearchError;
use crate::track::{leftover_for, loaded, models, not_found_text};
use crate::track::{Leftover, LoadError, Track, TrackModel};
use vstd::prelude::*;

verus! {

/// Where a run stands.
#[derive(Debug, PartialEq, Eq, Clone, Copy)]
pub enum Phase {
    /// Nothing has been done yet.
    Fresh,
    /// A search for the current track is under way.
    Searching,
    /// The current track is being appended to the playlist.
    Appending,
    /// The run has ended, by finishing or by failing.
    Closed,
}

/// Why a run was aborted.
#[derive(Debug, PartialEq, Eq, Clone, Copy)]
pub enum RunError {
    Config(ConfigError),
    Search(SearchError),
    Append(AppendError),
    /// An event was reported that the run was not waiting for.
    OutOfTurn,
}

/// What the program reports back to the run.
#[derive(Debug, PartialEq, Eq)]
pub enum Event {
    /// The run is to start.
    Begin,
    /// The catalog has answered the search, and this is the playlist
    /// identifier as the configuration holds it at this moment.
    SearchReply { status: u16, body: String, playlist_id: Option<String> },
    /// The append request was sent and answered.
    Appended,
}

/// What the program is to do next.
#[derive(Debug, PartialEq, Eq)]
pub enum Action {
    /// Send this search and report the reply.
    Search(Request),
    /// Send this append request and report that it is done.
    Append(Request),
    /// The run is over: write what is left, if anything.
    Finish(Leftover),
    /// The run is aborted with this error; nothing is written.
    Fail(RunError),
}

/// One step of a run: the line to print, if any, and what to do next.
#[derive(Debug, PartialEq, Eq)]
pub struct Step {
    pub line: Option<String>,
    pub action: Action,
}

/// A run as a mathematical value.
pub struct RunModel {
    /// The requested tracks, in input order.
    pub tracks: Seq<TrackModel>,
    pub access_token: Seq<char>,
    /// How many tracks have reached their final state.
    pub next: nat,
    pub phase: Phase,
    /// The tracks that found no match, in input order.
    pub not_found: Seq<TrackModel>,
    /// For each track that has reached its final state, whether it was
    /// appended to the playlist.
    pub found: Seq<bool>,
}

/// The tracks among `ts` that were appended, in order.
pub open spec fn added(ts: Seq<TrackModel>, found: Seq<bool>) -> Seq<TrackModel>
    decreases ts.len(),
{
    if ts.len() == 0 || found.len() != ts.len() {
        Seq::empty()
    } else {
        let rest = added(ts.drop_last(), found.drop_last());
        if found.last() {
            rest.push(ts.last())
        } else {
            rest
        }
    }
}

/// The tracks among `ts` that found no match, in order.
pub open spec fn missed(ts: Seq<TrackModel>, found: Seq<bool>) -> Seq<TrackModel>
    decreases ts.len(),
{
    if ts.len() == 0 || found.len() != ts.len() {
        Seq::empty()
    } else {
        let rest = missed(ts.drop_last(), found.drop_last());
        if found.last() {
            rest
        } else {
            rest.push(ts.last())
        }
    }
}

/// The line that reports an appended track.
pub open spec fn added_line(t: TrackModel) -> Seq<char> {
    "Track added successfully: "@ + t.artist + " - "@ + t.title
}

/// The line that reports a track without a match.
pub open spec fn not_found_line(t: TrackModel) -> Seq<char> {
    "Track not found: "@ + t.artist + " - "@ + t.title
}

impl RunModel {
    /// What holds of every run: the tracks that reached their final state
    /// are a prefix of the input, each of them with one verdict, and the
    /// not-found list holds exactly those among them that found no match.
    pub open spec fn wf(self) -> bool {
        &&& self.next <= self.tracks.len()
        &&& self.found.len() == self.next
        &&& self.not_found == missed(self.tracks.take(self.next as int), self.found)
        &&& (self.phase is Searching || self.phase is Appending) ==> self.next < self.tracks.len()
        &&& self.phase is Fresh ==> self.next == 0
    }

    /// The track that the run is working on.
    pub open spec fn current(self) -> TrackModel {
        self.tracks[self.next as int]
    }

    /// The run with its current track settled by the given verdict.
    pub open spec fn settled(self, was_found: bool) -> RunModel {
        RunModel {
            next: self.next + 1,
            not_found: if was_found {
                self.not_found
            } else {
                self.not_found.push(self.current())
            },
            found: self.found.push(was_found),
            ..self
        }
    }

    /// The run in another phase.
    pub open spec fn in_phase(self, phase: Phase) -> RunModel {
        RunModel { phase, ..self }
    }
}

/// Whether the run `m`, on turning to its next track, becomes `post` and
/// asks for `action`: the search for the next track, or the end of the run
/// where no track is left.
pub open spec fn proceeds(m: RunModel, post: RunModel, action: Action) -> bool {
    if m.next < m.tracks.len() {
        &&& post == m.in_phase(Phase::Searching)
        &&& action matches Action::Search(req)
        &&& req@ == search_request_model(m.access_token, m.current().artist, m.current().title)
    } else {
        &&& post == m.in_phase(Phase::Closed)
        &&& action matches Action::Finish(l)
        &&& leftover_for(l, m.not_found)
    }
}

/// Whether the run `pre`, on `event`, becomes `post` and answers `step`.
pub open spec fn follows(pre: RunModel, event: Event, post: RunModel, step: Step) -> bool {
    match (pre.phase, event) {
        (Phase::Fresh, Event::Begin) => step.line.is_none() && proceeds(pre, post, step.action),
        (Phase::Searching, Event::SearchReply { status, body, playlist_id }) => match reply_match(
            status,
            body@,
        ) {
            Err(e) => {
                &&& step.line.is_none()
                &&& post == pre.in_phase(Phase::Closed)
                &&& step.action == Action::Fail(RunError::Search(e))
            },
            Ok(None) => {
                &&& step.line matches Some(l)
                &&& l@ == not_found_line(pre.current())
                &&& proceeds(pre.settled(false), post, step.action)
            },
            Ok(Some(uri)) => step.line.is_none() && match playlist_id {
                None => {
                    &&& post == pre.in_phase(Phase::Closed)
                    &&& step.action == Action::Fail(
                        RunError::Config(ConfigError::Missing(Setting::PlaylistId)),
                    )
                },
                Some(id) => if json_text(uris_doc(uri)).is_some() {
                    &&& post == pre.in_phase(Phase::Appending)
                    &&& step.action matches Action::Append(req)
                    &&& req@ == append_request_model(pre.access_token, id@, uri)
                } else {
                    &&& post == pre.in_phase(Phase::Closed)
                    &&& step.action == Action::Fail(RunError::Append(AppendError::Encoding))
                },
            },
        },
        (Phase::Appending, Event::Appended) => {
            &&& step.line matches Some(l)
            &&& l@ == added_line(pre.current())
            &&& proceeds(pre.settled(true), post, step.action)
        },
        _ => {
            &&& step.line.is_none()
            &&& post == pre
            &&& step.action == Action::Fail(RunError::OutOfTurn)
        },
    }
}

/// The appended tracks and the tracks without a match partition the input:
/// every track is in exactly one of the two lists, and together the lists
/// hold each track as often as the input does.
pub proof fn lemma_partition(ts: Seq<TrackModel>, found: Seq<bool>)
    requires
        found.len() == ts.len(),
    ensures
        added(ts, found).len() + missed(ts, found).len() == ts.len(),
        added(ts, found).to_multiset().add(missed(ts, found).to_multiset()) =~= ts.to_multiset(),
    decreases ts.len(),
{
    if ts.len() == 0 {
        ts.to_multiset_ensures();
        added(ts, found).to_multiset_ensures();
        missed(ts, found).to_multiset_ensures();
        assert forall|t: TrackModel| #[trigger] ts.to_multiset().count(t) == 0 by {
            assert(!ts.contains(t));
        }
    } else {
        let front = ts.drop_last();
        let verdicts = found.drop_last();
        lemma_partition(front, verdicts);
        assert(ts =~= front.push(ts.last()));
        vstd::seq_lib::to_multiset_build(front, ts.last());
        vstd::seq_lib::to_multiset_build(added(front, verdicts), ts.last());
        vstd::seq_lib::to_multiset_build(missed(front, verdicts), ts.last());
    }
}

/// Settling the current track keeps a run well formed: the track joins the
/// not-found list exactly where it found no match.
pub proof fn lemma_settled(m: RunModel, was_found: bool)
    requires
        m.wf(),
        m.next < m.tracks.len(),
    ensures
        m.settled(was_found).in_phase(Phase::Closed).wf(),
        m.settled(was_found).next < m.tracks.len() ==> m.settled(was_found).in_phase(
            Phase::Searching,
        ).wf(),
{
    let s = m.settled(was_found);
    let before = m.tracks.take(m.next as int);
    let after = m.tracks.take(s.next as int);
    assert(after.drop_last() =~= before);
    assert(after.last() == m.current());
    assert(s.found.drop_last() =~= m.found);
    assert(s.found.last() == was_found);
}

/// A run that ends has settled every track, so its not-found list holds
/// exactly the input tracks that were not appended; and where that list is
/// empty, nothing is to be written.
pub proof fn lemma_finish(pre: RunModel, event: Event, post: RunModel, step: Step)
    requires
        pre.wf(),
        post.wf(),
        follows(pre, event, post, step),
        step.action is Finish,
    ensures
        post.next == post.tracks.len(),
        post.tracks == pre.tracks,
        post.not_found == missed(post.tracks, post.found),
        added(post.tracks, post.found).len() + post.not_found.len() == post.tracks.len(),
        added(post.tracks, post.found).to_multiset().add(post.not_found.to_multiset())
            =~= post.tracks.to_multiset(),
        post.not_found.len() == 0 <==> step.action->Finish_0 is Nothing,
        step.action->Finish_0 matches Leftover::Write(text) ==> loaded(text@) == Ok::<
            Seq<TrackModel>,
            LoadError,
        >(post.not_found),
{
    assert(post.tracks.take(post.next as int) =~= post.tracks);
    lemma_partition(post.tracks, post.found);
}

/// Where the catalog answers a search with a well-shaped reply that holds
/// no hit, no append request follows, and the current track joins the
/// not-found list.
pub proof fn lemma_no_hit_is_recorded(
    pre: RunModel,
    event: Event,
    post: RunModel,
    step: Step,
    doc: JsonModel,
)
    requires
        pre.phase is Searching,
        event is SearchReply,
        is_success(event->status),
        json_reading(event->body@) == Some(doc),
        well_shaped(doc),
        catalog_items(doc).unwrap().len() == 0,
        follows(pre, event, post, step),
    ensures
        !(step.action is Append),
        !(step.action is Fail),
        step.line matches Some(l) && l@ == not_found_line(pre.current()),
        post.not_found == pre.not_found.push(pre.current()),
        post.found == pre.found.push(false),
        post.next == pre.next + 1,
{
}

/// Where the catalog answers a search with a well-shaped reply that holds
/// at least one hit, the append request that follows names exactly the
/// identifier of the first hit, however many hits there are; and the track
/// does not join the not-found list.
pub proof fn lemma_first_hit_is_appended(
    pre: RunModel,
    event: Event,
    post: RunModel,
    step: Step,
    doc: JsonModel,
)
    requires
        pre.phase is Searching,
        event is SearchReply,
        is_success(event->status),
        json_reading(event->body@) == Some(doc),
        well_shaped(doc),
        catalog_items(doc).unwrap().len() > 0,
        follows(pre, event, post, step),
    ensures
        post.not_found == pre.not_found,
        step.action is Append || step.action is Fail,
        event->playlist_id is None ==> step.action is Fail,
        step.action matches Action::Append(req) ==> event->playlist_id is Some && req@
            == append_request_model(
            pre.access_token,
            event->playlist_id->Some_0@,
            item_uri(catalog_items(doc).unwrap()[0]).unwrap(),
        ),
{
    lemma_first_hit_is_match(doc);
}

/// A run over a list of requested tracks.
pub struct Run {
    tracks: Vec<Track>,
    access_token: String,
    next: usize,
    phase: Phase,
    not_found: Vec<Track>,
    found: Ghost<Seq<bool>>,
}

impl View for Run {
    type V = RunModel;

    closed spec fn view(&self) -> RunModel {
        RunModel {
            tracks: models(self.tracks@),
            access_token: self.access_token@,
            next: self.next as nat,
            phase: self.phase,
            not_found: models(self.not_found@),
            found: self.found@,
        }
    }
}

/// The name of the file that holds the requested tracks.
pub fn input_path() -> (r: String)
    ensures
        r@ == "tracks.json"@,
{
    "tracks.json".to_owned()
}

/// The name of the file that receives the tracks without a match.
pub fn output_path() -> (r: String)
    ensures
        r@ == "not_found_tracks.json"@,
{
    "not_found_tracks.json".to_owned()
}

/// Builds the line that confirms that the output file was written.
pub fn written_message() -> (r: String)
    ensures
        r@ == "Not found tracks written to "@ + "not_found_tracks.json"@,
{
    "Not found tracks written to ".to_owned().concat(output_path().as_str())
}

/// Builds the line that reports an appended track.
pub fn added_message(track: &Track) -> (r: String)
    ensures
        r@ == added_line(track@),
{
    "Track added successfully: ".to_owned().concat(track.artist.as_str()).concat(" - ").concat(
        track.title.as_str(),
    )
}

/// Builds the line that reports a track without a match.
pub fn not_found_message(track: &Track) -> (r: String)
    ensures
        r@ == not_found_line(track@),
{
    "Track not found: ".to_owned().concat(track.artist.as_str()).concat(" - ").concat(
        track.title.as_str(),
    )
}

impl Run {
    /// Every run is well formed.
    #[verifier::type_invariant]
    spec fn sound(self) -> bool {
        self@.wf()
    }

    /// A fresh run over `tracks` with the access token of this run.
    pub fn new(tracks: Vec<Track>, access_token: String) -> (r: Run)
        ensures
            r@.wf(),
            r@ == (RunModel {
                tracks: models(tracks@),
                access_token: access_token@,
                next: 0,
                phase: Phase::Fresh,
                not_found: Seq::empty(),
                found: Seq::empty(),
            }),
    {
        let not_found: Vec<Track> = Vec::new();
        proof {
            assert(models(not_found@) =~= Seq::empty());
            assert(models(tracks@).take(0) =~= Seq::empty());
        }
        Run {
            tracks,
            access_token,
            next: 0,
            phase: Phase::Fresh,
            not_found,
            found: Ghost(Seq::empty()),
        }
    }

    /// Where the run stands.
    pub fn phase(&self) -> (p: Phase)
        ensures
            p == self@.phase,
    {
        self.phase
    }

    /// How many tracks have reached their final state.
    pub fn settled_count(&self) -> (n: usize)
        ensures
            n == self@.next,
    {
        self.next
    }

    /// The tracks that have found no match so far, in input order.
    pub fn not_found(&self) -> (r: &Vec<Track>)
        ensures
            models(r@) == self@.not_found,
    {
        &self.not_found
    }

    /// Turns to the next track: asks for its search, or ends the run where
    /// no track is left.
    fn proceed(self) -> (r: (Run, Action))
        requires
            self@.in_phase(Phase::Closed).wf(),
        ensures
            r.0@.wf(),
            proceeds(self@, r.0@, r.1),
    {
        if self.next < self.tracks.len() {
            let track = &self.tracks[self.next];
            let req = search_request(
                self.access_token.as_str(),
                track.artist.as_str(),
                track.title.as_str(),
            );
            let run = Run {
                tracks: self.tracks,
                access_token: self.access_token,
                next: self.next,
                phase: Phase::Searching,
                not_found: self.not_found,
                found: self.found,
            };
            (run, Action::Search(req))
        } else {
            let left = not_found_text(&self.not_found);
            let run = Run {
                tracks: self.tracks,
                access_token: self.access_token,
                next: self.next,
                phase: Phase::Closed,
                not_found: self.not_found,
                found: self.found,
            };
            (run, Action::Finish(left))
        }
    }

    /// Ends the run with an error.
    fn fail(self, error: RunError) -> (r: (Run, Step))
        requires
            self@.wf(),
        ensures
            r.0@ == self@.in_phase(Phase::Closed),
            r.0@.wf(),
            r.1 == (Step { line: None, action: Action::Fail(error) }),
    {
        let run = Run {
            tracks: self.tracks,
            access_token: self.access_token,
            next: self.next,
            phase: Phase::Closed,
            not_found: self.not_found,
            found: self.found,
        };
        (run, Step { line: None, action: Action::Fail(error) })
    }

    /// Settles the current track with the given verdict and turns to the
    /// next one.
    fn settle(self, was_found: bool) -> (r: (Run, Step))
        requires
            self@.wf(),
            self@.next < self@.tracks.len(),
        ensures
            r.0@.wf(),
            r.1.line matches Some(l) && l@ == (if was_found {
                added_line(self@.current())
            } else {
                not_found_line(self@.current())
            }),
            proceeds(self@.settled(was_found), r.0@, r.1.action),
    {
        proof {
            lemma_settled(self@, was_found);
        }
        let total = self.tracks.len();
        assert(self.next < total);
        let mut not_found = self.not_found;
        let ghost before = not_found@;
        let track = &self.tracks[self.next];
        let line = if was_found {
            added_message(track)
        } else {
            not_found.push(track.copy());
            not_found_message(track)
        };
        proof {
            if !was_found {
                assert(models(not_found@) =~= models(before).push(self@.current()));
            }
        }
        let run = Run {
            tracks: self.tracks,
            access_token: self.access_token,
            next: self.next + 1,
            phase: Phase::Closed,
            not_found,
            found: Ghost(self.found@.push(was_found)),
        };
        assert(run@ == self@.settled(was_found).in_phase(Phase::Closed));
        let (run, action) = run.proceed();
        (run, Step { line: Some(line), action })
    }

    /// Takes one step: given what the program reports, settles the current
    /// track where its fate is known, and says what to print and what to do
    /// next. A search error, an absent playlist identifier on a match, or a
    /// body that cannot be written aborts the run; an event that the run
    /// was not waiting for is refused and changes nothing.
    pub fn step(self, event: Event) -> (r: (Run, Step))
        ensures
            self@.wf(),
            r.0@.wf(),
            follows(self@, event, r.0@, r.1),
    {
        proof {
            use_type_invariant(&self);
        }
        match (self.phase, event) {
            (Phase::Fresh, Event::Begin) => {
                let (run, action) = self.proceed();
                (run, Step { line: None, action })
            },
            (Phase::Searching, Event::SearchReply { status, body, playlist_id }) => {
                match match_from_response(status, body.as_str()) {
                    Err(e) => self.fail(RunError::Search(e)),
                    Ok(None) => self.settle(false),
                    Ok(Some(uri)) => match playlist_id {
                        None => self.fail(
                            RunError::Config(ConfigError::Missing(Setting::PlaylistId)),
                        ),
                        Some(id) => match append_request(
                            self.access_token.as_str(),
                            id.as_str(),
                            uri.as_str(),
                        ) {
                            Err(_) => self.fail(RunError::Append(AppendError::Encoding)),
                            Ok(req) => {
                                let run = Run {
                                    tracks: self.tracks,
                                    access_token: self.access_token,
                                    next: self.next,
                                    phase: Phase::Appending,
                                    not_found: self.not_found,
                                    found: self.found,
                                };
                                (run, Step { line: None, action: Action::Append(req) })
                            },
                        },
                    },
                }
            },
            (Phase::Appending, Event::Appended) => self.settle(true),
            (_, _) => (self, Step { line: None, action: Action::Fail(RunError::OutOfTurn) }),
        }
    }
}

} // verus!
