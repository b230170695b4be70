//! Resolving a play query to an audio source: recognizing Spotify and
//! YouTube links, and the steps between the outside calls that fetch,
//! search and load.

use vstd::prelude::*;
use vstd::string::*;

use crate::pattern::{regex_compiles, regex_is_match, regex_named_group, Pattern};
use crate::spotify::{ascii_alphanumeric, spotify_track_id, SpotifyTrackId};

verus! {

/// Spotify track, user, artist, album and playlist links, and Spotify URIs.
pub const SPOTIFY_PATTERN: &'static str = r"^https?://open.spotify.com/(?P<Type>track|user|artist|album|playlist)/(?P<ID>[a-zA-Z0-9]+)(/playlist/[a-zA-Z0-9]+|)|spotify:(track|user|artist|album):[a-zA-Z0-9]+(:playlist:[a-zA-Z0-9]+|)$";

/// YouTube video links.
pub const YOUTUBE_PATTERN: &'static str = r"^http(?:s?)://(?:www\.)?youtu(?:be\.com/watch\?v=|\.be/)([\w\-_]*)(&(amp;)?‌\u{200B}[\w\?‌\u{200B}=]*)?$";

/// Whether `q` is taken as a Spotify link.
pub open spec fn is_spotify_link(q: Seq<char>) -> bool {
    regex_is_match(SPOTIFY_PATTERN@, q)
}

/// Whether `q` is taken as a YouTube link.
pub open spec fn is_youtube_link(q: Seq<char>) -> bool {
    regex_is_match(YOUTUBE_PATTERN@, q)
}

/// The platform an audio source was found through.
#[derive(PartialEq, Eq, Structural, Clone, Copy, Debug)]
pub enum Platform {
    Spotify,
    YouTube,
}

/// What a play query is.
#[derive(Debug)]
pub enum QueryKind {
    /// A Spotify link; `link_type` and `id` are the `Type` and `ID` groups of
    /// the match, where it has them.
    Spotify { link_type: Option<String>, id: Option<String> },
    /// A YouTube video link.
    YouTube,
    /// Anything else: words to search for.
    Words,
}

/// The two link patterns, compiled.
pub struct QueryPatterns {
    spotify: Pattern,
    youtube: Pattern,
}

impl QueryPatterns {
    #[verifier::type_invariant]
    spec fn holds_link_patterns(self) -> bool {
        &&& self.spotify@ == SPOTIFY_PATTERN@
        &&& self.youtube@ == YOUTUBE_PATTERN@
    }

    /// Compiles the link patterns; `None` when the regex crate refuses one.
    pub fn new() -> (res: Option<QueryPatterns>)
        ensures
            res is Some <==> regex_compiles(SPOTIFY_PATTERN@) && regex_compiles(YOUTUBE_PATTERN@),
    {
        let spotify = Pattern::compile(SPOTIFY_PATTERN);
        let youtube = Pattern::compile(YOUTUBE_PATTERN);
        match (spotify, youtube) {
            (Some(spotify), Some(youtube)) => Some(QueryPatterns { spotify, youtube }),
            _ => None,
        }
    }

    /// Classifies a play query: a Spotify link first, then a YouTube link,
    /// otherwise words to search for.
    pub fn classify(&self, query: &str) -> (res: QueryKind)
        ensures
            match res {
                QueryKind::Spotify { link_type, id } => {
                    &&& is_spotify_link(query@)
                    &&& link_type.deep_view() == regex_named_group(
                        SPOTIFY_PATTERN@,
                        query@,
                        "Type"@,
                    )
                    &&& id.deep_view() == regex_named_group(SPOTIFY_PATTERN@, query@, "ID"@)
                },
                QueryKind::YouTube => !is_spotify_link(query@) && is_youtube_link(query@),
                QueryKind::Words => !is_spotify_link(query@) && !is_youtube_link(query@),
            },
    {
        proof {
            use_type_invariant(self);
        }
        if self.spotify.is_match(query) {
            let link_type = self.spotify.named_group(query, "Type");
            let id = self.spotify.named_group(query, "ID");
            QueryKind::Spotify { link_type, id }
        } else if self.youtube.is_match(query) {
            QueryKind::YouTube
        } else {
            QueryKind::Words
        }
    }
}

/// The words searched on YouTube for a Spotify track: `{name} - {artist}`.
pub open spec fn track_query_text(name: Seq<char>, artist: Seq<char>) -> Seq<char> {
    name + " - "@ + artist
}

/// The words searched on YouTube for a Spotify track.
pub fn track_query(name: &str, artist: &str) -> (res: String)
    ensures
        res@ == track_query_text(name@, artist@),
{
    let mut q = String::from_str(name);
    q.append(" - ");
    q.append(artist);
    q
}

/// A Spotify track, as much of it as the search needs: its name and the
/// name of its first artist.
#[derive(Debug)]
pub struct SpotifyTrack {
    pub name: String,
    pub artist: String,
}

/// What the resolver asks its driver to do next.
#[derive(Debug)]
pub enum SourceAction {
    /// Create a Spotify client; answer with `SourceEvent::SpotifyClient`.
    CreateSpotifyClient,
    /// Fetch this track from Spotify; answer with `SourceEvent::SpotifyTrack`.
    FetchSpotifyTrack(SpotifyTrackId),
    /// Search YouTube for these words; answer with `SourceEvent::SearchResult`.
    SearchYouTube(String),
    /// Load the audio of this link; answer with `SourceEvent::AudioLoaded`.
    LoadAudio(String),
    /// Stop: the source was loaded through this platform, or none was.
    Finish(Option<Platform>),
}

/// What the driver reports back after doing an action.
#[derive(Debug)]
pub enum SourceEvent {
    /// Whether a Spotify client could be created.
    SpotifyClient(bool),
    /// The fetched track, or `None` when the request failed.
    SpotifyTrack(Option<SpotifyTrack>),
    /// The link of the video found, or `None` when the search found none.
    SearchResult(Option<String>),
    /// Whether the audio could be loaded.
    AudioLoaded(bool),
}

/// Where the resolution of a query stands.
#[derive(Debug)]
pub enum SourceStage {
    /// A Spotify link awaits a client; its `Type` and `ID` groups are kept.
    AwaitingClient { link_type: Option<String>, id: Option<String> },
    /// A Spotify track is being fetched.
    AwaitingTrack,
    /// A YouTube search runs for a query that came through this platform.
    AwaitingSearch(Platform),
    /// Audio is being loaded for a query that came through this platform.
    AwaitingAudio(Platform),
    /// Finished, with the platform of the loaded source, if any.
    Done(Option<Platform>),
}

/// The spec view of an action: its variant and the text it carries (for a
/// track to fetch, the id text of the track).
pub enum ActionView {
    CreateSpotifyClient,
    FetchSpotifyTrack(Seq<char>),
    SearchYouTube(Seq<char>),
    LoadAudio(Seq<char>),
    Finish(Option<Platform>),
}

/// The spec view of `a`.
pub open spec fn action_view(a: SourceAction) -> ActionView {
    match a {
        SourceAction::CreateSpotifyClient => ActionView::CreateSpotifyClient,
        SourceAction::FetchSpotifyTrack(track) => ActionView::FetchSpotifyTrack(track@),
        SourceAction::SearchYouTube(q) => ActionView::SearchYouTube(q@),
        SourceAction::LoadAudio(u) => ActionView::LoadAudio(u@),
        SourceAction::Finish(p) => ActionView::Finish(p),
    }
}

/// The stage a query of kind `kind` starts in.
pub open spec fn start_stage(kind: QueryKind) -> SourceStage {
    match kind {
        QueryKind::Spotify { link_type, id } => SourceStage::AwaitingClient { link_type, id },
        QueryKind::YouTube => SourceStage::AwaitingAudio(Platform::YouTube),
        QueryKind::Words => SourceStage::AwaitingSearch(Platform::YouTube),
    }
}

/// The first action for the query `q` of kind `kind`: a Spotify link needs a
/// client, a YouTube link is loaded as it is, words are searched for.
pub open spec fn start_action(kind: QueryKind, q: Seq<char>) -> ActionView {
    match kind {
        QueryKind::Spotify { .. } => ActionView::CreateSpotifyClient,
        QueryKind::YouTube => ActionView::LoadAudio(q),
        QueryKind::Words => ActionView::SearchYouTube(q),
    }
}

/// Whether `event` answers the action of `stage`, and the resolution is
/// defined there: a created client needs the `Type` group, and for a track
/// link an `ID` group of ASCII letters and digits.
pub open spec fn accepts(stage: SourceStage, event: SourceEvent) -> bool {
    match (stage, event) {
        (SourceStage::AwaitingClient { link_type, id }, SourceEvent::SpotifyClient(ok)) => {
            ok ==> match link_type {
                Some(t) => t@ == "track"@ ==> match id {
                    Some(i) => ascii_alphanumeric(i@),
                    None => false,
                },
                None => false,
            }
        },
        (SourceStage::AwaitingTrack, SourceEvent::SpotifyTrack(_)) => true,
        (SourceStage::AwaitingSearch(_), SourceEvent::SearchResult(_)) => true,
        (SourceStage::AwaitingAudio(_), SourceEvent::AudioLoaded(_)) => true,
        _ => false,
    }
}

/// Whether a created client leads on to fetching a track: the link is a
/// track link.
pub open spec fn is_track_link(link_type: Option<String>) -> bool {
    match link_type {
        Some(t) => t@ == "track"@,
        None => false,
    }
}

/// The stage after `event` in `stage`.
pub open spec fn next_stage(stage: SourceStage, event: SourceEvent) -> SourceStage {
    match (stage, event) {
        (SourceStage::AwaitingClient { link_type, .. }, SourceEvent::SpotifyClient(ok)) => {
            if ok && is_track_link(link_type) {
                SourceStage::AwaitingTrack
            } else {
                SourceStage::Done(None)
            }
        },
        (SourceStage::AwaitingTrack, SourceEvent::SpotifyTrack(track)) => match track {
            Some(_) => SourceStage::AwaitingSearch(Platform::Spotify),
            None => SourceStage::Done(None),
        },
        (SourceStage::AwaitingSearch(p), SourceEvent::SearchResult(found)) => match found {
            Some(_) => SourceStage::AwaitingAudio(p),
            None => SourceStage::Done(None),
        },
        (SourceStage::AwaitingAudio(p), SourceEvent::AudioLoaded(ok)) => {
            if ok {
                SourceStage::Done(Some(p))
            } else {
                SourceStage::Done(None)
            }
        },
        (s, _) => s,
    }
}

/// The action after `event` in `stage`.
pub open spec fn next_action(stage: SourceStage, event: SourceEvent) -> ActionView {
    match (stage, event) {
        (SourceStage::AwaitingClient { link_type, id }, SourceEvent::SpotifyClient(ok)) => {
            if ok && is_track_link(link_type) {
                match id {
                    Some(i) => ActionView::FetchSpotifyTrack(i@),
                    None => ActionView::Finish(None),
                }
            } else {
                ActionView::Finish(None)
            }
        },
        (SourceStage::AwaitingTrack, SourceEvent::SpotifyTrack(track)) => match track {
            Some(t) => ActionView::SearchYouTube(track_query_text(t.name@, t.artist@)),
            None => ActionView::Finish(None),
        },
        (SourceStage::AwaitingSearch(_), SourceEvent::SearchResult(found)) => match found {
            Some(url) => ActionView::LoadAudio(url@),
            None => ActionView::Finish(None),
        },
        (SourceStage::AwaitingAudio(p), SourceEvent::AudioLoaded(ok)) => {
            if ok {
                ActionView::Finish(Some(p))
            } else {
                ActionView::Finish(None)
            }
        },
        _ => ActionView::Finish(None),
    }
}

impl SourceStage {
    /// Starts resolving `query`, of kind `kind`.
    pub fn start(kind: QueryKind, query: &str) -> (res: (SourceStage, SourceAction))
        ensures
            res.0 == start_stage(kind),
            action_view(res.1) == start_action(kind, query@),
    {
        match kind {
            QueryKind::Spotify { link_type, id } => (
                SourceStage::AwaitingClient { link_type, id },
                SourceAction::CreateSpotifyClient,
            ),
            QueryKind::YouTube => (
                SourceStage::AwaitingAudio(Platform::YouTube),
                SourceAction::LoadAudio(String::from_str(query)),
            ),
            QueryKind::Words => (
                SourceStage::AwaitingSearch(Platform::YouTube),
                SourceAction::SearchYouTube(String::from_str(query)),
            ),
        }
    }

    /// Whether `event` may be handed to [`SourceStage::step`] in this stage.
    pub fn accepts(&self, event: &SourceEvent) -> (res: bool)
        ensures
            res == accepts(*self, *event),
    {
        proof {
            reveal_strlit("track");
        }
        match (self, event) {
            (SourceStage::AwaitingClient { link_type, id }, SourceEvent::SpotifyClient(ok)) => {
                if !*ok {
                    true
                } else {
                    match link_type {
                        Some(t) => {
                            if !is_track_text(t.as_str()) {
                                true
                            } else {
                                match id {
                                    Some(i) => is_ascii_alphanumeric(i.as_str()),
                                    None => false,
                                }
                            }
                        },
                        None => false,
                    }
                }
            },
            (SourceStage::AwaitingTrack, SourceEvent::SpotifyTrack(_)) => true,
            (SourceStage::AwaitingSearch(_), SourceEvent::SearchResult(_)) => true,
            (SourceStage::AwaitingAudio(_), SourceEvent::AudioLoaded(_)) => true,
            _ => false,
        }
    }

    /// Takes the driver's report of the last action and gives the next stage
    /// and action.
    pub fn step(self, event: SourceEvent) -> (res: (SourceStage, SourceAction))
        requires
            accepts(self, event),
        ensures
            res.0 == next_stage(self, event),
            action_view(res.1) == next_action(self, event),
    {
        match (self, event) {
            (SourceStage::AwaitingClient { link_type, id }, SourceEvent::SpotifyClient(ok)) => {
                let track_link = ok && match &link_type {
                    Some(t) => is_track_text(t.as_str()),
                    None => false,
                };
                let track = if track_link {
                    match &id {
                        Some(i) => spotify_track_id(i.as_str()),
                        None => None,
                    }
                } else {
                    None
                };
                match track {
                    Some(track) => (SourceStage::AwaitingTrack, SourceAction::FetchSpotifyTrack(track)),
                    None => (SourceStage::Done(None), SourceAction::Finish(None)),
                }
            },
            (SourceStage::AwaitingTrack, SourceEvent::SpotifyTrack(track)) => match track {
                Some(t) => (
                    SourceStage::AwaitingSearch(Platform::Spotify),
                    SourceAction::SearchYouTube(track_query(t.name.as_str(), t.artist.as_str())),
                ),
                None => (SourceStage::Done(None), SourceAction::Finish(None)),
            },
            (SourceStage::AwaitingSearch(p), SourceEvent::SearchResult(found)) => match found {
                Some(url) => (SourceStage::AwaitingAudio(p), SourceAction::LoadAudio(url)),
                None => (SourceStage::Done(None), SourceAction::Finish(None)),
            },
            (SourceStage::AwaitingAudio(p), SourceEvent::AudioLoaded(ok)) => {
                if ok {
                    (SourceStage::Done(Some(p)), SourceAction::Finish(Some(p)))
                } else {
                    (SourceStage::Done(None), SourceAction::Finish(None))
                }
            },
            (s, _) => (s, SourceAction::Finish(None)),
        }
    }
}

/// Whether `s` reads `track`.
fn is_track_text(s: &str) -> (res: bool)
    ensures
        res == (s@ == "track"@),
{
    proof {
        reveal_strlit("track");
    }
    let n = s.unicode_len();
    if n != 5 {
        return false;
    }
    let r = s.get_char(0) == 't' && s.get_char(1) == 'r' && s.get_char(2) == 'a' && s.get_char(3)
        == 'c' && s.get_char(4) == 'k';
    if r {
        assert(s@ =~= "track"@);
    }
    r
}

/// Whether every character of `s` is an ASCII letter or digit.
fn is_ascii_alphanumeric(s: &str) -> (res: bool)
    ensures
        res == ascii_alphanumeric(s@),
{
    let n = s.unicode_len();
    let mut i: usize = 0;
    while i < n
        invariant
            n == s@.len(),
            i <= n,
            forall|k: int|
                0 <= k < i ==> {
                    let c = #[trigger] s@[k];
                    ('0' <= c <= '9') || ('a' <= c <= 'z') || ('A' <= c <= 'Z')
                },
        decreases n - i,
    {
        let c = s.get_char(i);
        if !(('0' <= c && c <= '9') || ('a' <= c && c <= 'z') || ('A' <= c && c <= 'Z')) {
            return false;
        }
        i = i + 1;
    }
    true
}

/// How many more reports a stage can take at most.
pub open spec fn stage_rank(s: SourceStage) -> nat {
    match s {
        SourceStage::AwaitingClient { .. } => 4,
        SourceStage::AwaitingTrack => 3,
        SourceStage::AwaitingSearch(_) => 2,
        SourceStage::AwaitingAudio(_) => 1,
        SourceStage::Done(_) => 0,
    }
}

/// The platform through which a stage's query came, while it is unfinished.
pub open spec fn stage_platform(s: SourceStage) -> Option<Platform> {
    match s {
        SourceStage::AwaitingClient { .. } => Some(Platform::Spotify),
        SourceStage::AwaitingTrack => Some(Platform::Spotify),
        SourceStage::AwaitingSearch(p) => Some(p),
        SourceStage::AwaitingAudio(p) => Some(p),
        SourceStage::Done(_) => None,
    }
}

/// The stage reached from `stage` by the reports `events`, in order.
pub open spec fn run_stages(stage: SourceStage, events: Seq<SourceEvent>) -> SourceStage
    decreases events.len(),
{
    if events.len() == 0 {
        stage
    } else {
        run_stages(next_stage(stage, events[0]), events.drop_first())
    }
}

/// Whether each of `events` is accepted in the stage it reaches.
pub open spec fn run_accepted(stage: SourceStage, events: Seq<SourceEvent>) -> bool
    decreases events.len(),
{
    events.len() == 0 || (accepts(stage, events[0]) && run_accepted(
        next_stage(stage, events[0]),
        events.drop_first(),
    ))
}

/// Every accepted report brings the resolution strictly closer to its end,
/// and a finished resolution accepts no report: a query is resolved after at
/// most four outside calls.
pub proof fn lemma_step_progress(stage: SourceStage, event: SourceEvent)
    ensures
        accepts(stage, event) ==> stage_rank(next_stage(stage, event)) < stage_rank(stage),
        stage is Done ==> !accepts(stage, event),
{
}

/// The resolver asks to finish exactly when it reaches its end, and reports
/// there the platform its last stage holds.
pub proof fn lemma_finish_iff_done(stage: SourceStage, event: SourceEvent)
    requires
        accepts(stage, event),
    ensures
        next_action(stage, event) is Finish <==> next_stage(stage, event) is Done,
        next_action(stage, event) matches ActionView::Finish(p) ==> next_stage(stage, event)
            == SourceStage::Done(p),
{
}

/// A query starts in an unfinished stage, through Spotify exactly when it is
/// a Spotify link.
pub proof fn lemma_start_platform(kind: QueryKind)
    ensures
        stage_platform(start_stage(kind)) is Some,
        stage_platform(start_stage(kind)) == Some(Platform::Spotify) <==> kind is Spotify,
{
}

/// A step keeps the platform of the query until the end, and a loaded source
/// is reported with that platform.
pub proof fn lemma_step_keeps_platform(stage: SourceStage, event: SourceEvent)
    requires
        accepts(stage, event),
    ensures
        !(next_stage(stage, event) is Done) ==> stage_platform(next_stage(stage, event))
            == stage_platform(stage),
        next_stage(stage, event) matches SourceStage::Done(Some(p)) ==> stage_platform(stage)
            == Some(p),
{
}

proof fn lemma_run_platform(stage: SourceStage, events: Seq<SourceEvent>, p: Platform)
    requires
        run_accepted(stage, events),
        run_stages(stage, events) == SourceStage::Done(Some(p)),
        !(stage is Done),
    ensures
        stage_platform(stage) == Some(p),
    decreases events.len(),
{
    if events.len() > 0 {
        let next = next_stage(stage, events[0]);
        lemma_step_keeps_platform(stage, events[0]);
        if !(next is Done) {
            lemma_run_platform(next, events.drop_first(), p);
        } else {
            lemma_done_stays(next, events.drop_first());
        }
    }
}

proof fn lemma_done_stays(stage: SourceStage, events: Seq<SourceEvent>)
    requires
        stage is Done,
        run_accepted(stage, events),
    ensures
        run_stages(stage, events) == stage,
        events.len() == 0,
    decreases events.len(),
{
}

/// Whatever the outside calls answer, a source found for a query is reported
/// as a Spotify source exactly when the query is a Spotify link.
pub proof fn lemma_reported_platform(kind: QueryKind, events: Seq<SourceEvent>, p: Platform)
    requires
        run_accepted(start_stage(kind), events),
        run_stages(start_stage(kind), events) == SourceStage::Done(Some(p)),
    ensures
        p == Platform::Spotify <==> kind is Spotify,
{
    lemma_start_platform(kind);
    lemma_run_platform(start_stage(kind), events, p);
}

/// Audio is only ever loaded from the query itself, when it is a YouTube
/// link, or from the link a search gave.
pub proof fn lemma_loaded_link(
    kind: QueryKind,
    q: Seq<char>,
    stage: SourceStage,
    event: SourceEvent,
)
    ensures
        start_action(kind, q) matches ActionView::LoadAudio(u) ==> kind is YouTube && u == q,
        accepts(stage, event) ==> (next_action(stage, event) matches ActionView::LoadAudio(u) ==> (
        event matches SourceEvent::SearchResult(Some(v)) && v@ == u)),
{
}

/// A Spotify track link is fetched by the id the link names: when a client
/// is ready, the track asked for is the link's `ID` group.
pub proof fn lemma_fetches_linked_track(kind: QueryKind, event: SourceEvent)
    requires
        kind is Spotify,
        accepts(start_stage(kind), event),
    ensures
        next_action(start_stage(kind), event) matches ActionView::FetchSpotifyTrack(t) ==> (
        kind->id matches Some(i) && t == i@),
        (event == SourceEvent::SpotifyClient(true) && is_track_link(kind->link_type)) ==> (
        next_action(start_stage(kind), event) is FetchSpotifyTrack),
{
}

/// Every outcome of an outside call is a valid report in the stage that
/// asked for it: a search that found nothing, a failed track fetch, audio
/// that did not load, and a Spotify client that could not be made are all
/// taken, as is every success except a Spotify link without the groups the
/// next step needs.
pub proof fn lemma_every_outcome_is_reported(
    p: Platform,
    found: Option<String>,
    track: Option<SpotifyTrack>,
    ok: bool,
    link_type: Option<String>,
    id: Option<String>,
)
    ensures
        accepts(SourceStage::AwaitingSearch(p), SourceEvent::SearchResult(found)),
        accepts(SourceStage::AwaitingTrack, SourceEvent::SpotifyTrack(track)),
        accepts(SourceStage::AwaitingAudio(p), SourceEvent::AudioLoaded(ok)),
        accepts(SourceStage::AwaitingClient { link_type, id }, SourceEvent::SpotifyClient(false)),
{
}

/// What each outcome leads to: a found video is loaded from its link, a
/// fetched track is searched as `name - artist`, loaded audio finishes with
/// the query's platform, and every failure finishes with no source.
pub proof fn lemma_outcomes_drive_resolution(
    p: Platform,
    url: String,
    track: SpotifyTrack,
    link_type: Option<String>,
    id: Option<String>,
)
    ensures
        next_action(SourceStage::AwaitingSearch(p), SourceEvent::SearchResult(Some(url)))
            == ActionView::LoadAudio(url@),
        next_action(SourceStage::AwaitingSearch(p), SourceEvent::SearchResult(None))
            == ActionView::Finish(None),
        next_action(SourceStage::AwaitingTrack, SourceEvent::SpotifyTrack(Some(track)))
            == ActionView::SearchYouTube(track.name@ + " - "@ + track.artist@),
        next_action(SourceStage::AwaitingTrack, SourceEvent::SpotifyTrack(None))
            == ActionView::Finish(None),
        next_action(SourceStage::AwaitingAudio(p), SourceEvent::AudioLoaded(true))
            == ActionView::Finish(Some(p)),
        next_action(SourceStage::AwaitingAudio(p), SourceEvent::AudioLoaded(false))
            == ActionView::Finish(None),
        next_action(
            SourceStage::AwaitingClient { link_type, id },
            SourceEvent::SpotifyClient(false),
        ) == ActionView::Finish(None),
        next_stage(SourceStage::AwaitingSearch(p), SourceEvent::SearchResult(Some(url)))
            == SourceStage::AwaitingAudio(p),
        next_stage(SourceStage::AwaitingTrack, SourceEvent::SpotifyTrack(Some(track)))
            == SourceStage::AwaitingSearch(Platform::Spotify),
{
}

/// How a query starts: a Spotify link asks for a client, a YouTube link is
/// loaded as typed, and words are searched as typed; the query's platform is
/// Spotify for a Spotify link and YouTube otherwise.
pub proof fn lemma_start_by_kind(kind: QueryKind, q: Seq<char>)
    ensures
        kind is Spotify ==> start_action(kind, q) == ActionView::CreateSpotifyClient,
        kind is YouTube ==> start_action(kind, q) == ActionView::LoadAudio(q) && start_stage(kind)
            == SourceStage::AwaitingAudio(Platform::YouTube),
        kind is Words ==> start_action(kind, q) == ActionView::SearchYouTube(q) && start_stage(kind)
            == SourceStage::AwaitingSearch(Platform::YouTube),
{
}

} // verus!
