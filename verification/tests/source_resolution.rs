use disco_rs::spotify::spotify_track_id;
use disco_rs::source::{
    track_query, Platform, QueryKind, QueryPatterns, SourceAction, SourceEvent,
    SourceStage, SpotifyTrack,
};

fn patterns() -> QueryPatterns {
    QueryPatterns::new().expect("link patterns compile")
}

#[test]
fn spotify_track_link() {
    let k = patterns().classify("https://open.spotify.com/track/4uLU6hMCjMI75M1A2tKUQC");
    match k {
        QueryKind::Spotify { link_type, id } => {
            assert_eq!(link_type.as_deref(), Some("track"));
            assert_eq!(id.as_deref(), Some("4uLU6hMCjMI75M1A2tKUQC"));
        }
        other => panic!("unexpected {:?}", other),
    }
}

#[test]
fn spotify_album_link_with_query_string() {
    let k = patterns().classify("https://open.spotify.com/album/1DFixLWuPkv3KT3TnV35m3?si=abc");
    match k {
        QueryKind::Spotify { link_type, id } => {
            assert_eq!(link_type.as_deref(), Some("album"));
            assert_eq!(id.as_deref(), Some("1DFixLWuPkv3KT3TnV35m3"));
        }
        other => panic!("unexpected {:?}", other),
    }
}

#[test]
fn spotify_uri_has_no_named_groups() {
    let k = patterns().classify("spotify:track:4uLU6hMCjMI75M1A2tKUQC");
    match k {
        QueryKind::Spotify { link_type, id } => {
            assert_eq!(link_type, None);
            assert_eq!(id, None);
        }
        other => panic!("unexpected {:?}", other),
    }
}

#[test]
fn youtube_links() {
    let p = patterns();
    assert!(matches!(p.classify("https://www.youtube.com/watch?v=dQw4w9WgXcQ"), QueryKind::YouTube));
    assert!(matches!(p.classify("http://youtube.com/watch?v=dQw4w9WgXcQ"), QueryKind::YouTube));
    assert!(matches!(p.classify("https://youtu.be/dQw4w9WgXcQ"), QueryKind::YouTube));
}

#[test]
fn words_otherwise() {
    let p = patterns();
    assert!(matches!(p.classify("never gonna give you up"), QueryKind::Words));
    assert!(matches!(p.classify("https://www.youtube.com/playlist?list=PL1"), QueryKind::Words));
    assert!(matches!(p.classify("https://example.com/track/1"), QueryKind::Words));
}

#[test]
fn track_ids() {
    let track = spotify_track_id("4uLU6hMCjMI75M1A2tKUQC").expect("valid id");
    assert_eq!(track.id_text(), "4uLU6hMCjMI75M1A2tKUQC");
    assert_eq!(rspotify::model::Id::id(track.track_id()), "4uLU6hMCjMI75M1A2tKUQC");
    assert!(spotify_track_id("abc-def").is_none());
    assert!(spotify_track_id("abc:def").is_none());
    assert_eq!(track_query("Get Lucky", "Daft Punk"), "Get Lucky - Daft Punk");
}

#[test]
fn words_are_searched_then_loaded() {
    let (stage, action) = SourceStage::start(QueryKind::Words, "get lucky");
    match action {
        SourceAction::SearchYouTube(q) => assert_eq!(q, "get lucky"),
        other => panic!("unexpected {:?}", other),
    }
    let ev = SourceEvent::SearchResult(Some("https://youtube.com/watch?v=x".to_string()));
    assert!(stage.accepts(&ev));
    let (stage, action) = stage.step(ev);
    match action {
        SourceAction::LoadAudio(u) => assert_eq!(u, "https://youtube.com/watch?v=x"),
        other => panic!("unexpected {:?}", other),
    }
    let (stage, action) = stage.step(SourceEvent::AudioLoaded(true));
    assert!(matches!(action, SourceAction::Finish(Some(Platform::YouTube))));
    assert!(matches!(stage, SourceStage::Done(Some(Platform::YouTube))));
    assert!(!stage.accepts(&SourceEvent::AudioLoaded(true)));
}

#[test]
fn failed_search_finishes_without_source() {
    let (stage, _) = SourceStage::start(QueryKind::Words, "nothing");
    let (_, action) = stage.step(SourceEvent::SearchResult(None));
    assert!(matches!(action, SourceAction::Finish(None)));
}

#[test]
fn youtube_link_is_loaded_directly() {
    let (stage, action) = SourceStage::start(QueryKind::YouTube, "https://youtu.be/x");
    match action {
        SourceAction::LoadAudio(u) => assert_eq!(u, "https://youtu.be/x"),
        other => panic!("unexpected {:?}", other),
    }
    let (_, action) = stage.step(SourceEvent::AudioLoaded(false));
    assert!(matches!(action, SourceAction::Finish(None)));
}

#[test]
fn spotify_track_goes_through_youtube() {
    let kind = QueryKind::Spotify { link_type: Some("track".to_string()), id: Some("4uLU6hMCjMI75M1A2tKUQC".to_string()) };
    let (stage, action) = SourceStage::start(kind, "https://open.spotify.com/track/4uLU6hMCjMI75M1A2tKUQC");
    assert!(matches!(action, SourceAction::CreateSpotifyClient));
    let (stage, action) = stage.step(SourceEvent::SpotifyClient(true));
    match &action {
        SourceAction::FetchSpotifyTrack(track) => {
            assert_eq!(track.id_text(), "4uLU6hMCjMI75M1A2tKUQC");
            assert_eq!(rspotify::model::Id::id(track.track_id()), "4uLU6hMCjMI75M1A2tKUQC");
        }
        other => panic!("unexpected {:?}", other),
    }
    let track = SpotifyTrack { name: "Get Lucky".to_string(), artist: "Daft Punk".to_string() };
    let (stage, action) = stage.step(SourceEvent::SpotifyTrack(Some(track)));
    match action {
        SourceAction::SearchYouTube(q) => assert_eq!(q, "Get Lucky - Daft Punk"),
        other => panic!("unexpected {:?}", other),
    }
    let (stage, _) = stage.step(SourceEvent::SearchResult(Some("u".to_string())));
    let (_, action) = stage.step(SourceEvent::AudioLoaded(true));
    assert!(matches!(action, SourceAction::Finish(Some(Platform::Spotify))));
}

#[test]
fn spotify_without_client_or_not_a_track() {
    let kind = QueryKind::Spotify { link_type: Some("track".to_string()), id: Some("a1".to_string()) };
    let (stage, _) = SourceStage::start(kind, "q");
    let (_, action) = stage.step(SourceEvent::SpotifyClient(false));
    assert!(matches!(action, SourceAction::Finish(None)));

    let kind = QueryKind::Spotify { link_type: Some("album".to_string()), id: Some("a1".to_string()) };
    let (stage, _) = SourceStage::start(kind, "q");
    let (_, action) = stage.step(SourceEvent::SpotifyClient(true));
    assert!(matches!(action, SourceAction::Finish(None)));

    let kind = QueryKind::Spotify { link_type: Some("track".to_string()), id: Some("a1".to_string()) };
    let (stage, _) = SourceStage::start(kind, "q");
    let (_, action) = stage.step(SourceEvent::SpotifyClient(true));
    assert!(matches!(action, SourceAction::FetchSpotifyTrack(ref t) if t.id_text() == "a1"));
    let (_, action) = SourceStage::AwaitingTrack.step(SourceEvent::SpotifyTrack(None));
    assert!(matches!(action, SourceAction::Finish(None)));
}

#[test]
fn undefined_reports_are_refused() {
    let uri = SourceStage::AwaitingClient { link_type: None, id: None };
    assert!(!uri.accepts(&SourceEvent::SpotifyClient(true)));
    assert!(uri.accepts(&SourceEvent::SpotifyClient(false)));
    let bad_id = SourceStage::AwaitingClient { link_type: Some("track".to_string()), id: Some("a-b".to_string()) };
    assert!(!bad_id.accepts(&SourceEvent::SpotifyClient(true)));
    let other = SourceStage::AwaitingClient { link_type: Some("user".to_string()), id: None };
    assert!(other.accepts(&SourceEvent::SpotifyClient(true)));
    assert!(!SourceStage::AwaitingTrack.accepts(&SourceEvent::AudioLoaded(true)));
}
