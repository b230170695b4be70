use disco_rs::reply::{
    check_reply, formatted_reply, info_embed, source_reply, CHECK_REFUSED, SOURCE_NOT_FOUND, queue_reply, INFO_FIELDS, INFO_URL, skip_reply, stop_reply, voice_reply, TrackMetadata,
    EMBED_COLOR, EMPTY_QUEUE, NOT_IN_BOT_CHANNEL, NOT_IN_VOICE, NO_QUEUE, SKIPPED, SKIP_FAILED,
    STOPPED, YOUTUBE_BADGE, SPOTIFY_BADGE,
};
use disco_rs::source::Platform;
use disco_rs::voice::VoiceTarget;

#[test]
fn voice_replies() {
    assert_eq!(voice_reply(VoiceTarget::NotInVoice), Some(NOT_IN_VOICE));
    assert_eq!(voice_reply(VoiceTarget::OtherChannel), Some(NOT_IN_BOT_CHANNEL));
    assert_eq!(voice_reply(VoiceTarget::Join(1)), None);
    assert_eq!(NOT_IN_VOICE, "No estas en ningún canal de voz.");
}

#[test]
fn skip_and_stop_replies() {
    assert_eq!(skip_reply(true), SKIPPED);
    assert_eq!(skip_reply(false), SKIP_FAILED);
    assert_eq!(stop_reply(true), STOPPED);
    assert_eq!(stop_reply(false), NO_QUEUE);
}

#[test]
fn queue_listing() {
    let titles = vec!["First".to_string(), "Second".to_string(), "Third".to_string()];
    assert_eq!(queue_reply(&titles), "\n1. First\n2. Second\n3. Third");
    assert_eq!(queue_reply(&vec![]), EMPTY_QUEUE);
}

#[test]
fn long_queue_numbers() {
    let titles: Vec<String> = (0..12).map(|i| format!("t{}", i)).collect();
    let text = queue_reply(&titles);
    assert!(text.ends_with("\n10. t9\n11. t10\n12. t11"));
}

fn meta(title: Option<&str>) -> TrackMetadata {
    TrackMetadata {
        title: title.map(|t| t.to_string()),
        artist: Some("Daft Punk".to_string()),
        duration_secs: Some(248),
        source_url: Some("https://youtube.com/watch?v=5NV6Rdv1a3I".to_string()),
        thumbnail: None,
    }
}

#[test]
fn track_announcement() {
    let e = formatted_reply(&meta(Some("Get Lucky")), "https://cdn/avatar.png", Platform::YouTube);
    assert_eq!(e.title, "Get Lucky");
    assert_eq!(e.url, "https://youtube.com/watch?v=5NV6Rdv1a3I");
    assert_eq!(e.thumbnail, "");
    assert_eq!(e.author_name, "Agregó a la lista...");
    assert_eq!(e.author_icon, "https://cdn/avatar.png");
    assert_eq!(e.color, EMBED_COLOR);
    assert_eq!(e.fields.len(), 3);
    assert_eq!((e.fields[0].name.as_str(), e.fields[0].value.as_str()), ("Canal", "Daft Punk"));
    assert_eq!((e.fields[1].name.as_str(), e.fields[1].value.as_str()), ("Duración", "04:08"));
    assert_eq!((e.fields[2].name.as_str(), e.fields[2].value.as_str()), ("Plataforma", YOUTUBE_BADGE));
    assert!(e.fields.iter().all(|f| f.inline));
}

#[test]
fn announcement_defaults_and_badges() {
    let mut m = meta(None);
    m.artist = None;
    m.source_url = None;
    let e = formatted_reply(&m, "", Platform::Spotify);
    assert_eq!(e.title, "N/A");
    assert_eq!(e.url, "");
    assert_eq!(e.fields[0].value, "N/A");
    assert_eq!(e.fields[2].value, SPOTIFY_BADGE);
}

#[test]
fn long_titles_are_cut_to_128_bytes() {
    let long = "x".repeat(200);
    let e = formatted_reply(&meta(Some(&long)), "", Platform::YouTube);
    assert_eq!(e.title, "x".repeat(128));
    let accented = "é".repeat(100);
    let e = formatted_reply(&meta(Some(&accented)), "", Platform::YouTube);
    assert_eq!(e.title, "é".repeat(64));
}

#[test]
fn bot_description() {
    let e = info_embed("0.1.0", "abc123", "2023-01-01", "42", "https://cdn/bot.png");
    assert!(e.title.starts_with("DiscoRS"));
    assert_eq!(e.thumbnail, "https://cdn/bot.png");
    assert_eq!(e.url, INFO_URL);
    assert_eq!(e.footer_icon, "");
    assert_eq!(e.color, EMBED_COLOR);
    let values: Vec<(&str, &str, bool)> =
        e.fields.iter().map(|f| (f.name.as_str(), f.value.as_str(), f.inline)).collect();
    assert_eq!(
        values,
        vec![
            (INFO_FIELDS[0], "0.1.0", false),
            (INFO_FIELDS[1], "abc123", false),
            (INFO_FIELDS[2], "2023-01-01", false),
            (INFO_FIELDS[3], "42", false),
        ]
    );
}

#[test]
fn check_and_source_replies() {
    assert_eq!(check_reply(true), None);
    assert_eq!(check_reply(false), Some(CHECK_REFUSED));
    assert_eq!(source_reply(Some(Platform::YouTube)), None);
    assert_eq!(source_reply(Some(Platform::Spotify)), None);
    assert_eq!(source_reply(None), Some(SOURCE_NOT_FOUND));
}
