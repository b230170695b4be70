use disco_rs::search::{
    pick_search_result, search_url, select_video, title_matches, video_url, Candidate,
    SearchItem, WordPattern,
};

fn words(ws: &[&str]) -> Vec<String> {
    ws.iter().map(|w| w.to_string()).collect()
}

fn symbols() -> WordPattern {
    WordPattern::new().expect("symbol pattern compiles")
}

#[test]
fn half_of_the_query_words_suffice() {
    let q = words(&["never", "gonna", "give", "you"]);
    assert!(title_matches(&q, &words(&["never", "gonna"])));
    assert!(!title_matches(&q, &words(&["never", "again"])));
}

#[test]
fn one_shared_word_is_always_needed() {
    assert!(!title_matches(&words(&["song"]), &words(&["other"])));
    assert!(title_matches(&words(&["song"]), &words(&["a", "song"])));
    assert!(!title_matches(&words(&[]), &words(&["a", "song"])));
}

#[test]
fn repeated_words_count_as_pairs() {
    let q = words(&["la", "x", "y", "z"]);
    assert!(title_matches(&q, &words(&["la", "la"])));
    assert!(!title_matches(&q, &words(&["la"])));
}

#[test]
fn first_matching_result_decides() {
    let q = words(&["blue", "sky"]);
    let cands = vec![
        Candidate { title_words: None, video_id: Some("a".to_string()) },
        Candidate { title_words: Some(words(&["red", "sea"])), video_id: Some("b".to_string()) },
        Candidate { title_words: Some(words(&["blue", "moon"])), video_id: Some("c".to_string()) },
        Candidate { title_words: Some(words(&["blue", "sky"])), video_id: Some("d".to_string()) },
    ];
    assert_eq!(select_video(&q, &cands), Some("https://youtube.com/watch?v=c".to_string()));
}

#[test]
fn matching_result_without_id_ends_the_search() {
    let q = words(&["blue", "sky"]);
    let cands = vec![
        Candidate { title_words: Some(words(&["blue"])), video_id: None },
        Candidate { title_words: Some(words(&["blue", "sky"])), video_id: Some("d".to_string()) },
    ];
    assert_eq!(select_video(&q, &cands), None);
}

#[test]
fn no_matching_result() {
    let q = words(&["blue", "sky"]);
    let cands = vec![Candidate { title_words: Some(words(&["green"])), video_id: Some("x".to_string()) }];
    assert_eq!(select_video(&q, &cands), None);
    assert_eq!(select_video(&q, &vec![]), None);
}

#[test]
fn words_are_lowered_stripped_and_split() {
    let p = symbols();
    assert_eq!(p.search_words("Hello, World"), words(&["hello", "world"]));
    assert_eq!(p.search_words("AC/DC - Back In Black"), words(&["acdc", "back", "in", "black"]));
    assert_eq!(p.search_words("  rock'n'roll (live)  "), words(&["rocknroll", "live"]));
    assert_eq!(p.search_words("what? ~yes~ {ok} !"), words(&["what", "yes", "ok", "!"]));
    assert_eq!(p.search_words(""), words(&[]));
}

#[test]
fn search_result_end_to_end() {
    let p = symbols();
    let items = vec![
        SearchItem { title: Some("Totally Unrelated".to_string()), video_id: Some("zzz".to_string()) },
        SearchItem { title: None, video_id: Some("nnn".to_string()) },
        SearchItem { title: Some("Daft Punk - Get Lucky (Official Video)".to_string()), video_id: Some("5NV6Rdv1a3I".to_string()) },
    ];
    assert_eq!(
        pick_search_result("Get Lucky - Daft Punk", &items, &p),
        Some("https://youtube.com/watch?v=5NV6Rdv1a3I".to_string())
    );
    assert_eq!(pick_search_result("Something Else Entirely", &items, &p), None);
}

#[test]
fn urls() {
    assert_eq!(video_url("abc"), "https://youtube.com/watch?v=abc");
    assert_eq!(
        search_url("daft punk", "KEY"),
        "https://www.googleapis.com/youtube/v3/search?part=snippet&maxResults=5&q=daft punk&type=video&key=KEY"
    );
}
