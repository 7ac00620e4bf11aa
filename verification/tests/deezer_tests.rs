use dotsong::deezer_api::{DeezerAlbum, DeezerArtist, DeezerClient, DeezerTrack, SearchStart};
use dotsong::models::MediaInfo;

fn info(title: Option<&str>, album: Option<&str>, artist: Option<&str>, player: Option<&str>) -> MediaInfo {
    MediaInfo {
        title: title.map(|s| s.to_string()),
        album: album.map(|s| s.to_string()),
        artist: artist.map(|s| s.to_string()),
        elapsed_time: Some(12),
        cover_artwork: None,
        is_playing: true,
        duration: None,
        isrc: None,
        player_name: player.map(|s| s.to_string()),
    }
}

fn track(id: u64, title: &str, album: &str, artist: &str) -> DeezerTrack {
    DeezerTrack {
        id,
        title: title.to_string(),
        album: DeezerAlbum { id: id * 10, title: album.to_string(), cover_big: Some(format!("https://cdn/{}.jpg", id)) },
        artist: DeezerArtist { id: id * 100, name: artist.to_string() },
        isrc: Some(format!("ISRC{}", id)),
        duration: 200 + id,
    }
}

#[test]
fn search_query_cleans_and_encodes() {
    let m = info(Some("Song (feat. X)"), Some("Album"), Some("Artist - Topic"), None);
    assert_eq!(DeezerClient::search_query(&m), "Song%20Album%20Artist");
    let m = info(Some("Caf\u{e9}"), None, Some("A&B"), None);
    assert_eq!(DeezerClient::search_query(&m), "Caf%C3%A9%20%20A%26B");
    let m = info(None, None, None, None);
    assert_eq!(DeezerClient::search_query(&m), "%20%20");
}

#[test]
fn featuring_credits_run_to_the_end_of_their_line() {
    let m = info(Some("Defeat. me"), None, Some("A"), None);
    assert_eq!(DeezerClient::search_query(&m), "De%20%20A");
    let m = info(Some("Song ft. X\nLive feat.\u{3000}Y) end"), None, Some("A"), None);
    assert_eq!(DeezerClient::search_query(&m), "Song%20%0ALive%20%20A");
    let m = info(Some("Song ft.\nX"), None, Some("A"), None);
    assert_eq!(DeezerClient::search_query(&m), "Song%20%20A");
    let m = info(Some("Song (feat.)"), None, Some("A"), None);
    assert_eq!(DeezerClient::search_query(&m), "Song%20%28feat%2E%29%20%20A");
}

#[test]
fn selection_matches_title_artist_and_album() {
    let m = info(Some("Hello ft. Someone"), Some("Best Of"), Some("adele"), None);
    let found = vec![
        track(1, "Hello", "Other Album", "Adele"),
        track(2, "Goodbye", "Best Of", "Adele"),
        track(3, "HELLO", "best of (feat. Z)", "Adele & Friends"),
        track(4, "Hello", "Best Of", "Adele"),
    ];
    let chosen = DeezerClient::select_track(&m, false, &found).unwrap();
    assert_eq!(chosen.id, 3);
    assert_eq!(chosen.album.title, "best of (feat. Z)");
}

#[test]
fn selection_without_album_takes_first_title_artist_match() {
    let m = info(Some("Hello"), Some(""), Some("Adele"), None);
    let found = vec![track(1, "Hell", "A", "Adele"), track(2, "hello", "B", "The Adele Band"), track(3, "Hello", "C", "Adele")];
    assert_eq!(DeezerClient::select_track(&m, false, &found).unwrap().id, 2);
    let m = info(Some("Hello"), None, Some("Nobody"), None);
    assert!(DeezerClient::select_track(&m, false, &found).is_none());
    assert!(DeezerClient::select_track(&m, false, &Vec::new()).is_none());
}

#[test]
fn apple_music_selection_looks_for_the_album_in_the_artist_field() {
    let m = info(Some("Song"), None, Some("Some Artist Great Album"), Some("Apple Music"));
    let found = vec![track(1, "Song", "Other", "Some Artist"), track(2, "Song", "great album", "X")];
    assert_eq!(DeezerClient::select_track(&m, true, &found).unwrap().id, 2);
    let empty = info(Some("Song"), None, Some(""), Some("Apple Music"));
    assert!(DeezerClient::select_track(&empty, true, &found).is_none());
}

#[test]
fn enrichment_keeps_player_fields_and_fills_the_rest() {
    let mut m = info(Some("Hello"), Some(""), None, Some("spotify"));
    m.duration = Some(0);
    let t = track(7, "Hello (Remastered)", "25", "Adele");
    let e = DeezerClient::enrich_with(&m, &t);
    assert_eq!(e.title.as_deref(), Some("Hello"));
    assert_eq!(e.album.as_deref(), Some("25"));
    assert_eq!(e.artist.as_deref(), Some("Adele"));
    assert_eq!(e.duration, Some(207));
    assert_eq!(e.isrc.as_deref(), Some("ISRC7"));
    assert_eq!(e.elapsed_time, Some(12));
    assert!(e.is_playing);
    assert_eq!(e.player_name.as_deref(), Some("spotify"));
    assert_eq!(e.cover_artwork.unwrap().url(), Some("https://cdn/7.jpg"));

    let mut m2 = info(None, Some("Mine"), Some("Me"), None);
    m2.duration = Some(100);
    let mut t2 = track(8, "T", "Theirs", "Them");
    t2.album.cover_big = None;
    t2.duration = (1u64 << 32) + 5;
    let e2 = DeezerClient::enrich_with(&m2, &t2);
    assert_eq!(e2.title.as_deref(), Some("T"));
    assert_eq!(e2.album.as_deref(), Some("Mine"));
    assert_eq!(e2.artist.as_deref(), Some("Me"));
    assert_eq!(e2.duration, Some(100));
    assert_eq!(e2.cover_artwork.unwrap().url(), Some("default"));
    let mut m3 = info(None, None, None, None);
    m3.duration = None;
    assert_eq!(DeezerClient::enrich_with(&m3, &t2).duration, Some(5));
}

#[test]
fn apple_music_enrichment_splits_by_byte_count() {
    let m = info(Some("Song"), Some("Some Other Album"), Some("Adele  25 "), Some("Apple Music"));
    let t = track(1, "Song", "25", "Adele");
    let e = DeezerClient::enrich_with(&m, &t);
    assert_eq!(e.artist.as_deref(), Some("Adele"));
    assert_eq!(e.album.as_deref(), Some("25"));
    let m = info(Some("Song"), Some("\u{e9}\u{e9}x"), Some("\u{e9}\u{e9}x"), Some("Apple Music"));
    let t = track(2, "Song", "Fallback", "abc");
    let e = DeezerClient::enrich_with(&m, &t);
    assert_eq!(e.artist.as_deref(), Some("abc"));
    assert_eq!(e.album.as_deref(), Some("Fallback"));
}

#[test]
fn client_cache_round_trip() {
    let mut client = DeezerClient::new(10);
    let m = info(Some("Hello"), None, Some("Adele"), None);
    let q = DeezerClient::search_query(&m);
    assert!(client.cached_track(&q).is_none());
    match client.begin_search(&m) {
        SearchStart::Fetch(query) => assert_eq!(query, q),
        SearchStart::Cached(_) => panic!("nothing is cached yet"),
    }
    assert!(client.resolve_search(&m, false, None).is_none());
    assert!(client.cached_track(&q).is_none());
    assert!(client.resolve_search(&m, false, Some(&Vec::new())).is_none());
    assert!(client.cached_track(&q).is_none());
    let found = vec![track(1, "Hello", "25", "Adele")];
    let chosen = client.resolve_search(&m, false, Some(&found)).unwrap();
    assert_eq!(chosen.id, 1);
    assert_eq!(client.cached_track(&q).map(|t| t.id), Some(1));
    match client.begin_search(&m) {
        SearchStart::Cached(t) => assert_eq!(t.id, 1),
        SearchStart::Fetch(_) => panic!("expected the cached track"),
    }
    let other = info(Some("Other"), None, Some("Adele"), None);
    assert!(client.cached_track(&DeezerClient::search_query(&other)).is_none());
    let again = info(Some("Hello (feat. Someone)"), None, Some("Adele"), None);
    assert_eq!(DeezerClient::search_query(&again), q);
    let newer = vec![track(7, "Hello", "25", "Adele")];
    assert_eq!(client.resolve_search(&again, false, Some(&newer)).map(|t| t.id), Some(7));
    match client.begin_search(&m) {
        SearchStart::Cached(t) => assert_eq!(t.id, 7),
        SearchStart::Fetch(_) => panic!("expected the latest cached track"),
    }
}
