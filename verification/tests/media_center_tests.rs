use dotsong::media_center::{
    classify_event, is_playing, media_info_equal, scrobble_step, settle_lookup, tick_track, tick_wait,
    wants_artwork_upload, EventDecision, ScrobbleAction, TickWait, TrackUpdateEvent, TICK_SECS,
};
use dotsong::models::{CoverArtwork, MediaInfo};
use std::sync::Arc;

fn info(title: &str, artist: &str, elapsed: Option<u32>, duration: Option<u32>, playing: bool) -> MediaInfo {
    MediaInfo {
        title: Some(title.to_string()),
        album: None,
        artist: Some(artist.to_string()),
        elapsed_time: elapsed,
        cover_artwork: None,
        is_playing: playing,
        duration,
        isrc: None,
        player_name: Some("spotify".to_string()),
    }
}

#[test]
fn same_track_needs_a_position_past_zero() {
    let a = info("Song", "Artist", Some(10), Some(100), true);
    let b = info("SONG", "artist", Some(20), Some(100), false);
    assert!(media_info_equal(Some(&a), &b));
    assert!(!media_info_equal(None, &b));
    let c = info("Song", "Artist", Some(0), Some(100), true);
    assert!(!media_info_equal(Some(&a), &c));
    let d = info("Other", "Artist", Some(20), Some(100), true);
    assert!(!media_info_equal(Some(&a), &d));
    let mut e = info("Song", "Artist", Some(5), None, true);
    e.title = None;
    assert!(!media_info_equal(Some(&a), &e));
}

#[test]
fn empty_and_browser_events_are_ignored() {
    let mut m = info("", "", Some(1), None, true);
    assert!(matches!(classify_event(None, m.copy(), true), EventDecision::Ignore));
    m.artist = None;
    m.title = None;
    assert!(matches!(classify_event(None, m, true), EventDecision::Ignore));
    let mut b = info("Song", "Artist", Some(1), None, true);
    b.player_name = Some("Firefox".to_string());
    assert!(matches!(classify_event(None, b.copy(), false), EventDecision::Ignore));
    assert!(matches!(classify_event(None, b, true), EventDecision::Lookup(_)));
}

#[test]
fn same_track_keeps_the_enriched_metadata() {
    let mut last = info("Song", "Artist", Some(10), Some(100), true);
    last.album = Some("Enriched Album".to_string());
    last.isrc = Some("ISRC".to_string());
    last.cover_artwork = Some(CoverArtwork::from_url("https://x".to_string()));
    let report = info("song", "ARTIST", Some(30), None, true);
    match classify_event(Some(&last), report, true) {
        EventDecision::Update(TrackUpdateEvent::PositionChanged(t)) => {
            assert_eq!(t.elapsed_time, Some(30));
            assert_eq!(t.album.as_deref(), Some("Enriched Album"));
            assert_eq!(t.isrc.as_deref(), Some("ISRC"));
            assert_eq!(t.duration, Some(100));
            assert_eq!(t.title.as_deref(), Some("Song"));
        }
        _ => panic!("expected a position change"),
    }
    let paused = info("Song", "Artist", Some(31), None, false);
    match classify_event(Some(&last), paused, true) {
        EventDecision::Update(TrackUpdateEvent::PlaybackStateChange(t)) => {
            assert!(!t.is_playing);
            assert_eq!(t.elapsed_time, Some(31));
        }
        _ => panic!("expected a playback state change"),
    }
}

#[test]
fn new_tracks_lose_the_topic_suffix() {
    let m = info("Song", "Band - Topic - Topic", Some(0), None, true);
    match classify_event(None, m, false) {
        EventDecision::Lookup(t) => assert_eq!(t.artist.as_deref(), Some("Band - Topic")),
        _ => panic!("expected a lookup"),
    }
}

#[test]
fn unmatched_browser_events_are_dropped() {
    let mut b = info("Song", "Artist", None, None, true);
    b.player_name = Some("chrome".to_string());
    assert!(settle_lookup(b.copy(), None).is_none());
    let enriched = info("E", "F", None, None, true);
    assert_eq!(settle_lookup(b, Some(enriched)).unwrap().title.as_deref(), Some("E"));
    let p = info("Song", "Artist", None, None, true);
    assert_eq!(settle_lookup(p, None).unwrap().title.as_deref(), Some("Song"));
}

#[test]
fn artwork_upload_decision() {
    let mut m = info("Song", "Artist", None, None, true);
    m.cover_artwork = Some(CoverArtwork::from_jpeg_bytes(vec![1]));
    assert!(wants_artwork_upload(&m, true));
    assert!(!wants_artwork_upload(&m, false));
    m.cover_artwork = Some(CoverArtwork::from_url("u".to_string()));
    assert!(!wants_artwork_upload(&m, true));
    m.cover_artwork = None;
    assert!(!wants_artwork_upload(&m, true));
}

#[test]
fn ticker_ticks_every_five_seconds_while_playing() {
    assert_eq!(TICK_SECS, 5);
    assert!(matches!(tick_wait(None), TickWait::UntilNotified));
    let t = info("Song", "Artist", Some(30), Some(200), true);
    assert!(matches!(tick_wait(Some(&t)), TickWait::Seconds(5)));
    let t = info("Song", "Artist", Some(150), Some(200), true);
    assert!(matches!(tick_wait(Some(&t)), TickWait::Seconds(5)));
    let t = info("Song", "Artist", Some(30), Some(200), false);
    assert!(matches!(tick_wait(Some(&t)), TickWait::UntilNotified));
}

#[test]
fn ticks_bring_the_position_up_to_date() {
    let t = info("Song", "Artist", Some(30), Some(201), true);
    let moved = tick_track(Some(&t), 5).unwrap();
    assert_eq!(moved.elapsed_time, Some(35));
    assert_eq!(moved.title.as_deref(), Some("Song"));
    let unknown = info("Song", "Artist", None, None, true);
    assert_eq!(tick_track(Some(&unknown), 5).unwrap().elapsed_time, Some(5));
    let late = info("Song", "Artist", Some(u32::MAX - 1), Some(201), true);
    assert_eq!(tick_track(Some(&late), 5).unwrap().elapsed_time, Some(u32::MAX));
    let paused = info("Song", "Artist", Some(30), Some(200), false);
    assert!(tick_track(Some(&paused), 5).is_none());
    assert!(tick_track(None, 5).is_none());
    assert!(is_playing(Some(&t)));
    assert!(!is_playing(Some(&paused)));
    assert!(!is_playing(None));
}

#[test]
fn scrobbling_follows_the_track() {
    let mut last: Option<MediaInfo> = None;
    let new = TrackUpdateEvent::NewTrack(Arc::new(info("Song", "Artist", Some(0), Some(200), true)));
    assert_eq!(scrobble_step(&mut last, &new), ScrobbleAction::NowPlaying);
    assert!(last.is_none());
    let early = TrackUpdateEvent::PositionChanged(Arc::new(info("Song", "Artist", Some(20), Some(200), true)));
    assert_eq!(scrobble_step(&mut last, &early), ScrobbleAction::NowPlaying);
    assert_eq!(last.as_ref().unwrap().elapsed_time, Some(20));
    let later = TrackUpdateEvent::PositionChanged(Arc::new(info("Song", "Artist", Some(40), Some(200), true)));
    assert_eq!(scrobble_step(&mut last, &later), ScrobbleAction::Nothing);
    let half = TrackUpdateEvent::Tick(Arc::new(info("Song", "Artist", Some(100), Some(200), true)));
    assert_eq!(scrobble_step(&mut last, &half), ScrobbleAction::Scrobble);
    let after = TrackUpdateEvent::PositionChanged(Arc::new(info("song", "artist", Some(150), Some(200), true)));
    assert_eq!(scrobble_step(&mut last, &after), ScrobbleAction::Nothing);
    assert_eq!(last.as_ref().unwrap().elapsed_time, Some(100));
    let state = TrackUpdateEvent::PlaybackStateChange(Arc::new(info("Song", "Artist", Some(150), Some(200), false)));
    assert_eq!(scrobble_step(&mut last, &state), ScrobbleAction::Nothing);
    let next = TrackUpdateEvent::PositionChanged(Arc::new(info("Next", "Artist", Some(120), Some(200), true)));
    assert_eq!(scrobble_step(&mut last, &next), ScrobbleAction::Scrobble);
    let no_progress = TrackUpdateEvent::PositionChanged(Arc::new(info("Next", "Artist", None, Some(200), true)));
    assert_eq!(scrobble_step(&mut last, &no_progress), ScrobbleAction::Nothing);
    assert_eq!(last.as_ref().unwrap().title.as_deref(), Some("Next"));
}

#[test]
fn a_tick_scrobbles_a_track_once() {
    let mut playing = info("Song", "Artist", Some(85), Some(180), true);
    let mut last = None;
    let mut scrobbles = 0;
    for _ in 0..10 {
        let ticked = tick_track(Some(&playing), TICK_SECS).unwrap();
        let tick = TrackUpdateEvent::Tick(Arc::new(ticked.copy()));
        if scrobble_step(&mut last, &tick) == ScrobbleAction::Scrobble {
            scrobbles += 1;
        }
        playing = ticked;
    }
    assert_eq!(playing.elapsed_time, Some(135));
    assert_eq!(scrobbles, 1);
}
