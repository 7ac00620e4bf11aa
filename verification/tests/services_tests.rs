use dotsong::config::{lastfm_track, Config, LastFMHost, ScrobbleRoute, Scrobbler, ScrobblerFormat};
use dotsong::lastfm_auth::{lastfm_auth_url, LIBREFM_API_BASE, LIBREFM_AUTH_URL};
use dotsong::listenbrainz::{unix_timestamp_of, ListenType, Scrobble};
use dotsong::models::MediaInfo;

fn track() -> MediaInfo {
    MediaInfo {
        title: Some("Title".to_string()),
        album: Some("Album".to_string()),
        artist: Some("Artist".to_string()),
        elapsed_time: Some(3),
        cover_artwork: None,
        is_playing: true,
        duration: Some(215),
        isrc: Some("USABC".to_string()),
        player_name: None,
    }
}

#[test]
fn listenbrainz_single_listen_payload() {
    let s = Scrobble::from_media_info_at(&track(), ListenType::Single, 1_700_000_000);
    assert_eq!(s.listen_type, ListenType::Single);
    assert_eq!(s.payload.len(), 1);
    let p = &s.payload[0];
    assert_eq!(p.listened_at, Some(1_700_000_000));
    assert_eq!(p.track_metadata.artist_name, "Artist");
    assert_eq!(p.track_metadata.track_name, "Title");
    assert_eq!(p.track_metadata.release_name, "Album");
    let a = &p.track_metadata.additional_info;
    assert_eq!(a.duration_ms, 215_000);
    assert_eq!(a.artist_names, vec!["Artist".to_string()]);
    assert_eq!(a.isrc.as_deref(), Some("USABC"));
    assert_eq!(a.submission_client, "dotsong");
    assert!(a.release_mbid.is_none() && a.artist_mbids.is_none() && a.recording_mbid.is_none());
}

#[test]
fn listenbrainz_playing_now_has_no_time() {
    let mut t = track();
    t.duration = None;
    t.artist = None;
    let s = Scrobble::from_media_info(&t, ListenType::PlayingNow);
    assert_eq!(s.payload[0].listened_at, None);
    assert_eq!(s.payload[0].track_metadata.additional_info.duration_ms, 0);
    assert_eq!(s.payload[0].track_metadata.artist_name, "");
    let big = MediaInfo { duration: Some(u32::MAX), ..track() };
    let s = Scrobble::from_media_info_at(&big, ListenType::PlayingNow, 0);
    assert_eq!(s.payload[0].track_metadata.additional_info.duration_ms, u32::MAX as i64 * 1000);
    let before = chrono::Utc::now().timestamp();
    let single = Scrobble::from_media_info(&track(), ListenType::Single);
    let at = single.payload[0].listened_at.unwrap();
    assert!(at >= before && at <= chrono::Utc::now().timestamp());
}

#[test]
fn scrobbler_routes_and_addresses() {
    let lb = Scrobbler::new("1".into(), "https://api.listenbrainz.org/1//".into(), "KEY".into(), ScrobblerFormat::ListenBrainz);
    assert_eq!(lb.route(), ScrobbleRoute::ListenBrainz);
    assert_eq!(lb.endpoint_base(), "https://api.listenbrainz.org/1");
    assert_eq!(lb.submit_listens_url(), "https://api.listenbrainz.org/1/submit-listens");
    assert_eq!(lb.authorization_header(), "Token KEY");
    assert_eq!(lb.id(), "1");
    assert_eq!(lb.api_key(), "KEY");
    assert_eq!(lb.endpoint_url(), "https://api.listenbrainz.org/1//");
    assert_eq!(lb.format(), ScrobblerFormat::ListenBrainz);
    let lf = Scrobbler::new("2".into(), "".into(), "S".into(), ScrobblerFormat::LastFM);
    assert_eq!(lf.route(), ScrobbleRoute::LastFm(LastFMHost::LastFM));
    let libre = Scrobbler::new("3".into(), "".into(), "S".into(), ScrobblerFormat::LibreFM);
    assert_eq!(libre.route(), ScrobbleRoute::LastFm(LastFMHost::LibreFM));
}

#[test]
fn lastfm_track_fields() {
    let t = lastfm_track(&track());
    assert_eq!((t.artist.as_str(), t.title.as_str(), t.album.as_str(), t.duration), ("Artist", "Title", "Album", 215));
    let empty = lastfm_track(&MediaInfo::default());
    assert_eq!((empty.artist.as_str(), empty.title.as_str(), empty.album.as_str(), empty.duration), ("", "", "", 0));
}

#[test]
fn default_config_is_all_off() {
    let c = Config::default();
    assert!(c.scrobblers.is_empty());
    assert!(!c.discord_rpc_enabled && !c.upload_cover_artwork && !c.allow_browsers);
}

#[test]
fn lastfm_authorization_url() {
    assert_eq!(lastfm_auth_url("k", "t"), "https://www.last.fm/api/auth/?api_key=k&token=t");
    assert_eq!(LIBREFM_API_BASE, "https://libre.fm/2.0/");
    assert_eq!(LIBREFM_AUTH_URL, "https://www.libre.fm/api/auth/");
}

#[test]
fn clock_readings_become_unix_seconds() {
    assert_eq!(unix_timestamp_of(Ok((1_700_000_000, 999_999_999))), 1_700_000_000);
    assert_eq!(unix_timestamp_of(Ok((0, 0))), 0);
    assert_eq!(unix_timestamp_of(Err((10, 0))), -10);
    assert_eq!(unix_timestamp_of(Err((10, 1))), -11);
    assert_eq!(unix_timestamp_of(Ok((u64::MAX, 0))), i64::MAX);
    assert_eq!(unix_timestamp_of(Err((u64::MAX, 1))), i64::MIN);
    let before_epoch = std::time::UNIX_EPOCH - std::time::Duration::new(10, 1);
    let chrono_time = chrono::DateTime::<chrono::Utc>::from(before_epoch).timestamp();
    assert_eq!(unix_timestamp_of(Err((10, 1))), chrono_time);
}
