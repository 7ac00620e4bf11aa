use dotsong::models::{plan_artwork, ArtworkPlan, ArtworkSource, ArtworkUploads, CoverArtwork, MediaInfo, UploadPlan};

fn info(title: Option<&str>, artist: Option<&str>, player: Option<&str>) -> MediaInfo {
    MediaInfo {
        title: title.map(|s| s.to_string()),
        album: None,
        artist: artist.map(|s| s.to_string()),
        elapsed_time: None,
        cover_artwork: None,
        is_playing: false,
        duration: None,
        isrc: None,
        player_name: player.map(|s| s.to_string()),
    }
}

#[test]
fn getters_read_empty_when_absent() {
    let m = info(Some("Title"), None, None);
    assert_eq!(m.title(), "Title");
    assert_eq!(m.artist(), "");
    assert_eq!(m.album(), "");
}

#[test]
fn default_media_info_is_empty() {
    let m = MediaInfo::default();
    assert!(m.title.is_none() && m.album.is_none() && m.artist.is_none());
    assert!(!m.is_playing);
    assert!(m.elapsed_time.is_none() && m.duration.is_none() && m.isrc.is_none());
    assert!(m.player_name.is_none() && m.cover_artwork.is_none());
}

#[test]
fn apple_music_is_detected_without_case() {
    assert!(info(None, None, Some("Apple Music")).is_apple_music());
    assert!(info(None, None, Some("AppleMusic.exe")).is_apple_music());
    assert!(!info(None, None, Some("Music")).is_apple_music());
    assert!(!info(None, None, None).is_apple_music());
}

#[test]
fn browsers_are_recognised_without_ascii_case() {
    assert!(info(None, None, Some("Firefox")).is_browser());
    assert!(info(None, None, Some("CHROMIUM")).is_browser());
    assert!(!info(None, None, Some("firefox-esr")).is_browser());
    assert!(!info(None, None, Some("spotify")).is_browser());
    assert!(!info(None, None, None).is_browser());
}

#[test]
fn artwork_from_url_gives_the_url_back() {
    let a = CoverArtwork::from_url("https://img/x.jpg".to_string());
    assert_eq!(a.url(), Some("https://img/x.jpg"));
    assert!(a.bytes().is_none());
    assert!(a.upload_key().is_none());
}

#[test]
fn default_artwork_points_at_default() {
    let a = CoverArtwork::default();
    assert_eq!(a.url(), Some("default"));
    assert!(a.bytes().is_none());
}

#[test]
fn upload_key_is_the_xxh3_hash_of_the_bytes() {
    let a = CoverArtwork::from_jpeg_bytes(vec![1, 2, 3]);
    assert_eq!(a.bytes(), Some(&vec![1u8, 2, 3]));
    assert!(a.url().is_none());
    assert_eq!(a.upload_key(), Some(xxhash_rust::xxh3::xxh3_64(&[1, 2, 3])));
    let b = CoverArtwork::from_jpeg_bytes(vec![1, 2, 4]);
    assert_ne!(a.upload_key(), b.upload_key());
    assert_eq!(CoverArtwork::from_jpeg_bytes(vec![]).upload_key(), Some(xxhash_rust::xxh3::xxh3_64(&[])));
}

#[test]
fn copies_keep_every_field() {
    let mut m = info(Some("t"), Some("a"), Some("p"));
    m.cover_artwork = Some(CoverArtwork::from_jpeg_bytes(vec![9, 8]));
    m.elapsed_time = Some(3);
    let c = m.copy();
    assert_eq!(c.title, m.title);
    assert_eq!(c.artist, m.artist);
    assert_eq!(c.player_name, m.player_name);
    assert_eq!(c.elapsed_time, Some(3));
    assert_eq!(c.cover_artwork.unwrap().bytes(), Some(&vec![9u8, 8]));
}

#[test]
fn artwork_plans() {
    match plan_artwork(ArtworkSource::Url { url: "file:///home/me/cover.png".to_string() }) {
        ArtworkPlan::LocalFile(p) => assert_eq!(p, "/home/me/cover.png"),
        _ => panic!("expected a local file"),
    }
    match plan_artwork(ArtworkSource::Url { url: "https://x/y.jpg".to_string() }) {
        ArtworkPlan::Remote(u) => assert_eq!(u, "https://x/y.jpg"),
        _ => panic!("expected a remote url"),
    }
    match plan_artwork(ArtworkSource::Bytes { mime: Some("image/png".to_string()), data: vec![1] }) {
        ArtworkPlan::Reencode(d) => assert_eq!(d, vec![1]),
        _ => panic!("expected re-encoding"),
    }
    match plan_artwork(ArtworkSource::Bytes { mime: Some("image/jpeg".to_string()), data: vec![2] }) {
        ArtworkPlan::Jpeg(d) => assert_eq!(d, vec![2]),
        _ => panic!("expected jpeg"),
    }
    match plan_artwork(ArtworkSource::Bytes { mime: None, data: vec![3] }) {
        ArtworkPlan::Jpeg(d) => assert_eq!(d, vec![3]),
        _ => panic!("expected jpeg"),
    }
}

#[test]
fn images_become_jpeg_thumbnails() {
    let img = image::DynamicImage::new_rgb8(1024, 256);
    let a = CoverArtwork::from_dynamic_image(&img);
    let bytes = a.bytes().unwrap();
    assert_eq!(&bytes[..2], &[0xFF, 0xD8]);
    let back = image::load_from_memory(bytes).unwrap();
    assert_eq!((back.width(), back.height()), (512, 128));
    assert!(a.url().is_none());
    assert!(CoverArtwork::from_image_bytes(&[0, 1, 2, 3]).is_none());
    let mut png = Vec::new();
    image::DynamicImage::new_rgb8(4, 4)
        .write_to(&mut std::io::Cursor::new(&mut png), image::ImageFormat::Png)
        .unwrap();
    let b = CoverArtwork::from_image_bytes(&png).unwrap();
    assert_eq!(&b.bytes().unwrap()[..2], &[0xFF, 0xD8]);
    let empty = CoverArtwork::from_dynamic_image(&image::DynamicImage::new_rgb8(0, 0));
    assert_eq!(&empty.bytes().unwrap()[..2], &[0xFF, 0xD8]);
    let decoded = image::load_from_memory(&png).unwrap();
    assert_eq!(b.bytes(), CoverArtwork::from_dynamic_image(&decoded).bytes());
    let mut expected = Vec::new();
    image::codecs::jpeg::JpegEncoder::new(&mut expected)
        .encode_image(&img.thumbnail(512, 512).to_rgb8())
        .unwrap();
    assert_eq!(a.bytes(), Some(&expected));
}

#[test]
fn upload_plans_follow_the_cache() {
    let mut uploads = ArtworkUploads::new();
    match uploads.plan_upload(&CoverArtwork::from_url("https://x.y/a.jpg".to_string())) {
        UploadPlan::NoBytes(a) => {
            assert_eq!(a.url(), Some("default"));
            assert!(a.bytes().is_none());
        }
        _ => panic!("expected the default artwork"),
    }
    let art = CoverArtwork::from_jpeg_bytes(vec![5, 6, 7]);
    let key = match uploads.plan_upload(&art) {
        UploadPlan::Upload { key } => key,
        _ => panic!("expected an upload"),
    };
    assert_eq!(key, xxhash_rust::xxh3::xxh3_64(&[5, 6, 7]));
    uploads.remember(key, "https://litter/x.jpg".to_string());
    match uploads.plan_upload(&art) {
        UploadPlan::Cached(a) => assert_eq!(a.url(), Some("https://litter/x.jpg")),
        _ => panic!("expected the remembered url"),
    }
    let other = CoverArtwork::from_jpeg_bytes(vec![8]);
    assert!(matches!(uploads.plan_upload(&other), UploadPlan::Upload { .. }));
    uploads.remember(key, "https://litter/y.jpg".to_string());
    match uploads.plan_upload(&art) {
        UploadPlan::Cached(a) => assert_eq!(a.url(), Some("https://litter/y.jpg")),
        _ => panic!("expected the latest url"),
    }
}
