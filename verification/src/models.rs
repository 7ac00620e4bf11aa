//! The track model shared by every part of the application: what a media
//! player reports, enriched with metadata and cover artwork.
use crate::text::{
    ascii_eq_ignore_case, eq_ignore_ascii_case, is_substring, str_contains, to_lowercase,
    unicode_lowercase,
};
use vstd::prelude::*;

verus! {

/// A declared image of the `image` crate, carried through opaquely.
#[verifier::external_type_specification]
#[verifier::external_body]
pub struct ExDynamicImage(image::DynamicImage);

/// What `xxhash_rust::xxh3::xxh3_64` returns for a byte sequence.
pub uninterp spec fn xxh3_64_of(data: Seq<u8>) -> u64;

/// Calls `xxhash_rust::xxh3::xxh3_64`; its result is named: the 64-bit XXH3
/// hash of the bytes, with the default seed and secret.
#[verifier::external_body]
fn xxh3_64(data: &[u8]) -> (h: u64)
    ensures
        h == xxh3_64_of(data@),
{
    xxhash_rust::xxh3::xxh3_64(data)
}

/// The JPEG bytes of an image's thumbnail within the bounds, as
/// `jpeg_thumbnail` computes them: the image scaled by
/// `DynamicImage::thumbnail`, in RGB8 form, encoded by `JpegEncoder` at its
/// default quality.  Each step depends on the image's contents and the
/// bounds alone.
pub uninterp spec fn jpeg_thumbnail_of(image: image::DynamicImage, max_width: u32, max_height: u32) -> Seq<u8>;

/// Calls `image::DynamicImage::thumbnail(max_width, max_height)`, takes the
/// RGB8 form of the thumbnail (`to_rgb8`) and encodes it with
/// `image::codecs::jpeg::JpegEncoder::encode_image` into a vector; the bytes
/// are named.  In the crate's source the thumbnail's sides are the scaled
/// sides rounded and at least 1, so never above the bounds, and the encoder
/// refuses only a side of 0 or above 65535 (writing to a vector does not
/// fail): within those bounds the bytes come back.
#[verifier::external_body]
fn jpeg_thumbnail(image: &image::DynamicImage, max_width: u32, max_height: u32) -> (r: Option<Vec<u8>>)
    ensures
        1 <= max_width <= 65535 && 1 <= max_height <= 65535 ==> r is Some,
        r matches Some(b) ==> b@ == jpeg_thumbnail_of(*image, max_width, max_height),
{
    let rgb = image.thumbnail(max_width, max_height).to_rgb8();
    let mut buf: Vec<u8> = Vec::new();
    match image::codecs::jpeg::JpegEncoder::new(&mut buf).encode_image(&rgb) {
        Ok(()) => Some(buf),
        Err(_) => None,
    }
}

/// Whether `image::load_from_memory` decodes these bytes: it guesses the
/// format from the bytes and decodes them, so the outcome depends on the
/// bytes alone.
pub uninterp spec fn image_decodes(data: Seq<u8>) -> bool;

/// The image that `image::load_from_memory` decodes from these bytes,
/// where it decodes them: the format is guessed from the bytes and the
/// decoding depends on the bytes alone.
pub uninterp spec fn decoded_image_of(data: Seq<u8>) -> image::DynamicImage;

/// Calls `image::load_from_memory`; `None` where decoding fails.  Both the
/// outcome and the decoded image are named.
#[verifier::external_body]
fn decode_image(data: &[u8]) -> (r: Option<image::DynamicImage>)
    ensures
        r is Some == image_decodes(data@),
        r matches Some(img) ==> img == decoded_image_of(data@),
{
    image::load_from_memory(data).ok()
}

pub(crate) fn copy_bytes(v: &Vec<u8>) -> (r: Vec<u8>)
    ensures
        r@ == v@,
{
    let mut r: Vec<u8> = Vec::new();
    let mut i: usize = 0;
    while i < v.len()
        invariant
            i <= v.len(),
            r@ == v@.subrange(0, i as int),
        decreases v.len() - i,
    {
        r.push(v[i]);
        i = i + 1;
        assert(r@ =~= v@.subrange(0, i as int));
    }
    assert(v@.subrange(0, v.len() as int) =~= v@);
    r
}

pub(crate) fn copy_opt_string(o: &Option<String>) -> (r: Option<String>)
    ensures
        r.deep_view() == o.deep_view(),
{
    match o {
        Some(s) => Some(s.clone()),
        None => None,
    }
}

/// The text of an optional string, the empty text when it is absent.
pub open spec fn or_empty(o: Option<Seq<char>>) -> Seq<char> {
    match o {
        Some(s) => s,
        None => Seq::empty(),
    }
}

pub open spec fn default_artwork_url() -> Seq<char> {
    "default"@
}

/// The cover artwork of a track: encoded image bytes, a URL, or both.
#[derive(Debug, Clone)]
pub struct CoverArtwork {
    data: Option<Vec<u8>>,
    url: Option<String>,
}

pub struct CoverArtworkView {
    pub data: Option<Seq<u8>>,
    pub url: Option<Seq<char>>,
}

impl View for CoverArtwork {
    type V = CoverArtworkView;

    closed spec fn view(&self) -> CoverArtworkView {
        CoverArtworkView {
            data: match self.data {
                Some(d) => Some(d@),
                None => None,
            },
            url: self.url.deep_view(),
        }
    }
}

impl CoverArtwork {
    pub fn bytes(&self) -> (r: Option<&Vec<u8>>)
        ensures
            match r {
                Some(d) => self@.data == Some(d@),
                None => self@.data is None,
            },
    {
        match &self.data {
            Some(d) => Some(d),
            None => None,
        }
    }

    pub fn url(&self) -> (r: Option<&str>)
        ensures
            match r {
                Some(u) => self@.url == Some(u@),
                None => self@.url is None,
            },
    {
        match &self.url {
            Some(u) => Some(u.as_str()),
            None => None,
        }
    }

    pub fn from_url(url: String) -> (r: Self)
        ensures
            r@.data is None,
            r@.url == Some(url@),
    {
        CoverArtwork { data: None, url: Some(url) }
    }

    /// Artwork that is already JPEG-encoded image bytes.
    pub fn from_jpeg_bytes(data: Vec<u8>) -> (r: Self)
        ensures
            r@.data == Some(data@),
            r@.url is None,
    {
        CoverArtwork { data: Some(data), url: None }
    }

    /// The image scaled to fit 512x512 and encoded as JPEG.
    pub fn from_dynamic_image(image: &image::DynamicImage) -> (r: Self)
        ensures
            r@.data == Some(jpeg_thumbnail_of(*image, 512, 512)),
            r@.url is None,
    {
        let buf = jpeg_thumbnail(image, 512, 512).unwrap();
        CoverArtwork { data: Some(buf), url: None }
    }

    /// Decodes image bytes of any supported format and re-encodes them as a
    /// JPEG thumbnail; `None` exactly where the bytes do not decode.
    pub fn from_image_bytes(data: &[u8]) -> (r: Option<Self>)
        ensures
            r is Some == image_decodes(data@),
            r matches Some(a) ==> (a@.data == Some(jpeg_thumbnail_of(decoded_image_of(data@), 512, 512))
                && a@.url is None),
    {
        match decode_image(data) {
            Some(img) => Some(CoverArtwork::from_dynamic_image(&img)),
            None => None,
        }
    }

    /// The key under which an upload of these bytes is remembered: the XXH3
    /// hash of the image bytes, or `None` for artwork without bytes.
    pub fn upload_key(&self) -> (r: Option<u64>)
        ensures
            match self@.data {
                Some(d) => r == Some(xxh3_64_of(d)),
                None => r is None,
            },
    {
        match &self.data {
            Some(d) => Some(xxh3_64(d.as_slice())),
            None => None,
        }
    }

    pub fn copy(&self) -> (r: Self)
        ensures
            r@ == self@,
    {
        CoverArtwork {
            data: match &self.data {
                Some(d) => Some(copy_bytes(d)),
                None => None,
            },
            url: copy_opt_string(&self.url),
        }
    }
}

impl Default for CoverArtwork {
    fn default() -> (r: Self)
        ensures
            r@.data is None,
            r@.url == Some(default_artwork_url()),
    {
        CoverArtwork { data: None, url: Some(String::from_str("default")) }
    }
}

/// The (key, value) pairs put into a cache, oldest first: the value put in
/// last under the key, if any.  An insertion under a key replaces what the
/// cache held under it, so this is the only value a lookup can give back.
pub open spec fn latest_under<K, V>(given: Seq<(K, V)>, key: K) -> Option<V>
    decreases given.len(),
{
    if given.len() == 0 {
        None
    } else if given.last().0 == key {
        Some(given.last().1)
    } else {
        latest_under(given.drop_last(), key)
    }
}

/// A value put into a cache is the latest one under its key, and the latest
/// values under other keys do not change.
pub proof fn lemma_latest_after_insert<K, V>(given: Seq<(K, V)>, key: K, value: V, other: K)
    ensures
        latest_under(given.push((key, value)), key) == Some(value),
        other != key ==> latest_under(given.push((key, value)), other) == latest_under(given, other),
{
    assert(given.push((key, value)).drop_last() =~= given);
}

/// Pairs put in later under other keys leave the latest value under a key
/// as it was.
pub proof fn lemma_latest_skips_other_keys<K, V>(given: Seq<(K, V)>, later: Seq<(K, V)>, key: K)
    requires
        forall|i: int| 0 <= i < later.len() ==> (#[trigger] later[i]).0 != key,
    ensures
        latest_under(given + later, key) == latest_under(given, key),
    decreases later.len(),
{
    if later.len() > 0 {
        let shorter = later.drop_last();
        assert((given + later).drop_last() =~= given + shorter);
        assert((given + later).last() == later.last());
        assert(later.last() == later[later.len() - 1]);
        assert forall|i: int| 0 <= i < shorter.len() implies (#[trigger] shorter[i]).0 != key by {
            assert(shorter[i] == later[i]);
        }
        lemma_latest_skips_other_keys(given, shorter, key);
    } else {
        assert(given + later =~= given);
    }
}

/// Every (key, URL) pair that was put into an upload cache, oldest first,
/// the URL taken by its view.  The cache keeps some of them (entries expire
/// and are evicted by its own policy); a lookup gives back only the URL put
/// in last under the key.
pub uninterp spec fn upload_cache_given(cache: mini_moka::sync::Cache<u64, String>) -> Seq<(u64, Seq<char>)>;

/// The entry limit that an upload cache was built with, as its
/// `policy().max_capacity()` reports it; it never changes.
pub uninterp spec fn upload_cache_max_capacity(cache: mini_moka::sync::Cache<u64, String>) -> Option<u64>;

/// The entry lifetime in seconds that an upload cache was built with, as its
/// `policy().time_to_live()` reports it; it never changes.
pub uninterp spec fn upload_cache_time_to_live_secs(cache: mini_moka::sync::Cache<u64, String>) -> Option<u64>;

/// Calls `mini_moka::sync::Cache::builder` with `max_capacity` and
/// `time_to_live` (in seconds) and builds the cache, whose policy then holds
/// these two limits.  The builder panics on a lifetime of more than 1000
/// years of 365 days, which `requires` leaves out.
#[verifier::external_body]
fn new_upload_cache(max_capacity: u64, time_to_live_secs: u64) -> (r: mini_moka::sync::Cache<u64, String>)
    requires
        time_to_live_secs <= 1000 * 365 * 24 * 3600,
    ensures
        upload_cache_given(r) == Seq::<(u64, Seq<char>)>::empty(),
        upload_cache_max_capacity(r) == Some(max_capacity),
        upload_cache_time_to_live_secs(r) == Some(time_to_live_secs),
{
    mini_moka::sync::Cache::builder()
        .max_capacity(max_capacity)
        .time_to_live(std::time::Duration::from_secs(time_to_live_secs))
        .build()
}

/// Calls `mini_moka::sync::Cache::get`, which gives back a clone of a URL
/// put in under the key, if the cache still keeps one.  Entries expire and
/// are evicted by the cache's own policy, so whether one comes back is not
/// stated.
#[verifier::external_body]
fn upload_cache_get(cache: &mini_moka::sync::Cache<u64, String>, key: u64) -> (r: Option<String>)
    ensures
        r matches Some(u) ==> latest_under(upload_cache_given(*cache), key) == Some(u@),
{
    cache.get(&key)
}

/// Calls `mini_moka::sync::Cache::insert`: the pair is put into the cache
/// (whether it stays is the cache's decision); its limits do not change.
#[verifier::external_body]
fn upload_cache_insert(cache: &mut mini_moka::sync::Cache<u64, String>, key: u64, url: String)
    ensures
        upload_cache_given(*final(cache)) == upload_cache_given(*old(cache)).push((key, url@)),
        upload_cache_max_capacity(*final(cache)) == upload_cache_max_capacity(*old(cache)),
        upload_cache_time_to_live_secs(*final(cache)) == upload_cache_time_to_live_secs(*old(cache)),
{
    cache.insert(key, url)
}

/// An uploaded image's URL, remembered under the hash of its bytes, is the
/// URL that a cached plan for the same bytes gives, as long as no other URL
/// is remembered under that hash in between.
pub proof fn lemma_upload_answered(
    before: Seq<(u64, Seq<char>)>,
    bytes: Seq<u8>,
    url: Seq<char>,
    later: Seq<(u64, Seq<char>)>,
)
    requires
        forall|i: int| 0 <= i < later.len() ==> (#[trigger] later[i]).0 != xxh3_64_of(bytes),
    ensures
        latest_under(before.push((xxh3_64_of(bytes), url)) + later, xxh3_64_of(bytes)) == Some(url),
{
    lemma_latest_after_insert(before, xxh3_64_of(bytes), url, xxh3_64_of(bytes));
    lemma_latest_skips_other_keys(before.push((xxh3_64_of(bytes), url)), later, xxh3_64_of(bytes));
}

/// What uploading a cover artwork takes.
pub enum UploadPlan {
    /// The artwork has no bytes: this default artwork stands for it.
    NoBytes(CoverArtwork),
    /// These bytes were uploaded lately: the artwork at the remembered URL.
    Cached(CoverArtwork),
    /// Upload the bytes, then remember the URL under this key.
    Upload { key: u64 },
}

/// The URLs of recently uploaded cover images (at most 100, for an hour),
/// by the hash of their bytes.
pub struct ArtworkUploads {
    cache: mini_moka::sync::Cache<u64, String>,
}

impl ArtworkUploads {
    /// Every (hash, URL) pair that was remembered, oldest first: a cached
    /// URL is always the one remembered last under its hash.
    pub closed spec fn remembered(&self) -> Seq<(u64, Seq<char>)> {
        upload_cache_given(self.cache)
    }

    /// The most entries the cache holds.
    pub closed spec fn max_capacity(&self) -> Option<u64> {
        upload_cache_max_capacity(self.cache)
    }

    /// How long, in seconds, an entry stays.
    pub closed spec fn time_to_live_secs(&self) -> Option<u64> {
        upload_cache_time_to_live_secs(self.cache)
    }

    /// An empty cache of at most 100 entries, each kept for an hour.
    pub fn new() -> (r: Self)
        ensures
            r.remembered() == Seq::<(u64, Seq<char>)>::empty(),
            r.max_capacity() == Some(100u64),
            r.time_to_live_secs() == Some(3600u64),
    {
        ArtworkUploads { cache: new_upload_cache(100, 3600) }
    }

    /// Artwork without bytes is answered with the default artwork; bytes
    /// uploaded lately give the artwork at a URL remembered under their XXH3
    /// hash; other bytes are to be uploaded under that hash.
    pub fn plan_upload(&self, artwork: &CoverArtwork) -> (r: UploadPlan)
        ensures
            match artwork@.data {
                None => r matches UploadPlan::NoBytes(a) && a@.data is None && a@.url == Some(
                    default_artwork_url(),
                ),
                Some(d) => match r {
                    UploadPlan::NoBytes(_) => false,
                    UploadPlan::Cached(a) => {
                        &&& a@.data is None
                        &&& a@.url matches Some(u) && latest_under(self.remembered(), xxh3_64_of(d)) == Some(u)
                    },
                    UploadPlan::Upload { key } => key == xxh3_64_of(d),
                },
            },
    {
        match artwork.upload_key() {
            None => UploadPlan::NoBytes(CoverArtwork::default()),
            Some(key) => match upload_cache_get(&self.cache, key) {
                Some(url) => UploadPlan::Cached(CoverArtwork::from_url(url)),
                None => UploadPlan::Upload { key },
            },
        }
    }

    /// Remembers the URL of uploaded bytes under their key.
    pub fn remember(&mut self, key: u64, url: String)
        ensures
            final(self).remembered() == old(self).remembered().push((key, url@)),
            final(self).max_capacity() == old(self).max_capacity(),
            final(self).time_to_live_secs() == old(self).time_to_live_secs(),
    {
        upload_cache_insert(&mut self.cache, key, url)
    }
}

/// How a media player describes the artwork of a track.
pub enum ArtworkSource {
    Url { url: String },
    Bytes { mime: Option<String>, data: Vec<u8> },
}

/// What turning an [`ArtworkSource`] into cover artwork takes.
pub enum ArtworkPlan {
    /// Read and re-encode the image file at this path.
    LocalFile(String),
    /// Use the URL as it is.
    Remote(String),
    /// Decode the bytes (not JPEG) and re-encode them as JPEG.
    Reencode(Vec<u8>),
    /// The bytes are JPEG already.
    Jpeg(Vec<u8>),
}

pub open spec fn file_scheme() -> Seq<char> {
    "file://"@
}

pub open spec fn jpeg_mime() -> Seq<char> {
    "image/jpeg"@
}

/// Decides how to obtain cover artwork from what the player reported: a
/// `file://` URL names a local image (every leading `file://` is dropped
/// from the path), another URL is used as is, bytes of a declared type other
/// than `image/jpeg` are re-encoded, and other bytes are kept.
pub fn plan_artwork(source: ArtworkSource) -> (r: ArtworkPlan)
    ensures
        match source {
            ArtworkSource::Url { url } => if crate::text::has_prefix(url@, file_scheme()) {
                r matches ArtworkPlan::LocalFile(p) && p@ == crate::text::trim_start_matches(
                    url@,
                    file_scheme(),
                )
            } else {
                r matches ArtworkPlan::Remote(u) && u@ == url@
            },
            ArtworkSource::Bytes { mime, data } => if mime matches Some(m) && m@ != jpeg_mime() {
                r matches ArtworkPlan::Reencode(d) && d@ == data@
            } else {
                r matches ArtworkPlan::Jpeg(d) && d@ == data@
            },
        },
{
    match source {
        ArtworkSource::Url { url } => {
            let chars = crate::text::chars_of(url.as_str());
            let scheme = crate::text::chars_of("file://");
            if crate::text::starts_with_chars(&chars, &scheme) {
                let path = crate::text::trim_start_matches_chars(&chars, &scheme);
                ArtworkPlan::LocalFile(crate::text::string_of(path.as_slice()))
            } else {
                ArtworkPlan::Remote(url)
            }
        },
        ArtworkSource::Bytes { mime, data } => {
            let reencode = match &mime {
                Some(m) => {
                    let jpeg = String::from_str("image/jpeg");
                    !(*m == jpeg)
                },
                None => false,
            };
            if reencode {
                ArtworkPlan::Reencode(data)
            } else {
                ArtworkPlan::Jpeg(data)
            }
        },
    }
}

/// What is known of a track: the player's report, possibly enriched.
#[derive(Debug, Clone)]
pub struct MediaInfo {
    pub title: Option<String>,
    pub album: Option<String>,
    pub artist: Option<String>,
    pub elapsed_time: Option<u32>,
    pub cover_artwork: Option<CoverArtwork>,
    pub is_playing: bool,
    pub duration: Option<u32>,
    pub isrc: Option<String>,
    pub player_name: Option<String>,
}

pub struct MediaInfoView {
    pub title: Option<Seq<char>>,
    pub album: Option<Seq<char>>,
    pub artist: Option<Seq<char>>,
    pub elapsed_time: Option<u32>,
    pub cover_artwork: Option<CoverArtworkView>,
    pub is_playing: bool,
    pub duration: Option<u32>,
    pub isrc: Option<Seq<char>>,
    pub player_name: Option<Seq<char>>,
}

impl View for MediaInfo {
    type V = MediaInfoView;

    open spec fn view(&self) -> MediaInfoView {
        MediaInfoView {
            title: self.title.deep_view(),
            album: self.album.deep_view(),
            artist: self.artist.deep_view(),
            elapsed_time: self.elapsed_time,
            cover_artwork: match self.cover_artwork {
                Some(c) => Some(c@),
                None => None,
            },
            is_playing: self.is_playing,
            duration: self.duration,
            isrc: self.isrc.deep_view(),
            player_name: self.player_name.deep_view(),
        }
    }
}

/// The players that are web browsers, compared without ASCII case.
pub open spec fn browser_names() -> Seq<Seq<char>> {
    seq![
        "chrome"@,
        "firefox"@,
        "safari"@,
        "msedge"@,
        "brave"@,
        "vivaldi"@,
        "helium"@,
        "opera"@,
        "orion"@,
        "chromium"@,
    ]
}

pub const BROWSER_COUNT: usize = 10;

/// The browser name at position `i` of [`browser_names`].
pub fn browser_name(i: usize) -> (r: &'static str)
    requires
        i < BROWSER_COUNT,
    ensures
        r@ == browser_names()[i as int],
{
    match i {
        0 => "chrome",
        1 => "firefox",
        2 => "safari",
        3 => "msedge",
        4 => "brave",
        5 => "vivaldi",
        6 => "helium",
        7 => "opera",
        8 => "orion",
        _ => "chromium",
    }
}

/// Whether a player name is one of the browsers.
pub open spec fn is_browser_name(name: Seq<char>) -> bool {
    exists|i: int| 0 <= i < browser_names().len() && ascii_eq_ignore_case(#[trigger] browser_names()[i], name)
}

pub open spec fn is_apple_music_name(name: Seq<char>) -> bool {
    is_substring("apple"@, unicode_lowercase(name)) && is_substring("music"@, unicode_lowercase(name))
}

impl MediaInfo {
    pub fn title(&self) -> (r: &str)
        ensures
            r@ == or_empty(self@.title),
    {
        match &self.title {
            Some(t) => t.as_str(),
            None => {
                proof {
                    reveal_strlit("");
                }
                ""
            },
        }
    }

    pub fn artist(&self) -> (r: &str)
        ensures
            r@ == or_empty(self@.artist),
    {
        match &self.artist {
            Some(t) => t.as_str(),
            None => {
                proof {
                    reveal_strlit("");
                }
                ""
            },
        }
    }

    pub fn album(&self) -> (r: &str)
        ensures
            r@ == or_empty(self@.album),
    {
        match &self.album {
            Some(t) => t.as_str(),
            None => {
                proof {
                    reveal_strlit("");
                }
                ""
            },
        }
    }

    /// Whether the player's name, lowercased, holds both "apple" and "music".
    pub fn is_apple_music(&self) -> (r: bool)
        ensures
            r == match self@.player_name {
                Some(n) => is_apple_music_name(n),
                None => false,
            },
    {
        match &self.player_name {
            Some(name) => {
                let lower = to_lowercase(name.as_str());
                str_contains(lower.as_str(), "apple") && str_contains(lower.as_str(), "music")
            },
            None => false,
        }
    }

    /// Whether the player is a web browser: its name equals one of the
    /// browser names when ASCII case is ignored.
    pub fn is_browser(&self) -> (r: bool)
        ensures
            r == match self@.player_name {
                Some(n) => is_browser_name(n),
                None => false,
            },
    {
        match &self.player_name {
            Some(name) => {
                let mut i: usize = 0;
                while i < BROWSER_COUNT
                    invariant
                        i <= BROWSER_COUNT,
                        self@.player_name == Some(name@),
                        forall|j: int|
                            0 <= j < i ==> !ascii_eq_ignore_case(
                                #[trigger] browser_names()[j],
                                name@,
                            ),
                    decreases BROWSER_COUNT - i,
                {
                    if eq_ignore_ascii_case(browser_name(i), name.as_str()) {
                        assert(ascii_eq_ignore_case(browser_names()[i as int], name@));
                        return true;
                    }
                    i = i + 1;
                }
                false
            },
            None => false,
        }
    }

    pub fn copy(&self) -> (r: Self)
        ensures
            r@ == self@,
    {
        MediaInfo {
            title: copy_opt_string(&self.title),
            album: copy_opt_string(&self.album),
            artist: copy_opt_string(&self.artist),
            elapsed_time: self.elapsed_time,
            cover_artwork: match &self.cover_artwork {
                Some(c) => Some(c.copy()),
                None => None,
            },
            is_playing: self.is_playing,
            duration: self.duration,
            isrc: copy_opt_string(&self.isrc),
            player_name: copy_opt_string(&self.player_name),
        }
    }
}

impl Default for MediaInfo {
    fn default() -> (r: Self)
        ensures
            r@.title is None,
            r@.album is None,
            r@.artist is None,
            r@.elapsed_time is None,
            r@.cover_artwork is None,
            !r@.is_playing,
            r@.duration is None,
            r@.isrc is None,
            r@.player_name is None,
    {
        MediaInfo {
            title: None,
            album: None,
            artist: None,
            elapsed_time: None,
            cover_artwork: None,
            player_name: None,
            is_playing: false,
            duration: None,
            isrc: None,
        }
    }
}

} // verus!
