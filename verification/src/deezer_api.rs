//! Matching a player's track against the Deezer search API, and enriching
//! the track with what Deezer knows of it.
use crate::models::{
    copy_opt_string, is_apple_music_name, latest_under, lemma_latest_after_insert,
    lemma_latest_skips_other_keys, or_empty, CoverArtwork, MediaInfo, MediaInfoView,
};
use crate::text::{
    chars_of, contains_chars, is_substring, string_of, to_lowercase, trim,
    trim_end_matches, trim_end_matches_chars, trim_str, unicode_lowercase,
};
use vstd::prelude::*;
use vstd::utf8::{decode_utf8, encode_utf8, is_char_boundary};

verus! {

#[derive(Debug, Clone)]
pub struct DeezerAlbum {
    pub id: u64,
    pub title: String,
    pub cover_big: Option<String>,
}

#[derive(Debug, Clone)]
pub struct DeezerArtist {
    pub id: u64,
    pub name: String,
}

/// A track of the Deezer catalogue; `duration` is in seconds.
#[derive(Debug, Clone)]
pub struct DeezerTrack {
    pub id: u64,
    pub title: String,
    pub album: DeezerAlbum,
    pub artist: DeezerArtist,
    pub isrc: Option<String>,
    pub duration: u64,
}

pub struct DeezerSearchResponse {
    pub data: Vec<DeezerTrack>,
}

pub struct DeezerTrackView {
    pub id: u64,
    pub title: Seq<char>,
    pub album_id: u64,
    pub album_title: Seq<char>,
    pub cover_big: Option<Seq<char>>,
    pub artist_id: u64,
    pub artist_name: Seq<char>,
    pub isrc: Option<Seq<char>>,
    pub duration: u64,
}

impl View for DeezerTrack {
    type V = DeezerTrackView;

    open spec fn view(&self) -> DeezerTrackView {
        DeezerTrackView {
            id: self.id,
            title: self.title@,
            album_id: self.album.id,
            album_title: self.album.title@,
            cover_big: self.album.cover_big.deep_view(),
            artist_id: self.artist.id,
            artist_name: self.artist.name@,
            isrc: self.isrc.deep_view(),
            duration: self.duration,
        }
    }
}

impl DeezerTrack {
    pub fn copy(&self) -> (r: Self)
        ensures
            r@ == self@,
    {
        DeezerTrack {
            id: self.id,
            title: self.title.clone(),
            album: DeezerAlbum {
                id: self.album.id,
                title: self.album.title.clone(),
                cover_big: copy_opt_string(&self.album.cover_big),
            },
            artist: DeezerArtist { id: self.artist.id, name: self.artist.name.clone() },
            isrc: copy_opt_string(&self.isrc),
            duration: self.duration,
        }
    }
}

pub open spec fn track_views(found: Seq<DeezerTrack>) -> Seq<DeezerTrackView> {
    found.map_values(|t: DeezerTrack| t@)
}

// ---------------------------------------------------------------------------
// Calls into outside crates
// ---------------------------------------------------------------------------

/// What `regex::Regex::new(pattern)` followed by `replace_all(haystack,
/// replacement)` returns: `None` where the pattern does not compile, else the
/// haystack with every non-overlapping match replaced.
pub uninterp spec fn regex_replace_all_of(
    pattern: Seq<char>,
    haystack: Seq<char>,
    replacement: Seq<char>,
) -> Option<Seq<char>>;

/// As [`regex_replace_all_of`], with `Regex::replace`: only the leftmost
/// match is replaced.
pub uninterp spec fn regex_replace_first_of(
    pattern: Seq<char>,
    haystack: Seq<char>,
    replacement: Seq<char>,
) -> Option<Seq<char>>;

/// Compiles `pattern` with `regex::Regex::new` and calls
/// `Regex::replace_all`; the result is named.  For the featuring pattern
/// with an empty replacement it is stated: the pattern compiles, and the
/// matches, found leftmost-first with `\s` as Unicode white space and `.`
/// as any character but a newline, are deleted (see [`without_featuring`]).
#[verifier::external_body]
fn regex_replace_all(pattern: &str, haystack: &str, replacement: &str) -> (r: Option<String>)
    ensures
        r.deep_view() == regex_replace_all_of(pattern@, haystack@, replacement@),
        pattern@ == featuring_pattern() && replacement@.len() == 0 ==> r.deep_view() == Some(
            without_featuring(haystack@),
        ),
{
    match regex::Regex::new(pattern) {
        Ok(re) => Some(re.replace_all(haystack, replacement).into_owned()),
        Err(_) => None,
    }
}

/// Compiles `pattern` with `regex::Regex::new` and calls `Regex::replace`;
/// the result is named.  For the featuring pattern with an empty
/// replacement it is stated as for [`regex_replace_all`], with only the
/// leftmost match deleted (see [`without_first_featuring`]).
#[verifier::external_body]
fn regex_replace_first(pattern: &str, haystack: &str, replacement: &str) -> (r: Option<String>)
    ensures
        r.deep_view() == regex_replace_first_of(pattern@, haystack@, replacement@),
        pattern@ == featuring_pattern() && replacement@.len() == 0 ==> r.deep_view() == Some(
            without_first_featuring(haystack@),
        ),
{
    match regex::Regex::new(pattern) {
        Ok(re) => Some(re.replace(haystack, replacement).into_owned()),
        Err(_) => None,
    }
}

/// What `unicase::eq(a, b)` returns: equality of the two texts after Unicode
/// case folding (plain ASCII case folding when both are ASCII).
pub uninterp spec fn unicase_eq_of(a: Seq<char>, b: Seq<char>) -> bool;

/// Calls `unicase::eq`.  The crate's source compares two ASCII texts with
/// `eq_ignore_ascii_case`, and otherwise compares their case-folded
/// characters, so equal texts always compare equal; the folding of other
/// texts is left to the name.
#[verifier::external_body]
pub(crate) fn unicase_eq(a: &str, b: &str) -> (r: bool)
    ensures
        r == unicase_eq_of(a@, b@),
        vstd::utf8::is_ascii_chars(a@) && vstd::utf8::is_ascii_chars(b@) ==> r
            == crate::text::ascii_eq_ignore_case(a@, b@),
        a@ == b@ ==> r,
{
    unicase::eq(a, b)
}

pub open spec fn hex_digit(n: u8) -> char {
    if n < 10 {
        (48 + n) as char
    } else {
        (55 + n) as char
    }
}

pub open spec fn is_ascii_alphanumeric_byte(b: u8) -> bool {
    (48 <= b <= 57) || (65 <= b <= 90) || (97 <= b <= 122)
}

/// One byte under the `NON_ALPHANUMERIC` set of `percent_encoding`: ASCII
/// letters and digits stay, every other byte becomes `%` and two uppercase
/// hexadecimal digits.
pub open spec fn percent_encode_byte(b: u8) -> Seq<char> {
    if is_ascii_alphanumeric_byte(b) {
        seq![b as char]
    } else {
        seq!['%', hex_digit(b / 16), hex_digit(b % 16)]
    }
}

pub open spec fn percent_encode_bytes(bytes: Seq<u8>) -> Seq<char>
    decreases bytes.len(),
{
    if bytes.len() == 0 {
        Seq::empty()
    } else {
        percent_encode_byte(bytes[0]) + percent_encode_bytes(bytes.drop_first())
    }
}

/// Calls `percent_encoding::utf8_percent_encode` with the `NON_ALPHANUMERIC`
/// set and collects the result: each byte of the UTF-8 encoding of `s`
/// encoded as [`percent_encode_byte`] states.
#[verifier::external_body]
fn percent_encode_non_alphanumeric(s: &str) -> (r: String)
    ensures
        r@ == percent_encode_bytes(encode_utf8(s@)),
{
    percent_encoding::utf8_percent_encode(s, percent_encoding::NON_ALPHANUMERIC).to_string()
}

/// The cache type of `mini_moka`, declared so that it can be held.
#[verifier::external_type_specification]
#[verifier::external_body]
#[verifier::reject_recursive_types(K)]
#[verifier::reject_recursive_types(V)]
#[verifier::reject_recursive_types(S)]
pub struct ExCache<K, V, S>(mini_moka::sync::Cache<K, V, S>);

/// Every (query, track) pair that was put into a track cache, oldest
/// first, each taken by its view.  The cache keeps some of them (it evicts
/// by its own policy); a lookup gives back only the track put in last under
/// the query.
pub uninterp spec fn track_cache_given(cache: mini_moka::sync::Cache<String, DeezerTrack>) -> Seq<
    (Seq<char>, DeezerTrackView),
>;

/// The entry limit that a track cache was built with, as its
/// `policy().max_capacity()` reports it; it never changes.
pub uninterp spec fn track_cache_max_capacity(cache: mini_moka::sync::Cache<String, DeezerTrack>) -> Option<u64>;

/// Whether a track cache was built with an entry lifetime, as its
/// `policy().time_to_live()` reports it; it never changes.
pub uninterp spec fn track_cache_expires(cache: mini_moka::sync::Cache<String, DeezerTrack>) -> bool;

/// Calls `mini_moka::sync::Cache::new`: an empty cache that holds at most
/// `max_capacity` entries, with no entry lifetime (its policy reports the
/// capacity and no time to live).
#[verifier::external_body]
fn new_track_cache(max_capacity: u64) -> (r: mini_moka::sync::Cache<String, DeezerTrack>)
    ensures
        track_cache_given(r) == Seq::<(Seq<char>, DeezerTrackView)>::empty(),
        track_cache_max_capacity(r) == Some(max_capacity),
        !track_cache_expires(r),
{
    mini_moka::sync::Cache::new(max_capacity)
}

/// Calls `mini_moka::sync::Cache::get`, which gives back a clone of a value
/// put in under an equal key, if the cache still keeps one.  The cache
/// evicts entries by its own policy at any time, so whether one comes back
/// is not stated.
#[verifier::external_body]
fn cache_get(cache: &mini_moka::sync::Cache<String, DeezerTrack>, key: &String) -> (r: Option<DeezerTrack>)
    ensures
        r matches Some(t) ==> latest_under(track_cache_given(*cache), key@) == Some(t@),
{
    cache.get(key)
}

/// Calls `mini_moka::sync::Cache::insert`: the pair is put into the cache
/// (whether it stays is the cache's decision); its limits do not change.
#[verifier::external_body]
fn cache_insert(cache: &mut mini_moka::sync::Cache<String, DeezerTrack>, key: String, value: DeezerTrack)
    ensures
        track_cache_given(*final(cache)) == track_cache_given(*old(cache)).push((key@, value@)),
        track_cache_max_capacity(*final(cache)) == track_cache_max_capacity(*old(cache)),
        track_cache_expires(*final(cache)) == track_cache_expires(*old(cache)),
{
    cache.insert(key, value)
}

// ---------------------------------------------------------------------------
// The search query
// ---------------------------------------------------------------------------

/// Matches a "(feat. ...)" or "ft. ..." credit in a title.
pub open spec fn featuring_pattern() -> Seq<char> {
    r"\(?(feat\.|ft\.)\s.+\)?"@
}

/// What `\s` matches in the `regex` crate: the Unicode `White_Space`
/// characters.
pub open spec fn is_regex_space(c: char) -> bool {
    ||| '\u{9}' <= c <= '\u{d}'
    ||| c == ' ' || c == '\u{85}' || c == '\u{a0}' || c == '\u{1680}'
    ||| '\u{2000}' <= c <= '\u{200a}'
    ||| c == '\u{2028}' || c == '\u{2029}' || c == '\u{202f}' || c == '\u{205f}' || c == '\u{3000}'
}

/// Where a featuring credit "feat." or "ft." at `q` is followed by a space
/// (`\s`) and a character other than a newline, the index of that
/// character: from there `.+` runs to the end of the line.
pub open spec fn credit_after(s: Seq<char>, q: int) -> Option<int> {
    let k: int = if 0 <= q && q + 5 <= s.len() && s.subrange(q, q + 5) == seq!['f', 'e', 'a', 't', '.'] {
        5
    } else if 0 <= q && q + 3 <= s.len() && s.subrange(q, q + 3) == seq!['f', 't', '.'] {
        3
    } else {
        0
    };
    if k > 0 && q + k + 1 < s.len() && is_regex_space(s[q + k]) && s[q + k + 1] != '\n' {
        Some(q + k + 1)
    } else {
        None
    }
}

/// Whether the featuring pattern matches at the start of `s` (with an
/// opening parenthesis before the credit or without), and where its `.+`
/// starts.
pub open spec fn credit_start(s: Seq<char>) -> Option<int> {
    if s.len() > 0 && s[0] == '(' && credit_after(s, 1) is Some {
        credit_after(s, 1)
    } else {
        credit_after(s, 0)
    }
}

/// `s` from its first newline on (empty when it has none).
pub open spec fn from_line_end(s: Seq<char>) -> Seq<char>
    decreases s.len(),
{
    if s.len() == 0 || s[0] == '\n' {
        s
    } else {
        from_line_end(s.drop_first())
    }
}

/// The text with every featuring credit removed: scanning from the left,
/// each match of `\(?(feat\.|ft\.)\s.+\)?` runs to the end of its line
/// (`.+` is greedy and stops only at a newline) and is deleted, and the
/// scan goes on after it, as `Regex::replace_all` does with leftmost-first
/// matches.
pub open spec fn without_featuring(s: Seq<char>) -> Seq<char>
    decreases s.len(), 0int,
{
    if s.len() == 0 {
        s
    } else {
        match credit_start(s) {
            Some(i) => if 0 < i <= s.len() {
                rest_after_credit(s.skip(i))
            } else {
                s
            },
            None => seq![s[0]] + without_featuring(s.drop_first()),
        }
    }
}

/// The rest of a line that a credit's `.+` deletes, then the scan for
/// further credits.
pub open spec fn rest_after_credit(s: Seq<char>) -> Seq<char>
    decreases s.len(), 1int,
{
    if s.len() == 0 {
        s
    } else if s[0] == '\n' {
        without_featuring(s)
    } else {
        rest_after_credit(s.drop_first())
    }
}

/// The text with its first featuring credit removed, as `Regex::replace`
/// does: the leftmost match, which runs to the end of its line.
pub open spec fn without_first_featuring(s: Seq<char>) -> Seq<char>
    decreases s.len(),
{
    if s.len() == 0 {
        s
    } else {
        match credit_start(s) {
            Some(i) => if 0 < i <= s.len() {
                from_line_end(s.skip(i))
            } else {
                s
            },
            None => seq![s[0]] + without_first_featuring(s.drop_first()),
        }
    }
}

pub open spec fn topic_suffix() -> Seq<char> {
    " - Topic"@
}

/// The title of a track without featuring credits and surrounding
/// whitespace.
pub open spec fn clean_title(track: MediaInfoView) -> Seq<char> {
    trim(without_featuring(or_empty(track.title)))
}

/// The text searched for: clean title, album and artist (without any
/// trailing " - Topic"), separated by single spaces.
pub open spec fn search_text(track: MediaInfoView) -> Seq<char> {
    clean_title(track) + " "@ + or_empty(track.album) + " "@ + trim_end_matches(
        or_empty(track.artist),
        topic_suffix(),
    )
}

/// The search text, percent-encoded for the query string of the search URL.
pub open spec fn search_query(track: MediaInfoView) -> Seq<char> {
    percent_encode_bytes(encode_utf8(search_text(track)))
}

fn strip_featuring(s: &str) -> (r: String)
    ensures
        r@ == without_featuring(s@),
{
    proof {
        reveal_strlit("");
    }
    match regex_replace_all(r"\(?(feat\.|ft\.)\s.+\)?", s, "") {
        Some(t) => t,
        None => String::from_str(s),
    }
}

fn strip_first_featuring(s: &str) -> (r: String)
    ensures
        r@ == without_first_featuring(s@),
{
    proof {
        reveal_strlit("");
    }
    match regex_replace_first(r"\(?(feat\.|ft\.)\s.+\)?", s, "") {
        Some(t) => t,
        None => String::from_str(s),
    }
}

fn clean_title_of(track: &MediaInfo) -> (r: String)
    ensures
        r@ == clean_title(track@),
{
    let stripped = strip_featuring(track.title());
    trim_str(stripped.as_str())
}

// ---------------------------------------------------------------------------
// Choosing among the search results
// ---------------------------------------------------------------------------

/// For Apple Music the artist field holds the album title too, so a result
/// matches when the (non-empty) artist field contains its album title.
pub open spec fn apple_music_match(track: MediaInfoView, t: DeezerTrackView) -> bool {
    or_empty(track.artist).len() > 0 && is_substring(
        unicode_lowercase(t.album_title),
        unicode_lowercase(or_empty(track.artist)),
    )
}

/// One artist name contains the other, both lowercased.
pub open spec fn artists_overlap(track_artist: Seq<char>, deezer_artist: Seq<char>) -> bool {
    let a = unicode_lowercase(track_artist);
    let d = unicode_lowercase(deezer_artist);
    is_substring(a, d) || is_substring(d, a)
}

pub open spec fn title_and_artist_match(track: MediaInfoView, t: DeezerTrackView) -> bool {
    &&& unicase_eq_of(trim(without_first_featuring(t.title)), clean_title(track))
    &&& artists_overlap(or_empty(track.artist), t.artist_name)
}

pub open spec fn has_album(track: MediaInfoView) -> bool {
    track.album matches Some(a) && a.len() > 0
}

pub open spec fn album_match(track: MediaInfoView, t: DeezerTrackView) -> bool {
    unicase_eq_of(
        trim(without_first_featuring(t.album_title)),
        trim(without_first_featuring(or_empty(track.album))),
    )
}

/// Whether a search result is the track: by the Apple Music rule, or by
/// title and artist, and by album too when the track names one.
pub open spec fn is_match(track: MediaInfoView, apple_music: bool, t: DeezerTrackView) -> bool {
    if apple_music {
        apple_music_match(track, t)
    } else if has_album(track) {
        title_and_artist_match(track, t) && album_match(track, t)
    } else {
        title_and_artist_match(track, t)
    }
}

/// The first search result that matches the track.
pub open spec fn first_match(
    track: MediaInfoView,
    apple_music: bool,
    found: Seq<DeezerTrackView>,
) -> Option<DeezerTrackView>
    decreases found.len(),
{
    if found.len() == 0 {
        None
    } else if is_match(track, apple_music, found[0]) {
        Some(found[0])
    } else {
        first_match(track, apple_music, found.drop_first())
    }
}

/// The parts of the track that every comparison uses, computed once.
struct TrackKeys {
    clean_title: String,
    artist_lower: Vec<char>,
    album_key: String,
    has_album: bool,
}

spec fn keys_of(keys: TrackKeys, track: MediaInfoView) -> bool {
    &&& keys.clean_title@ == clean_title(track)
    &&& keys.artist_lower@ == unicode_lowercase(or_empty(track.artist))
    &&& keys.album_key@ == trim(without_first_featuring(or_empty(track.album)))
    &&& keys.has_album == has_album(track)
}

fn track_keys(track: &MediaInfo) -> (k: TrackKeys)
    ensures
        keys_of(k, track@),
{
    let clean = clean_title_of(track);
    let lower = to_lowercase(track.artist());
    let album_stripped = strip_first_featuring(track.album());
    let has = match &track.album {
        Some(a) => !a.as_str().is_empty(),
        None => false,
    };
    TrackKeys {
        clean_title: clean,
        artist_lower: chars_of(lower.as_str()),
        album_key: trim_str(album_stripped.as_str()),
        has_album: has,
    }
}

fn matches_result(
    track: &MediaInfo,
    keys: &TrackKeys,
    apple_music: bool,
    t: &DeezerTrack,
) -> (r: bool)
    requires
        keys_of(*keys, track@),
    ensures
        r == is_match(track@, apple_music, t@),
{
    if apple_music {
        if track.artist().is_empty() {
            return false;
        }
        let album_lower = to_lowercase(t.album.title.as_str());
        let album_chars = chars_of(album_lower.as_str());
        return contains_chars(&keys.artist_lower, &album_chars);
    }
    let found_title = strip_first_featuring(t.title.as_str());
    let found_title = trim_str(found_title.as_str());
    let title_matches = unicase_eq(found_title.as_str(), keys.clean_title.as_str());
    let deezer_lower = to_lowercase(t.artist.name.as_str());
    let deezer_chars = chars_of(deezer_lower.as_str());
    let artist_matches = contains_chars(&deezer_chars, &keys.artist_lower) || contains_chars(
        &keys.artist_lower,
        &deezer_chars,
    );
    if !(title_matches && artist_matches) {
        return false;
    }
    if keys.has_album {
        let found_album = strip_first_featuring(t.album.title.as_str());
        let found_album = trim_str(found_album.as_str());
        unicase_eq(found_album.as_str(), keys.album_key.as_str())
    } else {
        true
    }
}

proof fn lemma_first_match_skip(
    track: MediaInfoView,
    apple_music: bool,
    found: Seq<DeezerTrackView>,
    i: int,
)
    requires
        0 <= i < found.len(),
        !is_match(track, apple_music, found[i]),
    ensures
        first_match(track, apple_music, found.subrange(i, found.len() as int)) == first_match(
            track,
            apple_music,
            found.subrange(i + 1, found.len() as int),
        ),
{
    assert(found.subrange(i, found.len() as int).drop_first() =~= found.subrange(
        i + 1,
        found.len() as int,
    ));
}

pub struct DeezerClient {
    cache: mini_moka::sync::Cache<String, DeezerTrack>,
}

/// A repeated search is answered with the earlier result: once a search
/// for `track` settles on `t` and remembers it under the track's query, a
/// cached answer to a search for any track with the same query is `t`, as
/// long as nothing else is remembered under that query in between.
pub proof fn lemma_repeat_search_answered(
    before: Seq<(Seq<char>, DeezerTrackView)>,
    track: MediaInfoView,
    t: DeezerTrackView,
    later: Seq<(Seq<char>, DeezerTrackView)>,
    again: MediaInfoView,
)
    requires
        search_query(again) == search_query(track),
        forall|i: int| 0 <= i < later.len() ==> (#[trigger] later[i]).0 != search_query(track),
    ensures
        latest_under(before.push((search_query(track), t)) + later, search_query(again)) == Some(t),
{
    lemma_latest_after_insert(before, search_query(track), t, search_query(track));
    lemma_latest_skips_other_keys(before.push((search_query(track), t)), later, search_query(track));
}

/// How a track search begins.
pub enum SearchStart {
    /// The cache gave back a track remembered under the track's query.
    Cached(DeezerTrack),
    /// Nothing cached: search Deezer with this query.
    Fetch(String),
}

impl DeezerClient {
    /// Every (query, track) pair that the client put into its cache, oldest
    /// first: a cached answer is always the track remembered last under its
    /// query.
    pub closed spec fn remembered(&self) -> Seq<(Seq<char>, DeezerTrackView)> {
        track_cache_given(self.cache)
    }

    /// The most search results the cache holds.
    pub closed spec fn cache_capacity(&self) -> Option<u64> {
        track_cache_max_capacity(self.cache)
    }

    /// Whether cached search results expire with time.
    pub closed spec fn cache_expires(&self) -> bool {
        track_cache_expires(self.cache)
    }

    /// A client with an empty cache of search results, which holds at most
    /// `cache_size` entries, which do not expire.
    pub fn new(cache_size: u64) -> (r: Self)
        ensures
            r.remembered() == Seq::<(Seq<char>, DeezerTrackView)>::empty(),
            r.cache_capacity() == Some(cache_size),
            !r.cache_expires(),
    {
        DeezerClient { cache: new_track_cache(cache_size) }
    }

    /// The percent-encoded search query for a track, which is also the key
    /// under which the search's outcome is cached.
    pub fn search_query(track: &MediaInfo) -> (q: String)
        ensures
            q@ == search_query(track@),
    {
        let clean = clean_title_of(track);
        let artist = chars_of(track.artist());
        let topic = chars_of(" - Topic");
        let artist = trim_end_matches_chars(&artist, &topic);
        let artist = string_of(artist.as_slice());
        let mut text = String::new();
        text.append(clean.as_str());
        text.append(" ");
        text.append(track.album());
        text.append(" ");
        text.append(artist.as_str());
        assert(text@ =~= search_text(track@));
        percent_encode_non_alphanumeric(text.as_str())
    }

    /// A search result remembered under this query, if the cache still
    /// holds one.
    pub fn cached_track(&self, query: &String) -> (r: Option<DeezerTrack>)
        ensures
            r matches Some(t) ==> latest_under(self.remembered(), query@) == Some(t@),
    {
        cache_get(&self.cache, query)
    }

    /// The start of a search for the track: the track remembered under its
    /// query, if the cache gives one back, else the query to send.
    pub fn begin_search(&self, track: &MediaInfo) -> (r: SearchStart)
        ensures
            match r {
                SearchStart::Cached(t) => latest_under(self.remembered(), search_query(track@)) == Some(t@),
                SearchStart::Fetch(q) => q@ == search_query(track@),
            },
    {
        let query = Self::search_query(track);
        match self.cached_track(&query) {
            Some(t) => SearchStart::Cached(t),
            None => SearchStart::Fetch(query),
        }
    }

    /// The first search result that matches the track (see [`is_match`]).
    pub fn select_track(track: &MediaInfo, apple_music: bool, found: &Vec<DeezerTrack>) -> (r:
        Option<DeezerTrack>)
        ensures
            match first_match(track@, apple_music, track_views(found@)) {
                Some(t) => r matches Some(x) && x@ == t,
                None => r is None,
            },
    {
        let keys = track_keys(track);
        let ghost views = track_views(found@);
        let n = found.len();
        let mut i: usize = 0;
        assert(views.subrange(0, n as int) =~= views);
        while i < n
            invariant
                n == found.len(),
                i <= n,
                keys_of(keys, track@),
                views == track_views(found@),
                first_match(track@, apple_music, views) == first_match(
                    track@,
                    apple_music,
                    views.subrange(i as int, n as int),
                ),
            decreases n - i,
        {
            if matches_result(track, &keys, apple_music, &found[i]) {
                let ghost rest = views.subrange(i as int, n as int);
                assert(rest[0] == found@[i as int]@);
                return Some(found[i].copy());
            }
            proof {
                lemma_first_match_skip(track@, apple_music, views, i as int);
            }
            i = i + 1;
        }
        None
    }

    /// Settles a search from Deezer's answer (`None` where the request, its
    /// status or its body failed): the first result that matches the track,
    /// which is remembered under the track's query.  A failed or fruitless
    /// search answers `None` and leaves the client as it was.
    pub fn resolve_search(
        &mut self,
        track: &MediaInfo,
        apple_music: bool,
        found: Option<&Vec<DeezerTrack>>,
    ) -> (r: Option<DeezerTrack>)
        ensures
            match found {
                None => r is None && *final(self) == *old(self),
                Some(f) => match first_match(track@, apple_music, track_views(f@)) {
                    Some(t) => {
                        &&& r matches Some(x) && x@ == t
                        &&& final(self).remembered() == old(self).remembered().push(
                            (search_query(track@), t),
                        )
                        &&& final(self).cache_capacity() == old(self).cache_capacity()
                        &&& final(self).cache_expires() == old(self).cache_expires()
                    },
                    None => r is None && *final(self) == *old(self),
                },
            },
    {
        let found = match found {
            Some(f) => f,
            None => {
                return None;
            },
        };
        let chosen = Self::select_track(track, apple_music, found);
        match &chosen {
            Some(t) => {
                let query = Self::search_query(track);
                cache_insert(&mut self.cache, query, t.copy());
            },
            None => {},
        }
        chosen
    }

    /// The track as known after a match on Deezer (see [`enriched`]).
    pub fn enrich_with(media_info: &MediaInfo, found: &DeezerTrack) -> (r: MediaInfo)
        ensures
            r@ == enriched(media_info@, found@),
    {
        let apple_music = media_info.is_apple_music();
        let name_len = found.artist.name.as_str().len();
        let artist = if apple_music {
            let big = media_info.artist();
            if !big.is_empty() {
                match byte_prefix_of(big, name_len) {
                    Some(p) => p,
                    None => found.artist.name.clone(),
                }
            } else {
                found.artist.name.clone()
            }
        } else {
            match &media_info.artist {
                Some(a) => a.clone(),
                None => found.artist.name.clone(),
            }
        };
        let album = if apple_music {
            let big = media_info.artist();
            if !big.is_empty() {
                let rest = match byte_suffix_of(big, name_len) {
                    Some(p) => p,
                    None => found.album.title.clone(),
                };
                trim_str(rest.as_str())
            } else {
                found.album.title.clone()
            }
        } else {
            match &media_info.album {
                Some(a) => if a.as_str().is_empty() {
                    found.album.title.clone()
                } else {
                    a.clone()
                },
                None => found.album.title.clone(),
            }
        };
        let cover_url = match &found.album.cover_big {
            Some(c) => c.clone(),
            None => String::from_str("default"),
        };
        let found_duration: u32 = #[verifier::truncate] (found.duration as u32);
        let duration = match media_info.duration {
            Some(d) => if d == 0 {
                Some(found_duration)
            } else {
                Some(d)
            },
            None => Some(found_duration),
        };
        let r = MediaInfo {
            title: Some(
                match &media_info.title {
                    Some(t) => t.clone(),
                    None => found.title.clone(),
                },
            ),
            album: Some(album),
            artist: Some(artist),
            elapsed_time: media_info.elapsed_time,
            cover_artwork: Some(CoverArtwork::from_url(cover_url)),
            is_playing: media_info.is_playing,
            duration,
            isrc: copy_opt_string(&found.isrc),
            player_name: copy_opt_string(&media_info.player_name),
        };
        r
    }
}

// ---------------------------------------------------------------------------
// Enrichment
// ---------------------------------------------------------------------------

/// The characters of the first `n` bytes of the UTF-8 encoding of `s`, when
/// `n` falls on a character boundary (`str::get(..n)`).
pub open spec fn byte_prefix(s: Seq<char>, n: int) -> Option<Seq<char>> {
    let b = encode_utf8(s);
    if 0 <= n <= b.len() && is_char_boundary(b, n) {
        Some(decode_utf8(b.subrange(0, n)))
    } else {
        None
    }
}

/// The characters after the first `n` bytes of the UTF-8 encoding of `s`,
/// when `n` falls on a character boundary (`str::get(n..)`).
pub open spec fn byte_suffix(s: Seq<char>, n: int) -> Option<Seq<char>> {
    let b = encode_utf8(s);
    if 0 <= n <= b.len() && is_char_boundary(b, n) {
        Some(decode_utf8(b.subrange(n, b.len() as int)))
    } else {
        None
    }
}

fn byte_prefix_of(s: &str, n: usize) -> (r: Option<String>)
    ensures
        r.deep_view() == byte_prefix(s@, n as int),
{
    proof {
        vstd::utf8::encode_utf8_valid_utf8(s@);
    }
    if s.is_char_boundary(n) {
        let (head, _tail) = s.split_at(n);
        proof {
            vstd::utf8::encode_utf8_decode_utf8(head@);
        }
        Some(head.to_owned())
    } else {
        None
    }
}

fn byte_suffix_of(s: &str, n: usize) -> (r: Option<String>)
    ensures
        r.deep_view() == byte_suffix(s@, n as int),
{
    proof {
        vstd::utf8::encode_utf8_valid_utf8(s@);
    }
    if s.is_char_boundary(n) {
        let (_head, tail) = s.split_at(n);
        proof {
            vstd::utf8::encode_utf8_decode_utf8(tail@);
        }
        Some(tail.to_owned())
    } else {
        None
    }
}

/// The length in bytes of the UTF-8 encoding of a text, as `str::len`
/// returns it.
pub open spec fn utf8_len(s: Seq<char>) -> usize {
    encode_utf8(s).len() as usize
}

pub open spec fn apple_music_track(media: MediaInfoView) -> bool {
    match media.player_name {
        Some(n) => is_apple_music_name(n),
        None => false,
    }
}

/// The artist after a match: for Apple Music the first bytes of the player's
/// artist field, as many as Deezer's artist name has, where that cut falls on
/// a character boundary; otherwise the player's artist, else Deezer's.
pub open spec fn enriched_artist(media: MediaInfoView, t: DeezerTrackView) -> Seq<char> {
    if apple_music_track(media) {
        let big = or_empty(media.artist);
        if big.len() > 0 {
            match byte_prefix(big, utf8_len(t.artist_name) as int) {
                Some(p) => p,
                None => t.artist_name,
            }
        } else {
            t.artist_name
        }
    } else {
        match media.artist {
            Some(a) => a,
            None => t.artist_name,
        }
    }
}

/// The album after a match: for Apple Music, whose artist field reads
/// "artist name album name" with no delimiter, what follows the first bytes
/// of the player's artist field, as many as Deezer's artist name has,
/// trimmed; otherwise the player's album when it is not empty, else
/// Deezer's.
pub open spec fn enriched_album(media: MediaInfoView, t: DeezerTrackView) -> Seq<char> {
    if apple_music_track(media) {
        let big = or_empty(media.artist);
        if big.len() > 0 {
            trim(
                match byte_suffix(big, utf8_len(t.artist_name) as int) {
                    Some(p) => p,
                    None => t.album_title,
                },
            )
        } else {
            t.album_title
        }
    } else {
        match media.album {
            Some(a) => if a.len() > 0 {
                a
            } else {
                t.album_title
            },
            None => t.album_title,
        }
    }
}

/// The track as known after a match on Deezer: the player's title, playback
/// state, position and player are kept; album and artist as stated above;
/// Deezer's cover (or the default one) and ISRC; the player's duration unless
/// it is absent or zero, else Deezer's, cut to 32 bits.
pub open spec fn enriched(media: MediaInfoView, t: DeezerTrackView) -> MediaInfoView {
    MediaInfoView {
        title: Some(
            match media.title {
                Some(x) => x,
                None => t.title,
            },
        ),
        album: Some(enriched_album(media, t)),
        artist: Some(enriched_artist(media, t)),
        elapsed_time: media.elapsed_time,
        cover_artwork: Some(
            crate::models::CoverArtworkView {
                data: None,
                url: Some(
                    match t.cover_big {
                        Some(c) => c,
                        None => crate::models::default_artwork_url(),
                    },
                ),
            },
        ),
        is_playing: media.is_playing,
        duration: match media.duration {
            Some(d) => if d == 0 {
                Some(t.duration as u32)
            } else {
                Some(d)
            },
            None => Some(t.duration as u32),
        },
        isrc: t.isrc,
        player_name: media.player_name,
    }
}

/// Outside Apple Music, enrichment keeps what the player reported: a
/// present title and artist, and a non-empty album, are never replaced by
/// Deezer's.
pub proof fn lemma_enrichment_keeps_player_metadata(media: MediaInfoView, t: DeezerTrackView)
    requires
        !apple_music_track(media),
    ensures
        media.title is Some ==> enriched(media, t).title == media.title,
        media.artist is Some ==> enriched(media, t).artist == media.artist,
        has_album(media) ==> enriched(media, t).album == media.album,
{
}

/// Outside Apple Music, enrichment fills in from Deezer what the player
/// left out: a missing or empty album becomes Deezer's album title, a
/// missing title and artist become Deezer's, an absent or zero duration
/// becomes Deezer's (cut to 32 bits); the cover is Deezer's (or the default
/// one), the ISRC is Deezer's, and position, playback state and player stay.
pub proof fn lemma_enrichment_fills_gaps(media: MediaInfoView, t: DeezerTrackView)
    requires
        !(media.player_name matches Some(n) && is_apple_music_name(n)),
    ensures
        (media.album is None || media.album == Some(Seq::<char>::empty())) ==> enriched(
            media,
            t,
        ).album == Some(t.album_title),
        (media.album matches Some(a) && a.len() > 0) ==> enriched(media, t).album == media.album,
        media.title is None ==> enriched(media, t).title == Some(t.title),
        media.artist is None ==> enriched(media, t).artist == Some(t.artist_name),
        (media.duration is None || media.duration == Some(0u32)) ==> enriched(media, t).duration
            == Some(t.duration as u32),
        (media.duration matches Some(d) && d > 0) ==> enriched(media, t).duration == media.duration,
        enriched(media, t).cover_artwork matches Some(c) && c.data is None && c.url == Some(
            match t.cover_big {
                Some(u) => u,
                None => crate::models::default_artwork_url(),
            },
        ),
        enriched(media, t).isrc == t.isrc,
        enriched(media, t).elapsed_time == media.elapsed_time,
        enriched(media, t).is_playing == media.is_playing,
        enriched(media, t).player_name == media.player_name,
{
}

/// Results before the first match do not change which result is chosen.
proof fn lemma_first_match_after(
    track: MediaInfoView,
    apple_music: bool,
    before: Seq<DeezerTrackView>,
    rest: Seq<DeezerTrackView>,
)
    requires
        first_match(track, apple_music, before) is None,
    ensures
        first_match(track, apple_music, before + rest) == first_match(track, apple_music, rest),
    decreases before.len(),
{
    if before.len() > 0 {
        assert((before + rest).drop_first() =~= before.drop_first() + rest);
        assert((before + rest)[0] == before[0]);
        lemma_first_match_after(track, apple_music, before.drop_first(), rest);
    } else {
        assert(before + rest =~= rest);
    }
}

/// Artist names match in either direction: for a track without album (not
/// from Apple Music), a result whose featuring-stripped title equals the
/// track's clean title without case, and whose lowercased artist name
/// occurs in the track's lowercased artist text (several credited artists)
/// or holds it, is chosen when no earlier result matches.
pub proof fn lemma_artist_either_way_selected(
    track: MediaInfoView,
    t: DeezerTrackView,
    before: Seq<DeezerTrackView>,
    after: Seq<DeezerTrackView>,
)
    requires
        track.album is None || track.album == Some(Seq::<char>::empty()),
        unicase_eq_of(
            trim(without_first_featuring(t.title)),
            trim(without_featuring(or_empty(track.title))),
        ),
        ({
            let a = unicode_lowercase(or_empty(track.artist));
            let d = unicode_lowercase(t.artist_name);
            ||| exists|i: int| 0 <= i && i + d.len() <= a.len() && #[trigger] a.subrange(i, i + d.len()) == d
            ||| exists|i: int| 0 <= i && i + a.len() <= d.len() && #[trigger] d.subrange(i, i + a.len()) == a
        }),
        first_match(track, false, before) is None,
    ensures
        first_match(track, false, before + seq![t] + after) == Some(t),
{
    assert(before + seq![t] + after =~= before + (seq![t] + after));
    lemma_first_match_after(track, false, before, seq![t] + after);
    assert((seq![t] + after)[0] == t);
    assert(is_match(track, false, t));
}

/// The matching rule for one search result, spelled out.  For Apple Music:
/// the track's artist field is not empty and, lowercased, contains the
/// result's lowercased album title.  Otherwise: the result's
/// featuring-stripped trimmed title equals the track's clean title without
/// case, one lowercased artist name contains the other, and, when the track
/// names a non-empty album, the featuring-stripped trimmed album titles are
/// equal without case.
pub proof fn lemma_match_rule(track: MediaInfoView, apple_music: bool, t: DeezerTrackView)
    ensures
        is_match(track, apple_music, t) <==> if apple_music {
            let a = unicode_lowercase(or_empty(track.artist));
            let b = unicode_lowercase(t.album_title);
            &&& or_empty(track.artist).len() > 0
            &&& exists|i: int| 0 <= i && i + b.len() <= a.len() && #[trigger] a.subrange(i, i + b.len()) == b
        } else {
            let a = unicode_lowercase(or_empty(track.artist));
            let d = unicode_lowercase(t.artist_name);
            &&& unicase_eq_of(
                trim(without_first_featuring(t.title)),
                trim(without_featuring(or_empty(track.title))),
            )
            &&& (exists|i: int| 0 <= i && i + d.len() <= a.len() && #[trigger] a.subrange(i, i + d.len()) == d)
                || (exists|i: int| 0 <= i && i + a.len() <= d.len() && #[trigger] d.subrange(i, i + a.len()) == a)
            &&& (track.album matches Some(al) && al.len() > 0) ==> unicase_eq_of(
                trim(without_first_featuring(t.album_title)),
                trim(without_first_featuring(or_empty(track.album))),
            )
        },
{
}

} // verus!
