//! Turning what the operating system's media interface reports into the
//! track model.
use crate::models::{CoverArtwork, MediaInfo};
use crate::text::{
    chars_of, is_substring, join, join_strings, replace_all, replace_chars, str_contains, string_of,
    to_lowercase, trim, trim_chars, trim_end_matches, trim_end_matches_chars, unicode_lowercase,
};
use vstd::prelude::*;

verus! {

pub open spec fn sanitized_album_name(album_name: Seq<char>) -> Seq<char> {
    trim(trim_end_matches(trim_end_matches(album_name, " - Single"@), " - EP"@))
}

/// An album name without the " - Single" and " - EP" suffixes that Apple
/// Music appends (every trailing repetition of the first, then of the
/// second) and without surrounding whitespace.
pub fn sanitize_apple_music_album_name(album_name: &str) -> (r: String)
    ensures
        r@ == sanitized_album_name(album_name@),
{
    let name = chars_of(album_name);
    let single = chars_of(" - Single");
    let ep = chars_of(" - EP");
    let name = trim_end_matches_chars(&name, &single);
    let name = trim_end_matches_chars(&name, &ep);
    let name = trim_chars(&name);
    string_of(name.as_slice())
}

/// A track as the media interface reports it.
pub struct PlayerTrack {
    pub title: String,
    pub artist: Vec<String>,
    pub album: Option<String>,
    pub duration_secs: Option<u64>,
    pub artwork: Option<CoverArtwork>,
}

/// An event of the media interface, with what the player reported when it
/// was asked about it.
pub enum PlayerEvent {
    /// A new track started.
    TrackChanged { player_name: String, track: PlayerTrack, playing: bool },
    /// The position changed; the player's current track, if any.
    PositionChanged {
        player_name: String,
        position_secs: u64,
        current: Option<PlayerTrack>,
        playing: bool,
    },
    /// The playback state changed; the player's current track and position.
    StateChanged {
        player_name: String,
        current: Option<PlayerTrack>,
        position_secs: Option<u64>,
        playing: bool,
    },
}

/// Whether the player is Apple Music (its name, lowercased, holds
/// "applemusic").
pub open spec fn is_apple_music_player(player_name: Seq<char>) -> bool {
    is_substring("applemusic"@, unicode_lowercase(player_name))
}

pub open spec fn em_dash_separator() -> Seq<char> {
    " \u{2014} "@
}

/// The artist text of a reported track: the artists joined with ", ", except
/// for Apple Music, which reports "artist — album" in its first artist
/// entry, whose separator becomes a space.
pub open spec fn artist_text(player_name: Seq<char>, artists: Seq<Seq<char>>) -> Seq<char> {
    if is_apple_music_player(player_name) {
        join(seq![replace_all(artists[0], em_dash_separator(), " "@)], ", "@)
    } else {
        join(artists, ", "@)
    }
}

pub open spec fn artist_views(artists: Seq<String>) -> Seq<Seq<char>> {
    artists.map_values(|a: String| a@)
}

pub open spec fn secs_u32(s: Option<u64>) -> Option<u32> {
    match s {
        Some(x) => Some(x as u32),
        None => None,
    }
}

pub open spec fn event_player_name(event: PlayerEvent) -> Seq<char> {
    match event {
        PlayerEvent::TrackChanged { player_name, .. } => player_name@,
        PlayerEvent::PositionChanged { player_name, .. } => player_name@,
        PlayerEvent::StateChanged { player_name, .. } => player_name@,
    }
}

pub open spec fn event_current(event: PlayerEvent) -> Option<PlayerTrack> {
    match event {
        PlayerEvent::TrackChanged { track, .. } => Some(track),
        PlayerEvent::PositionChanged { current, .. } => current,
        PlayerEvent::StateChanged { current, .. } => current,
    }
}

pub open spec fn event_playing(event: PlayerEvent) -> bool {
    match event {
        PlayerEvent::TrackChanged { playing, .. } => playing,
        PlayerEvent::PositionChanged { playing, .. } => playing,
        PlayerEvent::StateChanged { playing, .. } => playing,
    }
}

/// The position the track model takes from an event: zero for a new track,
/// the new position for a position change, the player's position (if known
/// and a track is loaded) for a state change; seconds cut to 32 bits.
pub open spec fn event_elapsed(event: PlayerEvent) -> Option<u32> {
    match event {
        PlayerEvent::TrackChanged { .. } => Some(0u32),
        PlayerEvent::PositionChanged { position_secs, .. } => Some(position_secs as u32),
        PlayerEvent::StateChanged { current, position_secs, .. } => if current is Some {
            secs_u32(position_secs)
        } else {
            None
        },
    }
}

/// An event can be read: Apple Music always names at least one artist.
pub open spec fn event_readable(event: PlayerEvent) -> bool {
    match event_current(event) {
        Some(t) => is_apple_music_player(event_player_name(event)) ==> t.artist@.len() > 0,
        None => true,
    }
}

fn artist_of(player_name: &str, artists: &Vec<String>) -> (r: String)
    requires
        is_apple_music_player(player_name@) ==> artists@.len() > 0,
    ensures
        r@ == artist_text(player_name@, artist_views(artists@)),
{
    let lower = to_lowercase(player_name);
    if str_contains(lower.as_str(), "applemusic") {
        let first = chars_of(artists[0].as_str());
        let dash = chars_of(" \u{2014} ");
        let space = chars_of(" ");
        let replaced = replace_chars(&first, &dash, &space);
        let mut parts: Vec<String> = Vec::new();
        parts.push(string_of(replaced.as_slice()));
        let r = join_strings(&parts, ", ");
        assert(parts@.map_values(|p: String| p@) =~= seq![
            replace_all(artists@[0]@, em_dash_separator(), " "@),
        ]);
        r
    } else {
        join_strings(artists, ", ")
    }
}

/// The track model of a reported track.
pub open spec fn track_fields_ok(
    r: MediaInfo,
    player_name: Seq<char>,
    t: PlayerTrack,
    elapsed: Option<u32>,
    playing: bool,
) -> bool {
    let m = r@;
    &&& m.title == Some(t.title@)
    &&& m.album == match t.album {
        Some(a) => Some(sanitized_album_name(a@)),
        None => None,
    }
    &&& m.artist == Some(artist_text(player_name, artist_views(t.artist@)))
    &&& m.elapsed_time == elapsed
    &&& m.cover_artwork == match t.artwork {
        Some(c) => Some(c@),
        None => None,
    }
    &&& m.is_playing == playing
    &&& m.duration == secs_u32(t.duration_secs)
    &&& m.isrc is None
    &&& m.player_name == Some(player_name)
}

/// The track model of an event: the reported track as [`track_fields_ok`]
/// states, or, when the player has no track, only the player, its playback
/// state and the position.
pub open spec fn is_event_media_info(r: MediaInfo, event: PlayerEvent) -> bool {
    match event_current(event) {
        Some(t) => track_fields_ok(
            r,
            event_player_name(event),
            t,
            event_elapsed(event),
            event_playing(event),
        ),
        None => {
            let m = r@;
            &&& m.title is None
            &&& m.album is None
            &&& m.artist is None
            &&& m.elapsed_time == event_elapsed(event)
            &&& m.cover_artwork is None
            &&& m.is_playing == event_playing(event)
            &&& m.duration is None
            &&& m.isrc is None
            &&& m.player_name == Some(event_player_name(event))
        },
    }
}

fn from_track(player_name: String, track: PlayerTrack, elapsed: Option<u32>, playing: bool) -> (r:
    MediaInfo)
    requires
        is_apple_music_player(player_name@) ==> track.artist@.len() > 0,
    ensures
        track_fields_ok(r, player_name@, track, elapsed, playing),
{
    let artist = artist_of(player_name.as_str(), &track.artist);
    let album = match &track.album {
        Some(a) => Some(sanitize_apple_music_album_name(a.as_str())),
        None => None,
    };
    let duration = match track.duration_secs {
        Some(d) => Some(#[verifier::truncate] (d as u32)),
        None => None,
    };
    MediaInfo {
        title: Some(track.title),
        album,
        artist: Some(artist),
        elapsed_time: elapsed,
        cover_artwork: track.artwork,
        is_playing: playing,
        duration,
        isrc: None,
        player_name: Some(player_name),
    }
}

fn without_track(player_name: String, elapsed: Option<u32>, playing: bool) -> (r: MediaInfo)
    ensures
        r@.title is None,
        r@.album is None,
        r@.artist is None,
        r@.elapsed_time == elapsed,
        r@.cover_artwork is None,
        r@.is_playing == playing,
        r@.duration is None,
        r@.isrc is None,
        r@.player_name == Some(player_name@),
{
    MediaInfo {
        title: None,
        album: None,
        artist: None,
        elapsed_time: elapsed,
        cover_artwork: None,
        is_playing: playing,
        duration: None,
        isrc: None,
        player_name: Some(player_name),
    }
}

/// The track model of an event of the media interface.
pub fn build_event(event: PlayerEvent) -> (r: MediaInfo)
    requires
        event_readable(event),
    ensures
        is_event_media_info(r, event),
{
    match event {
        PlayerEvent::TrackChanged { player_name, track, playing } => {
            from_track(player_name, track, Some(0), playing)
        },
        PlayerEvent::PositionChanged { player_name, position_secs, current, playing } => {
            let elapsed: u32 = #[verifier::truncate] (position_secs as u32);
            match current {
                Some(track) => from_track(player_name, track, Some(elapsed), playing),
                None => without_track(player_name, Some(elapsed), playing),
            }
        },
        PlayerEvent::StateChanged { player_name, current, position_secs, playing } => {
            match current {
                Some(track) => {
                    let elapsed = match position_secs {
                        Some(p) => Some(#[verifier::truncate] (p as u32)),
                        None => None,
                    };
                    from_track(player_name, track, elapsed, playing)
                },
                None => without_track(player_name, None, playing),
            }
        },
    }
}

/// The track model of an event, or `None` for an Apple Music track that
/// names no artist, which cannot be read.
pub fn try_build_event(event: PlayerEvent) -> (r: Option<MediaInfo>)
    ensures
        event_readable(event) ==> (r matches Some(m) && is_event_media_info(m, event)),
        !event_readable(event) ==> r is None,
{
    let readable = match &event {
        PlayerEvent::TrackChanged { player_name, track, .. } => {
            let lower = to_lowercase(player_name.as_str());
            !str_contains(lower.as_str(), "applemusic") || track.artist.len() > 0
        },
        PlayerEvent::PositionChanged { player_name, current, .. } => match current {
            Some(track) => {
                let lower = to_lowercase(player_name.as_str());
                !str_contains(lower.as_str(), "applemusic") || track.artist.len() > 0
            },
            None => true,
        },
        PlayerEvent::StateChanged { player_name, current, .. } => match current {
            Some(track) => {
                let lower = to_lowercase(player_name.as_str());
                !str_contains(lower.as_str(), "applemusic") || track.artist.len() > 0
            },
            None => true,
        },
    };
    if readable {
        Some(build_event(event))
    } else {
        None
    }
}

/// A position change carries the reported position, cut to 32 bits, as the
/// track model's elapsed time, and the reported playback state, whether or
/// not the player has a current track.
pub proof fn lemma_position_change_carries_position(
    r: MediaInfo,
    player_name: String,
    position_secs: u64,
    current: Option<PlayerTrack>,
    playing: bool,
)
    requires
        is_event_media_info(
            r,
            PlayerEvent::PositionChanged { player_name, position_secs, current, playing },
        ),
    ensures
        r@.elapsed_time == Some(position_secs as u32),
        r@.is_playing == playing,
        r@.player_name == Some(player_name@),
{
}

/// A new track starts at position zero.
pub proof fn lemma_new_track_starts_at_zero(r: MediaInfo, player_name: String, track: PlayerTrack, playing: bool)
    requires
        is_event_media_info(r, PlayerEvent::TrackChanged { player_name, track, playing }),
    ensures
        r@.elapsed_time == Some(0u32),
        r@.title == Some(track.title@),
        r@.is_playing == playing,
{
}

} // verus!
