//! The listen submissions of the ListenBrainz API.
use crate::models::{copy_opt_string, or_empty, MediaInfo};
use vstd::prelude::*;

verus! {

/// The system clock's time type, declared so that a reading can be held.
#[verifier::external_type_specification]
#[verifier::external_body]
pub struct ExSystemTime(std::time::SystemTime);

/// Calls `std::time::SystemTime::now`: the system clock's reading, which
/// nothing can be stated of.
#[verifier::external_body]
fn system_time_now() -> std::time::SystemTime {
    std::time::SystemTime::now()
}

/// Calls `SystemTime::duration_since(UNIX_EPOCH)` on a reading: `Ok` with
/// the whole seconds and the nanoseconds after the epoch, or, for a reading
/// before it, `Err` with those before it (the error's `duration`).
/// `Duration` keeps its nanoseconds below one second.  Nothing ties the
/// result to the opaque reading; unlike `chrono::Utc::now`, which panics
/// on a clock before 1970, this returns on every reading.
#[verifier::external_body]
fn since_unix_epoch(t: &std::time::SystemTime) -> (r: Result<(u64, u32), (u64, u32)>)
    ensures
        match r {
            Ok((_, n)) => n < 1_000_000_000,
            Err((_, n)) => n < 1_000_000_000,
        },
{
    match t.duration_since(std::time::UNIX_EPOCH) {
        Ok(d) => Ok((d.as_secs(), d.subsec_nanos())),
        Err(e) => Err((e.duration().as_secs(), e.duration().subsec_nanos())),
    }
}

/// The Unix time in whole seconds of a clock reading, rounded down (so a
/// reading before 1970 gives a negative time), as chrono's `timestamp` of
/// that instant is.
pub open spec fn unix_seconds_of(reading: Result<(u64, u32), (u64, u32)>) -> int {
    match reading {
        Ok((s, _)) => s as int,
        Err((s, n)) => if n == 0 {
            -(s as int)
        } else {
            -(s as int) - 1
        },
    }
}

/// The Unix time of a clock reading as an `i64`, saturating at its bounds
/// (which only a clock hundreds of billions of years off reaches).
pub fn unix_timestamp_of(reading: Result<(u64, u32), (u64, u32)>) -> (t: i64)
    ensures
        t == if unix_seconds_of(reading) > i64::MAX {
            i64::MAX as int
        } else if unix_seconds_of(reading) < i64::MIN {
            i64::MIN as int
        } else {
            unix_seconds_of(reading)
        },
{
    match reading {
        Ok((s, _)) => if s > i64::MAX as u64 {
            i64::MAX
        } else {
            s as i64
        },
        Err((s, n)) => if s > i64::MAX as u64 {
            i64::MIN
        } else if n == 0 {
            -(s as i64)
        } else {
            -(s as i64) - 1
        },
    }
}

#[derive(Debug, Clone, PartialEq, Eq, Structural)]
pub enum ListenType {
    /// A finished listen.
    Single,
    /// The track that is playing now.
    PlayingNow,
}

pub struct Scrobble {
    pub listen_type: ListenType,
    pub payload: Vec<Payload>,
}

pub struct Payload {
    pub listened_at: Option<i64>,
    pub track_metadata: TrackMetadata,
}

pub struct TrackMetadata {
    pub additional_info: AdditionalInfo,
    pub artist_name: String,
    pub track_name: String,
    pub release_name: String,
}

pub struct AdditionalInfo {
    pub release_mbid: Option<String>,
    pub artist_mbids: Option<Vec<String>>,
    pub recording_mbid: Option<String>,
    pub artist_names: Vec<String>,
    pub duration_ms: i64,
    pub isrc: Option<String>,
    pub submission_client: String,
}

pub open spec fn submission_client() -> Seq<char> {
    "dotsong"@
}

/// The submission for one track, of the given type, listened at `now` (a
/// Unix timestamp in seconds, when known): a single payload whose listen time
/// is `now` for a finished listen and absent for a track playing now; the track's
/// artist, title and album (empty when absent); its duration in
/// milliseconds (zero when absent) and its ISRC; no MusicBrainz ids.
pub open spec fn is_submission(s: Scrobble, track: MediaInfo, listen_type: ListenType, now: Option<i64>) -> bool {
    let m = track@;
    &&& s.listen_type == listen_type
    &&& s.payload@.len() == 1
    &&& s.payload@[0].listened_at == match listen_type {
        ListenType::Single => now,
        ListenType::PlayingNow => None,
    }
    &&& s.payload@[0].track_metadata.artist_name@ == or_empty(m.artist)
    &&& s.payload@[0].track_metadata.track_name@ == or_empty(m.title)
    &&& s.payload@[0].track_metadata.release_name@ == or_empty(m.album)
    &&& s.payload@[0].track_metadata.additional_info.release_mbid is None
    &&& s.payload@[0].track_metadata.additional_info.artist_mbids is None
    &&& s.payload@[0].track_metadata.additional_info.recording_mbid is None
    &&& s.payload@[0].track_metadata.additional_info.artist_names@.len() == 1
    &&& s.payload@[0].track_metadata.additional_info.artist_names@[0]@ == or_empty(m.artist)
    &&& s.payload@[0].track_metadata.additional_info.duration_ms == match m.duration {
        Some(d) => d as int * 1000,
        None => 0,
    }
    &&& s.payload@[0].track_metadata.additional_info.isrc.deep_view() == m.isrc
    &&& s.payload@[0].track_metadata.additional_info.submission_client@ == submission_client()
}

impl Scrobble {
    /// The submission for a track, listened at `now`.
    pub fn from_media_info_at(track: &MediaInfo, listen_type: ListenType, now: i64) -> (r: Self)
        ensures
            is_submission(r, *track, listen_type, Some(now)),
    {
        Self::submission(track, listen_type, Some(now))
    }

    fn submission(track: &MediaInfo, listen_type: ListenType, now: Option<i64>) -> (r: Self)
        ensures
            is_submission(r, *track, listen_type, now),
    {
        let listened_at = match &listen_type {
            ListenType::Single => now,
            ListenType::PlayingNow => None,
        };
        let duration: u32 = match track.duration {
            Some(d) => d,
            None => 0,
        };
        let mut artist_names: Vec<String> = Vec::new();
        artist_names.push(String::from_str(track.artist()));
        let payload = Payload {
            listened_at,
            track_metadata: TrackMetadata {
                additional_info: AdditionalInfo {
                    release_mbid: None,
                    artist_mbids: None,
                    recording_mbid: None,
                    artist_names,
                    duration_ms: (duration as i64) * 1000,
                    isrc: copy_opt_string(&track.isrc),
                    submission_client: String::from_str("dotsong"),
                },
                artist_name: String::from_str(track.artist()),
                track_name: String::from_str(track.title()),
                release_name: String::from_str(track.album()),
            },
        };
        let mut payloads: Vec<Payload> = Vec::new();
        payloads.push(payload);
        Scrobble { listen_type, payload: payloads }
    }

    /// The submission for a track, listened now by the system clock: a
    /// finished listen carries the current Unix time in seconds (see
    /// [`unix_timestamp_of`]).
    pub fn from_media_info(track: &MediaInfo, listen_type: ListenType) -> (r: Self)
        ensures
            exists|now: i64| is_submission(r, *track, listen_type, Some(now)),
            listen_type is Single ==> r.payload@[0].listened_at is Some,
    {
        let reading = system_time_now();
        let now = unix_timestamp_of(since_unix_epoch(&reading));
        Self::from_media_info_at(track, listen_type, now)
    }
}

} // verus!
