//! What the tray menu and the Discord presence show of the current track.
use crate::media_center::{event_kind, event_track, TrackUpdateEvent};
use crate::models::{MediaInfo, MediaInfoView};
use vstd::prelude::*;

verus! {

/// The greeting of the settings window.
pub fn greet(name: &str) -> (r: String)
    ensures
        r@ == "Hello, "@ + name@ + "! You've been greeted from Rust!"@,
{
    let mut s = String::from_str("Hello, ");
    s.append(name);
    s.append("! You've been greeted from Rust!");
    s
}

pub open spec fn dash() -> Seq<char> {
    "-"@
}

pub open spec fn or_dash(o: Option<Seq<char>>) -> Seq<char> {
    match o {
        Some(s) => s,
        None => dash(),
    }
}

/// The label of the tray menu's first entry: "nothing playing" when title
/// and artist both read "-" (absent values read "-"), else
/// "now playing: TITLE - ARTIST".
pub open spec fn tray_label_text(m: MediaInfoView) -> Seq<char> {
    let title = or_dash(m.title);
    let artist = or_dash(m.artist);
    if title == dash() && artist == dash() {
        "nothing playing"@
    } else {
        "now playing: "@ + title + " - "@ + artist
    }
}

fn text_or_dash(o: &Option<String>) -> (r: String)
    ensures
        r@ == or_dash(o.deep_view()),
{
    match o {
        Some(s) => s.clone(),
        None => String::from_str("-"),
    }
}

pub fn tray_label(track: &MediaInfo) -> (r: String)
    ensures
        r@ == tray_label_text(track@),
{
    let title = text_or_dash(&track.title);
    let artist = text_or_dash(&track.artist);
    let dash = String::from_str("-");
    if title == dash && artist == dash {
        String::from_str("nothing playing")
    } else {
        let mut s = String::from_str("now playing: ");
        s.append(title.as_str());
        s.append(" - ");
        s.append(artist.as_str());
        s
    }
}

/// What becomes of the Discord presence task when the settings are saved.
#[derive(PartialEq, Eq, Structural, Debug, Clone, Copy)]
pub enum PresenceChange {
    /// The presence is enabled and no task runs: start one.
    Start,
    /// The presence is enabled and its task runs: leave it.
    Keep,
    /// The presence is disabled: stop the task and clear the presence.
    Stop,
}

pub fn presence_change(enabled: bool, task_running: bool) -> (r: PresenceChange)
    ensures
        r == if !enabled {
            PresenceChange::Stop
        } else if task_running {
            PresenceChange::Keep
        } else {
            PresenceChange::Start
        },
{
    if enabled {
        if task_running {
            PresenceChange::Keep
        } else {
            PresenceChange::Start
        }
    } else {
        PresenceChange::Stop
    }
}

/// A "listening" activity of the Discord presence.
pub struct Activity {
    /// The artist.
    pub state: String,
    /// The title.
    pub details: String,
    pub large_image: String,
    /// The album, when known.
    pub large_text: Option<String>,
    /// Start and end of the track as Unix timestamps, when the position is
    /// known.
    pub timestamps: Option<(u64, u64)>,
}

pub enum PresenceUpdate {
    /// The event does not concern the presence.
    Skip,
    /// Clear the presence.
    Clear,
    /// Show this activity.
    Show(Activity),
}

/// The start of the track, `now` minus its position, as the Unix timestamp
/// of the presence (bits of the signed value read unsigned), and its end,
/// the start plus the duration.
pub open spec fn track_span(now: i64, elapsed: u32, duration: u32) -> (u64, u64) {
    let start = (now - elapsed) as u64;
    (start, (start + duration) as u64)
}

/// A shown track with a position has a duration, and its span fits.
pub open spec fn presence_fits(m: MediaInfoView, now: i64) -> bool {
    m.elapsed_time matches Some(e) ==> {
        &&& m.duration is Some
        &&& now - e >= i64::MIN
        &&& ((now - e) as u64) + m.duration->0 <= u64::MAX
    }
}

pub open spec fn presence_event(e: TrackUpdateEvent) -> bool {
    event_kind(e) is NewTrack || event_kind(e) is PlaybackStateChange
}

/// The event shows a playing track with title and artist.
pub open spec fn shows_track(e: TrackUpdateEvent) -> bool {
    let m = event_track(e);
    presence_event(e) && m.is_playing && m.title is Some && m.artist is Some
}

pub open spec fn cover_image(m: MediaInfoView) -> Seq<char> {
    match m.cover_artwork {
        Some(c) => match c.url {
            Some(u) => u,
            None => crate::models::default_artwork_url(),
        },
        None => crate::models::default_artwork_url(),
    }
}

/// New tracks and playback state changes update the presence: a paused
/// track, or one without title or artist, clears it; a playing one shows
/// artist, title, cover image (the default one without a URL), album and
/// its time span.  Other events leave the presence alone.
pub fn presence_update(event: &TrackUpdateEvent, now: i64) -> (r: PresenceUpdate)
    requires
        shows_track(*event) ==> presence_fits(event_track(*event), now),
    ensures
        ({
            let m = event_track(*event);
            if !presence_event(*event) {
                r is Skip
            } else if !m.is_playing || m.title is None || m.artist is None {
                r is Clear
            } else {
                r matches PresenceUpdate::Show(a) && a.state@ == m.artist->0 && a.details@
                    == m.title->0 && a.large_image@ == cover_image(m) && a.large_text.deep_view()
                    == m.album && a.timestamps == match m.elapsed_time {
                    Some(e) => Some(track_span(now, e, m.duration->0)),
                    None => None,
                }
            }
        }),
{
    let info: &MediaInfo = match event {
        TrackUpdateEvent::NewTrack(info) => &**info,
        TrackUpdateEvent::PlaybackStateChange(info) => &**info,
        _ => {
            return PresenceUpdate::Skip;
        },
    };
    if !info.is_playing {
        return PresenceUpdate::Clear;
    }
    match (&info.title, &info.artist) {
        (Some(title), Some(artist)) => {
            let large_image = match &info.cover_artwork {
                Some(c) => match c.url() {
                    Some(u) => String::from_str(u),
                    None => String::from_str("default"),
                },
                None => String::from_str("default"),
            };
            let timestamps = match info.elapsed_time {
                Some(elapsed) => {
                    let duration: u32 = match info.duration {
                        Some(d) => d,
                        None => 0,
                    };
                    let start_signed: i64 = now - elapsed as i64;
                    let start: u64 = #[verifier::truncate] (start_signed as u64);
                    Some((start, duration as u64 + start))
                },
                None => None,
            };
            PresenceUpdate::Show(
                Activity {
                    state: artist.clone(),
                    details: title.clone(),
                    large_image,
                    large_text: crate::models::copy_opt_string(&info.album),
                    timestamps,
                },
            )
        },
        _ => PresenceUpdate::Clear,
    }
}

} // verus!
