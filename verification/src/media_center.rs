//! The decisions of the media center: which player events make a new track,
//! when the position ticker fires, and when a track is announced as playing
//! or scrobbled.
use crate::deezer_api::{unicase_eq, unicase_eq_of};
use crate::models::{is_browser_name, MediaInfo, MediaInfoView};
use crate::text::{chars_of, string_of, strip_suffix, strip_suffix_chars};
use std::sync::Arc;
use vstd::prelude::*;

verus! {

/// What the media center broadcasts about the current track.
#[derive(Clone, Debug)]
pub enum TrackUpdateEvent {
    NewTrack(Arc<MediaInfo>),
    PlaybackStateChange(Arc<MediaInfo>),
    PositionChanged(Arc<MediaInfo>),
    /// Every 5 seconds while a track plays, even if the track has not
    /// changed, to update the elapsed time.
    Tick(Arc<MediaInfo>),
}

pub enum EventKind {
    NewTrack,
    PlaybackStateChange,
    PositionChanged,
    Tick,
}

pub open spec fn event_kind(e: TrackUpdateEvent) -> EventKind {
    match e {
        TrackUpdateEvent::NewTrack(_) => EventKind::NewTrack,
        TrackUpdateEvent::PlaybackStateChange(_) => EventKind::PlaybackStateChange,
        TrackUpdateEvent::PositionChanged(_) => EventKind::PositionChanged,
        TrackUpdateEvent::Tick(_) => EventKind::Tick,
    }
}

pub open spec fn event_track(e: TrackUpdateEvent) -> MediaInfoView {
    match e {
        TrackUpdateEvent::NewTrack(t) => t@,
        TrackUpdateEvent::PlaybackStateChange(t) => t@,
        TrackUpdateEvent::PositionChanged(t) => t@,
        TrackUpdateEvent::Tick(t) => t@,
    }
}

pub open spec fn opt_view(o: Option<MediaInfo>) -> Option<MediaInfoView> {
    match o {
        Some(m) => Some(m@),
        None => None,
    }
}

// ---------------------------------------------------------------------------
// Same track or a new one
// ---------------------------------------------------------------------------

/// Both texts absent, or both present and equal after Unicode case folding.
pub open spec fn optional_unicase_eq(a: Option<Seq<char>>, b: Option<Seq<char>>) -> bool {
    match (a, b) {
        (Some(x), Some(y)) => unicase_eq_of(x, y),
        (None, None) => true,
        _ => false,
    }
}

/// Whether `current` continues the track `previous`: same title and artist
/// (without case), and a position past the very start.
pub open spec fn same_track(previous: Option<MediaInfoView>, current: MediaInfoView) -> bool {
    match previous {
        None => false,
        Some(p) => {
            &&& optional_unicase_eq(p.title, current.title)
            &&& optional_unicase_eq(p.artist, current.artist)
            &&& current.elapsed_time matches Some(e) && e > 0
        },
    }
}

fn optional_text_eq(a: &Option<String>, b: &Option<String>) -> (r: bool)
    ensures
        r == optional_unicase_eq(a.deep_view(), b.deep_view()),
{
    match (a, b) {
        (Some(x), Some(y)) => unicase_eq(x.as_str(), y.as_str()),
        (None, None) => true,
        _ => false,
    }
}

pub fn media_info_equal(previous: Option<&MediaInfo>, current: &MediaInfo) -> (r: bool)
    ensures
        r == same_track(
            match previous {
                Some(p) => Some(p@),
                None => None,
            },
            current@,
        ),
{
    match previous {
        None => false,
        Some(p) => {
            let title_matches = optional_text_eq(&p.title, &current.title);
            let artist_matches = optional_text_eq(&p.artist, &current.artist);
            let started = match current.elapsed_time {
                Some(e) => e > 0,
                None => false,
            };
            title_matches && artist_matches && started
        },
    }
}

// ---------------------------------------------------------------------------
// Player events
// ---------------------------------------------------------------------------

pub open spec fn is_blank(o: Option<Seq<char>>) -> bool {
    match o {
        None => true,
        Some(s) => s.len() == 0,
    }
}

pub open spec fn player_is_browser(m: MediaInfoView) -> bool {
    match m.player_name {
        Some(n) => is_browser_name(n),
        None => false,
    }
}

pub open spec fn topic_suffix() -> Seq<char> {
    " - Topic"@
}

/// The artist with one trailing " - Topic" (added by YouTube Music) removed.
pub open spec fn without_topic(artist: Option<Seq<char>>) -> Option<Seq<char>> {
    match artist {
        Some(a) => match strip_suffix(a, topic_suffix()) {
            Some(s) => Some(s),
            None => Some(a),
        },
        None => None,
    }
}

/// What to do with one event of the player.
pub enum EventDecision {
    /// Nothing to act on.
    Ignore,
    /// The event continues the last track: broadcast this event, whose track
    /// becomes the last track.
    Update(TrackUpdateEvent),
    /// A new track: look it up, starting from this information.
    Lookup(MediaInfo),
}

/// The last track with the position and playback state of a newer report.
pub open spec fn continued(last: MediaInfoView, report: MediaInfoView) -> MediaInfoView {
    MediaInfoView { elapsed_time: report.elapsed_time, is_playing: report.is_playing, ..last }
}

/// Events with neither title nor artist are ignored, and so are browsers
/// unless they are allowed.  An event of the last track keeps the last
/// (enriched) track and takes only the new position and playback state; it
/// is a playback state change when the playback state differs, else a
/// position change.  Any other event is a new track, looked up with the
/// " - Topic" suffix removed from its artist.
pub fn classify_event(last_track: Option<&MediaInfo>, media_info: MediaInfo, allow_browsers: bool) -> (r:
    EventDecision)
    ensures
        ({
            let m = media_info@;
            let last = match last_track {
                Some(l) => Some(l@),
                None => None,
            };
            if is_blank(m.title) && is_blank(m.artist) {
                r is Ignore
            } else if player_is_browser(m) && !allow_browsers {
                r is Ignore
            } else if same_track(last, m) {
                let l = last->0;
                r matches EventDecision::Update(e) && event_track(e) == continued(l, m) && if m.is_playing
                    != l.is_playing {
                    e is PlaybackStateChange
                } else {
                    e is PositionChanged
                }
            } else {
                r matches EventDecision::Lookup(n) && n@ == MediaInfoView {
                    artist: without_topic(m.artist),
                    ..m
                }
            }
        }),
{
    let title_blank = match &media_info.title {
        Some(t) => t.as_str().is_empty(),
        None => true,
    };
    let artist_blank = match &media_info.artist {
        Some(a) => a.as_str().is_empty(),
        None => true,
    };
    if title_blank && artist_blank {
        return EventDecision::Ignore;
    }
    if media_info.is_browser() && !allow_browsers {
        return EventDecision::Ignore;
    }
    if media_info_equal(last_track, &media_info) {
        match last_track {
            Some(last) => {
                let mut continued_track = last.copy();
                continued_track.elapsed_time = media_info.elapsed_time;
                continued_track.is_playing = media_info.is_playing;
                let changed = media_info.is_playing != last.is_playing;
                let shared = Arc::new(continued_track);
                if changed {
                    return EventDecision::Update(TrackUpdateEvent::PlaybackStateChange(shared));
                } else {
                    return EventDecision::Update(TrackUpdateEvent::PositionChanged(shared));
                }
            },
            None => {
                return EventDecision::Ignore;
            },
        }
    }
    let mut prepared = media_info;
    let artist = match &prepared.artist {
        Some(a) => {
            let chars = chars_of(a.as_str());
            let topic = chars_of(" - Topic");
            match strip_suffix_chars(&chars, &topic) {
                Some(stripped) => Some(string_of(stripped.as_slice())),
                None => Some(a.clone()),
            }
        },
        None => None,
    };
    prepared.artist = artist;
    EventDecision::Lookup(prepared)
}

/// The track to broadcast after a lookup: the enriched track when the lookup
/// matched; otherwise the track as the player reported it, except for a
/// browser, whose unmatched events are dropped.
pub fn settle_lookup(prepared: MediaInfo, enriched: Option<MediaInfo>) -> (r: Option<MediaInfo>)
    ensures
        match enriched {
            Some(e) => r matches Some(x) && x@ == e@,
            None => if player_is_browser(prepared@) {
                r is None
            } else {
                r matches Some(x) && x@ == prepared@
            },
        },
{
    match enriched {
        Some(e) => Some(e),
        None => {
            if prepared.is_browser() {
                None
            } else {
                Some(prepared)
            }
        },
    }
}

/// Whether the cover artwork of a new track is to be uploaded: uploads are
/// enabled and the artwork has bytes but no URL yet.
pub fn wants_artwork_upload(info: &MediaInfo, upload_enabled: bool) -> (r: bool)
    ensures
        r == (upload_enabled && match info@.cover_artwork {
            Some(c) => c.url is None && c.data is Some,
            None => false,
        }),
{
    match &info.cover_artwork {
        Some(c) => upload_enabled && c.url().is_none() && c.bytes().is_some(),
        None => false,
    }
}

// ---------------------------------------------------------------------------
// The position ticker
// ---------------------------------------------------------------------------

/// The period of the position ticker, in seconds.
pub const TICK_SECS: u32 = 5;

/// How long the position ticker waits before its next tick.
pub enum TickWait {
    /// A track is playing: tick after this many seconds.
    Seconds(u32),
    /// Nothing is playing: wait for a change of playback state only.
    UntilNotified,
}

/// While the last track plays, the ticker ticks every [`TICK_SECS`]
/// seconds; otherwise it waits for the playback state to change.
pub fn tick_wait(last_track: Option<&MediaInfo>) -> (r: TickWait)
    ensures
        if last_track matches Some(t) && t@.is_playing {
            r matches TickWait::Seconds(s) && s == TICK_SECS
        } else {
            r is UntilNotified
        },
{
    match last_track {
        Some(track) => if track.is_playing {
            TickWait::Seconds(TICK_SECS)
        } else {
            TickWait::UntilNotified
        },
        None => TickWait::UntilNotified,
    }
}

/// Whether the last track is playing.
pub fn is_playing(last_track: Option<&MediaInfo>) -> (r: bool)
    ensures
        r == (last_track matches Some(t) && t@.is_playing),
{
    match last_track {
        Some(t) => t.is_playing,
        None => false,
    }
}

/// The last track brought up to date after `secs` seconds of playing: its
/// position (zero when unknown) advanced by `secs`, saturating at the
/// largest `u32`.
pub open spec fn advanced(t: MediaInfoView, secs: u32) -> MediaInfoView {
    let e = match t.elapsed_time {
        Some(e) => e as int,
        None => 0,
    } + secs;
    MediaInfoView {
        elapsed_time: Some(
            if e > u32::MAX {
                u32::MAX
            } else {
                e as u32
            },
        ),
        ..t
    }
}

/// What a tick after `secs` seconds does: nothing when there is no playing
/// track, else the track with its position brought up to date, which
/// becomes the last track and is broadcast as a [`TrackUpdateEvent::Tick`].
pub fn tick_track(last_track: Option<&MediaInfo>, secs: u32) -> (r: Option<MediaInfo>)
    ensures
        match last_track {
            Some(t) => if t@.is_playing {
                r matches Some(x) && x@ == advanced(t@, secs)
            } else {
                r is None
            },
            None => r is None,
        },
{
    match last_track {
        Some(track) => {
            if !track.is_playing {
                return None;
            }
            let mut moved = track.copy();
            let elapsed: u32 = match track.elapsed_time {
                Some(e) => e,
                None => 0,
            };
            moved.elapsed_time = Some(elapsed.saturating_add(secs));
            Some(moved)
        },
        None => None,
    }
}

/// The track after `n` ticks of the ticker, each [`TICK_SECS`] apart.
pub open spec fn after_ticks(t: MediaInfoView, n: nat) -> MediaInfoView
    decreases n,
{
    if n == 0 {
        t
    } else {
        advanced(after_ticks(t, (n - 1) as nat), TICK_SECS)
    }
}

/// A number of seconds as a `u32`, saturating at its largest value.
pub open spec fn saturating_secs(x: int) -> u32 {
    if x > u32::MAX {
        u32::MAX
    } else {
        x as u32
    }
}

/// The position of a track, zero when unknown.
pub open spec fn position_or_zero(t: MediaInfoView) -> int {
    match t.elapsed_time {
        Some(e) => e as int,
        None => 0,
    }
}

/// While a track keeps playing with no new report from the player, each
/// tick ([`tick_track`] after [`tick_wait`]'s 5 seconds) keeps it playing,
/// so after `n > 0` ticks its position is `5 n` seconds on from where it
/// was (zero when unknown), up to the largest `u32`, and nothing else about
/// it has changed.
pub proof fn lemma_ticks_over_time(t: MediaInfoView, n: nat)
    ensures
        after_ticks(t, n).is_playing == t.is_playing,
        n > 0 ==> after_ticks(t, n) == (MediaInfoView {
            elapsed_time: Some(saturating_secs(position_or_zero(t) + 5 * n)),
            ..t
        }),
    decreases n,
{
    if n == 1 {
        assert(after_ticks(t, 0) == t);
        assert(after_ticks(t, 1) == advanced(t, TICK_SECS));
    } else if n > 1 {
        lemma_ticks_over_time(t, (n - 1) as nat);
        let prev = after_ticks(t, (n - 1) as nat);
        assert(after_ticks(t, n) == advanced(prev, TICK_SECS));
        assert(position_or_zero(prev) == saturating_secs(position_or_zero(t) + 5 * (n - 1)));
    }
}

// ---------------------------------------------------------------------------
// Scrobbling
// ---------------------------------------------------------------------------

/// What the scrobbling task does on one event.
#[derive(PartialEq, Eq, Structural, Debug, Clone, Copy)]
pub enum ScrobbleAction {
    /// Tell every scrobbler that the track is playing now.
    NowPlaying,
    /// Scrobble the track to every scrobbler.
    Scrobble,
    /// Nothing.
    Nothing,
}

pub open spec fn has_progress(t: MediaInfoView) -> bool {
    t.elapsed_time is Some && t.duration is Some
}

/// The track has reached half of its duration.
pub open spec fn past_half(t: MediaInfoView) -> bool {
    has_progress(t) && t.elapsed_time->0 >= t.duration->0 / 2
}

/// The task's memory of the last track it handled always has a position and
/// a duration.
pub open spec fn scrobble_state_ok(last: Option<MediaInfoView>) -> bool {
    last matches Some(l) ==> has_progress(l)
}

/// The transition of the scrobbling task: from what it remembers and one
/// event, what it remembers next and what it does.  A new track is announced
/// as playing.  A position change or tick without position or duration is
/// skipped.  Past half of the duration the track is scrobbled, unless the
/// remembered track is the same one and was past half too, in which case
/// nothing changes.  Before half, the track is announced as playing when
/// nothing is remembered yet.  In every other case of a position change or
/// tick, the track becomes the remembered track.
pub open spec fn scrobble_next(last: Option<MediaInfoView>, kind: EventKind, t: MediaInfoView) -> (
    Option<MediaInfoView>,
    ScrobbleAction,
) {
    match kind {
        EventKind::NewTrack => (last, ScrobbleAction::NowPlaying),
        EventKind::PlaybackStateChange => (last, ScrobbleAction::Nothing),
        _ => if !has_progress(t) {
            (last, ScrobbleAction::Nothing)
        } else if past_half(t) {
            if last matches Some(l) && same_track(Some(l), t) && past_half(l) {
                (last, ScrobbleAction::Nothing)
            } else {
                (Some(t), ScrobbleAction::Scrobble)
            }
        } else if last is None {
            (Some(t), ScrobbleAction::NowPlaying)
        } else {
            (Some(t), ScrobbleAction::Nothing)
        },
    }
}

fn past_half_exec(t: &MediaInfo) -> (r: bool)
    requires
        has_progress(t@),
    ensures
        r == past_half(t@),
{
    match (t.elapsed_time, t.duration) {
        (Some(e), Some(d)) => e >= d / 2,
        _ => false,
    }
}

/// One step of the scrobbling task (see [`scrobble_next`]).
pub fn scrobble_step(last_scrobble: &mut Option<MediaInfo>, event: &TrackUpdateEvent) -> (r:
    ScrobbleAction)
    requires
        scrobble_state_ok(opt_view(*old(last_scrobble))),
    ensures
        (opt_view(*final(last_scrobble)), r) == scrobble_next(
            opt_view(*old(last_scrobble)),
            event_kind(*event),
            event_track(*event),
        ),
        scrobble_state_ok(opt_view(*final(last_scrobble))),
{
    let track: &MediaInfo = match event {
        TrackUpdateEvent::NewTrack(_) => {
            return ScrobbleAction::NowPlaying;
        },
        TrackUpdateEvent::PlaybackStateChange(_) => {
            return ScrobbleAction::Nothing;
        },
        TrackUpdateEvent::PositionChanged(t) => &**t,
        TrackUpdateEvent::Tick(t) => &**t,
    };
    if track.elapsed_time.is_none() || track.duration.is_none() {
        return ScrobbleAction::Nothing;
    }
    let action = if past_half_exec(track) {
        let already = match &*last_scrobble {
            Some(last) => media_info_equal(Some(last), track) && past_half_exec(last),
            None => false,
        };
        if already {
            return ScrobbleAction::Nothing;
        }
        ScrobbleAction::Scrobble
    } else if last_scrobble.is_none() {
        ScrobbleAction::NowPlaying
    } else {
        ScrobbleAction::Nothing
    };
    *last_scrobble = Some(track.copy());
    action
}

/// A track is scrobbled at most once per listen: once a position change or
/// tick past half has scrobbled a track, a later position change or tick past
/// half of the same track scrobbles nothing and leaves the memory unchanged.
pub proof fn lemma_scrobbled_once(
    last: Option<MediaInfoView>,
    first_kind: EventKind,
    first: MediaInfoView,
    second_kind: EventKind,
    second: MediaInfoView,
)
    requires
        scrobble_state_ok(last),
        !(first_kind is NewTrack || first_kind is PlaybackStateChange),
        !(second_kind is NewTrack || second_kind is PlaybackStateChange),
        scrobble_next(last, first_kind, first).1 == ScrobbleAction::Scrobble,
        same_track(Some(first), second),
        past_half(second),
    ensures
        scrobble_next(scrobble_next(last, first_kind, first).0, second_kind, second) == (
            scrobble_next(last, first_kind, first).0,
            ScrobbleAction::Nothing,
        ),
{
}

/// A tick that brings a playing track to its half makes the scrobbling task
/// scrobble it, unless the task already scrobbled the same track past its
/// half.
pub proof fn lemma_tick_scrobbles(last_scrobble: Option<MediaInfoView>, playing: MediaInfoView, secs: u32)
    requires
        scrobble_state_ok(last_scrobble),
        playing.is_playing,
        past_half(advanced(playing, secs)),
        !(last_scrobble matches Some(l) && same_track(Some(l), advanced(playing, secs)) && past_half(l)),
    ensures
        scrobble_next(last_scrobble, EventKind::Tick, advanced(playing, secs)) == (
            Some(advanced(playing, secs)),
            ScrobbleAction::Scrobble,
        ),
{
}

/// The scrobbling task run over a sequence of events from what it
/// remembers: what it remembers at the end, and how many times it
/// scrobbled.
pub open spec fn scrobble_run(last: Option<MediaInfoView>, events: Seq<(EventKind, MediaInfoView)>) -> (
    Option<MediaInfoView>,
    nat,
)
    decreases events.len(),
{
    if events.len() == 0 {
        (last, 0)
    } else {
        let step = scrobble_next(last, events[0].0, events[0].1);
        let rest = scrobble_run(step.0, events.drop_first());
        (
            rest.0,
            if step.1 == ScrobbleAction::Scrobble {
                rest.1 + 1
            } else {
                rest.1
            },
        )
    }
}

/// A position change or tick past half of the track's duration.
pub open spec fn past_half_event(e: (EventKind, MediaInfoView)) -> bool {
    !(e.0 is NewTrack || e.0 is PlaybackStateChange) && past_half(e.1)
}

/// A run of position changes and ticks of one track, all past its half:
/// each event continues every earlier one (see [`same_track`]).
pub open spec fn past_half_run(events: Seq<(EventKind, MediaInfoView)>) -> bool {
    &&& forall|i: int| 0 <= i < events.len() ==> #[trigger] past_half_event(events[i])
    &&& forall|i: int, j: int|
        0 <= i < j < events.len() ==> #[trigger] same_track(Some(events[i].1), events[j].1)
}

proof fn lemma_run_tail(events: Seq<(EventKind, MediaInfoView)>)
    requires
        events.len() > 0,
        past_half_run(events),
    ensures
        past_half_run(events.drop_first()),
{
    let rest = events.drop_first();
    assert forall|i: int| 0 <= i < rest.len() implies #[trigger] past_half_event(rest[i]) by {
        assert(rest[i] == events[i + 1]);
        assert(past_half_event(events[i + 1]));
    }
    assert forall|i: int, j: int| 0 <= i < j < rest.len() implies #[trigger] same_track(
        Some(rest[i].1),
        rest[j].1,
    ) by {
        assert(rest[i] == events[i + 1]);
        assert(rest[j] == events[j + 1]);
        assert(same_track(Some(events[i + 1].1), events[j + 1].1));
    }
}

proof fn lemma_run_after_scrobble(l: MediaInfoView, events: Seq<(EventKind, MediaInfoView)>)
    requires
        past_half(l),
        past_half_run(events),
        forall|j: int| 0 <= j < events.len() ==> #[trigger] same_track(Some(l), events[j].1),
    ensures
        scrobble_run(Some(l), events) == (Some(l), 0nat),
    decreases events.len(),
{
    if events.len() > 0 {
        let rest = events.drop_first();
        assert(past_half_event(events[0]));
        assert(same_track(Some(l), events[0].1));
        assert forall|j: int| 0 <= j < rest.len() implies #[trigger] same_track(Some(l), rest[j].1) by {
            assert(rest[j] == events[j + 1]);
        }
        lemma_run_tail(events);
        lemma_run_after_scrobble(l, rest);
    }
}

/// A play is never scrobbled twice: over a whole run of position changes and
/// ticks of one track past its half, the scrobbling task scrobbles at most
/// once, whatever it remembered before.
pub proof fn lemma_run_scrobbles_once(last: Option<MediaInfoView>, events: Seq<(EventKind, MediaInfoView)>)
    requires
        scrobble_state_ok(last),
        past_half_run(events),
    ensures
        scrobble_run(last, events).1 <= 1,
    decreases events.len(),
{
    if events.len() > 0 {
        let rest = events.drop_first();
        let e0 = events[0];
        assert(past_half_event(e0));
        lemma_run_tail(events);
        let step = scrobble_next(last, e0.0, e0.1);
        if step.1 == ScrobbleAction::Scrobble {
            assert(step.0 == Some(e0.1));
            assert forall|j: int| 0 <= j < rest.len() implies #[trigger] same_track(Some(e0.1), rest[j].1) by {
                assert(rest[j] == events[j + 1]);
                assert(same_track(Some(events[0].1), events[j + 1].1));
            }
            lemma_run_after_scrobble(e0.1, rest);
        } else {
            assert(step.0 == last);
            lemma_run_scrobbles_once(last, rest);
        }
    }
}

/// The scrobbling task scrobbles exactly on a position change or tick whose
/// position is at least half of its duration, unless it remembers the same
/// track already at or past half of its own duration; a position below half
/// never scrobbles.
pub proof fn lemma_scrobble_threshold(last: Option<MediaInfoView>, kind: EventKind, t: MediaInfoView)
    requires
        scrobble_state_ok(last),
    ensures
        (scrobble_next(last, kind, t).1 == ScrobbleAction::Scrobble) <==> {
            &&& kind is PositionChanged || kind is Tick
            &&& t.elapsed_time matches Some(e) && (t.duration matches Some(d) && e >= d / 2)
            &&& !(last matches Some(l) && (same_track(Some(l), t) && (l.elapsed_time matches Some(le)
                && (l.duration matches Some(ld) && le >= ld / 2))))
        },
        (t.elapsed_time matches Some(e) && (t.duration matches Some(d) && e < d / 2))
            ==> scrobble_next(last, kind, t).1 != ScrobbleAction::Scrobble,
{
}

/// An event that continues the last track broadcasts the last (enriched)
/// track with only the report's position and playback state: its title,
/// artist, album, cover, duration, ISRC and player stay the last track's.
pub proof fn lemma_continued_keeps_last_track(last: MediaInfoView, report: MediaInfoView)
    ensures
        continued(last, report).title == last.title,
        continued(last, report).artist == last.artist,
        continued(last, report).album == last.album,
        continued(last, report).cover_artwork == last.cover_artwork,
        continued(last, report).duration == last.duration,
        continued(last, report).isrc == last.isrc,
        continued(last, report).player_name == last.player_name,
        continued(last, report).elapsed_time == report.elapsed_time,
        continued(last, report).is_playing == report.is_playing,
{
}

} // verus!
