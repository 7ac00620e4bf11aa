//! The user's configuration: the scrobbling services and the switches of the
//! application, and how a submission is addressed to each service.
use crate::models::{or_empty, MediaInfo};
use crate::text::{chars_of, string_of, trim_end_matches, trim_end_matches_chars};
use vstd::prelude::*;

verus! {

#[derive(Clone, Copy, Debug, PartialEq, Eq, Structural)]
pub enum ScrobblerFormat {
    ListenBrainz,
    LastFM,
    LibreFM,
}

/// One scrobbling service the user has set up.
#[derive(Clone, Debug)]
pub struct Scrobbler {
    id: String,
    endpoint_url: String,
    api_key: String,
    format: ScrobblerFormat,
}

pub struct ScrobblerView {
    pub id: Seq<char>,
    pub endpoint_url: Seq<char>,
    pub api_key: Seq<char>,
    pub format: ScrobblerFormat,
}

impl View for Scrobbler {
    type V = ScrobblerView;

    closed spec fn view(&self) -> ScrobblerView {
        ScrobblerView {
            id: self.id@,
            endpoint_url: self.endpoint_url@,
            api_key: self.api_key@,
            format: self.format,
        }
    }
}

/// The two hosts that speak the Last.fm API.
#[derive(Clone, Copy, Debug, PartialEq, Eq, Structural)]
pub enum LastFMHost {
    LastFM,
    LibreFM,
}

/// Where the submissions of a scrobbler go.
#[derive(Clone, Copy, Debug, PartialEq, Eq, Structural)]
pub enum ScrobbleRoute {
    /// The ListenBrainz API at the scrobbler's endpoint.
    ListenBrainz,
    /// The Last.fm API of this host, with the scrobbler's session key.
    LastFm(LastFMHost),
}

pub open spec fn route_of(format: ScrobblerFormat) -> ScrobbleRoute {
    match format {
        ScrobblerFormat::ListenBrainz => ScrobbleRoute::ListenBrainz,
        ScrobblerFormat::LastFM => ScrobbleRoute::LastFm(LastFMHost::LastFM),
        ScrobblerFormat::LibreFM => ScrobbleRoute::LastFm(LastFMHost::LibreFM),
    }
}

/// The endpoint without trailing slashes.
pub open spec fn endpoint_base(endpoint_url: Seq<char>) -> Seq<char> {
    trim_end_matches(endpoint_url, "/"@)
}

impl Scrobbler {
    pub fn new(id: String, endpoint_url: String, api_key: String, format: ScrobblerFormat) -> (r:
        Self)
        ensures
            r@ == (ScrobblerView {
                id: id@,
                endpoint_url: endpoint_url@,
                api_key: api_key@,
                format,
            }),
    {
        Scrobbler { id, endpoint_url, api_key, format }
    }

    pub fn id(&self) -> (r: &str)
        ensures
            r@ == self@.id,
    {
        self.id.as_str()
    }

    pub fn endpoint_url(&self) -> (r: &str)
        ensures
            r@ == self@.endpoint_url,
    {
        self.endpoint_url.as_str()
    }

    pub fn api_key(&self) -> (r: &str)
        ensures
            r@ == self@.api_key,
    {
        self.api_key.as_str()
    }

    pub fn format(&self) -> (r: ScrobblerFormat)
        ensures
            r == self@.format,
    {
        self.format
    }

    /// Where this scrobbler's submissions go: ListenBrainz for its format,
    /// or the Last.fm API of Last.fm or of Libre.fm.
    pub fn route(&self) -> (r: ScrobbleRoute)
        ensures
            r == route_of(self@.format),
    {
        match self.format {
            ScrobblerFormat::ListenBrainz => ScrobbleRoute::ListenBrainz,
            ScrobblerFormat::LastFM => ScrobbleRoute::LastFm(LastFMHost::LastFM),
            ScrobblerFormat::LibreFM => ScrobbleRoute::LastFm(LastFMHost::LibreFM),
        }
    }

    /// The endpoint without trailing slashes, as shown in messages.
    pub fn endpoint_base(&self) -> (r: String)
        ensures
            r@ == endpoint_base(self@.endpoint_url),
    {
        let chars = chars_of(self.endpoint_url.as_str());
        let slash = chars_of("/");
        let base = trim_end_matches_chars(&chars, &slash);
        string_of(base.as_slice())
    }

    /// The ListenBrainz URL that listens are submitted to.
    pub fn submit_listens_url(&self) -> (r: String)
        ensures
            r@ == endpoint_base(self@.endpoint_url) + "/submit-listens"@,
    {
        let mut url = self.endpoint_base();
        url.append("/submit-listens");
        url
    }

    /// The value of the `Authorization` header of a ListenBrainz submission.
    pub fn authorization_header(&self) -> (r: String)
        ensures
            r@ == "Token "@ + self@.api_key,
    {
        let mut header = String::from_str("Token ");
        header.append(self.api_key.as_str());
        header
    }
}

/// A track as the Last.fm API takes it: artist, title and album (empty when
/// absent) and the duration in seconds (zero when absent).
pub struct LastFmTrack {
    pub artist: String,
    pub title: String,
    pub album: String,
    pub duration: u32,
}

pub fn lastfm_track(track: &MediaInfo) -> (r: LastFmTrack)
    ensures
        r.artist@ == or_empty(track@.artist),
        r.title@ == or_empty(track@.title),
        r.album@ == or_empty(track@.album),
        r.duration == match track@.duration {
            Some(d) => d,
            None => 0u32,
        },
{
    LastFmTrack {
        artist: String::from_str(track.artist()),
        title: String::from_str(track.title()),
        album: String::from_str(track.album()),
        duration: match track.duration {
            Some(d) => d,
            None => 0,
        },
    }
}

/// The application's settings.
#[derive(Clone, Debug)]
pub struct Config {
    pub scrobblers: Vec<Scrobbler>,
    pub discord_rpc_enabled: bool,
    pub upload_cover_artwork: bool,
    pub allow_browsers: bool,
}

impl Default for Config {
    /// No scrobblers and every switch off.
    fn default() -> (r: Self)
        ensures
            r.scrobblers@.len() == 0,
            !r.discord_rpc_enabled,
            !r.upload_cover_artwork,
            !r.allow_browsers,
    {
        Config {
            scrobblers: Vec::new(),
            discord_rpc_enabled: false,
            upload_cover_artwork: false,
            allow_browsers: false,
        }
    }
}

} // verus!
