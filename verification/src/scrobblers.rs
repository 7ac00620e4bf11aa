//! The scrobbling services as they are described in settings files.
use vstd::prelude::*;

verus! {

pub struct ListenBrainzScrobbler {
    pub endpoint_url: String,
    pub api_key: String,
}

pub struct LastFMScrobbler {
    pub endpoint_url: String,
    pub api_key: String,
}

} // verus!
