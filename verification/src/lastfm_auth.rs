//! Addresses of the Last.fm and Libre.fm authorization flows.
use vstd::prelude::*;

verus! {

pub const LIBREFM_API_BASE: &'static str = "https://libre.fm/2.0/";

pub const LIBREFM_AUTH_URL: &'static str = "https://www.libre.fm/api/auth/";

/// The Last.fm page where the user grants access to the application's key
/// for a request token.
pub fn lastfm_auth_url(api_key: &str, token: &str) -> (r: String)
    ensures
        r@ == "https://www.last.fm/api/auth/?api_key="@ + api_key@ + "&token="@ + token@,
{
    let mut url = String::from_str("https://www.last.fm/api/auth/?api_key=");
    url.append(api_key);
    url.append("&token=");
    url.append(token);
    url
}

} // verus!
