//! Where the gateway finds the backend and the file share.

use vstd::prelude::*;

verus! {

/// The control API's base URL where the configuration names none.
pub const DEFAULT_SONOS_API_URL: &'static str = "http://192.168.0.5:5005";

/// The file share's host and path where the configuration names none.
pub const DEFAULT_SONOS_MP3_SERVER: &'static str = "192.168.0.6/mp3";

/// The gateway's two settings, each of which may be left unset.
#[derive(Clone, Debug, Eq, PartialEq)]
pub struct SonosConfig {
    /// The base URL of the control API.
    pub api_url: Option<String>,
    /// The host and path prefix of the file share that holds the media.
    pub mp3_server: Option<String>,
}

/// The setting `value`, or `fallback` where it is unset.
pub open spec fn setting_or(value: Option<String>, fallback: Seq<char>) -> Seq<char> {
    match value {
        Some(v) => v@,
        None => fallback,
    }
}

impl Default for SonosConfig {
    /// The configuration with both settings unset.
    fn default() -> (config: SonosConfig)
        ensures
            config.api_url is None,
            config.mp3_server is None,
    {
        SonosConfig { api_url: None, mp3_server: None }
    }
}

impl SonosConfig {
    /// The base URL of the control API: the one set, else
    /// [`DEFAULT_SONOS_API_URL`].
    pub fn get_api_url(&self) -> (url: String)
        ensures
            url@ == setting_or(self.api_url, DEFAULT_SONOS_API_URL@),
    {
        match &self.api_url {
            Some(url) => url.clone(),
            None => String::from_str(DEFAULT_SONOS_API_URL),
        }
    }

    /// The file share's host and path: the one set, else
    /// [`DEFAULT_SONOS_MP3_SERVER`].
    pub fn get_mp3_server(&self) -> (server: String)
        ensures
            server@ == setting_or(self.mp3_server, DEFAULT_SONOS_MP3_SERVER@),
    {
        match &self.mp3_server {
            Some(server) => server.clone(),
            None => String::from_str(DEFAULT_SONOS_MP3_SERVER),
        }
    }
}

} // verus!
