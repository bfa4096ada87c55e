//! Gateway logic for a Sonos control API.
//!
//! The gateway turns three instructions (list the speakers, read a speaker's
//! playback state, play a track) into one HTTP request each, and turns what
//! the backend answers into typed records. This crate holds the rules: which
//! URL a request goes to, and what an answer means. Sending the request is
//! left to the caller, who gets a [`model::Request`] to send and hands the
//! outcome back as an [`model::Exchange`].

pub mod config;
pub mod duration;
pub mod json;
pub mod model;
pub mod numeral;
pub mod percent;
pub mod playback;
pub mod service;
pub mod status;
pub mod text;
pub mod track;
pub mod zones;

pub use crate::config::SonosConfig;
pub use crate::config::DEFAULT_SONOS_API_URL;
pub use crate::config::DEFAULT_SONOS_MP3_SERVER;
pub use crate::duration::parse_time_to_seconds;
pub use crate::model::Exchange;
pub use crate::model::Method;
pub use crate::model::Request;
pub use crate::model::PlayTrackRequest;
pub use crate::model::SonosResponse;
pub use crate::model::SonosSpeaker;
pub use crate::model::SonosState;
pub use crate::service::SonosService;
pub use crate::track::TrackError;
