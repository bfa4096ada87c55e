//! The records that the gateway hands out, and the outcome of a request.

use vstd::prelude::*;

verus! {

/// A speaker that the backend knows, identified by its room name.
#[derive(Debug, Clone)]
pub struct SonosSpeaker {
    /// The room name, which identifies the speaker.
    pub id: String,
    /// The name to display; the room name again.
    pub name: String,
    /// Whether the speaker can be used.
    pub available: bool,
    /// The volume, from 0 up to 100, if the backend reported one.
    pub volume: Option<u8>,
}

/// What a [`SonosSpeaker`] holds, as mathematical values.
pub struct SpeakerView {
    pub id: Seq<char>,
    pub name: Seq<char>,
    pub available: bool,
    pub volume: Option<u8>,
}

impl View for SonosSpeaker {
    type V = SpeakerView;

    open spec fn view(&self) -> SpeakerView {
        SpeakerView {
            id: self.id@,
            name: self.name@,
            available: self.available,
            volume: self.volume,
        }
    }
}

/// The views of a list of speakers, in order.
pub open spec fn speaker_views(speakers: Seq<SonosSpeaker>) -> Seq<SpeakerView> {
    speakers.map_values(|s: SonosSpeaker| s@)
}

/// A request to play a track on a speaker.
#[derive(Debug)]
pub struct PlayTrackRequest {
    /// The speaker to play on.
    pub speaker_id: String,
    /// The URL under which the media server offers the track.
    pub track_url: String,
}

/// The result of an operation that changes what a speaker does.
#[derive(Debug)]
pub struct SonosResponse {
    /// Whether the backend accepted the operation.
    pub success: bool,
    /// A message for a human reader.
    pub message: String,
}

/// What a [`SonosResponse`] holds, as mathematical values.
pub struct ResponseView {
    pub success: bool,
    pub message: Seq<char>,
}

impl View for SonosResponse {
    type V = ResponseView;

    open spec fn view(&self) -> ResponseView {
        ResponseView { success: self.success, message: self.message@ }
    }
}

/// What a speaker is playing.
#[derive(Debug)]
pub struct SonosState {
    /// Whether the speaker is playing.
    pub is_playing: bool,
    /// The artist of the current track.
    pub artist: Option<String>,
    /// The title of the current track.
    pub title: Option<String>,
    /// The position in the current track, in seconds.
    pub position: Option<u32>,
    /// The length of the current track, in seconds.
    pub duration: Option<u32>,
}

/// What a [`SonosState`] holds, as mathematical values.
pub struct StateView {
    pub is_playing: bool,
    pub artist: Option<Seq<char>>,
    pub title: Option<Seq<char>>,
    pub position: Option<u32>,
    pub duration: Option<u32>,
}

/// The text that an optional string holds.
pub open spec fn text_of(s: Option<String>) -> Option<Seq<char>> {
    match s {
        Some(t) => Some(t@),
        None => None,
    }
}

/// The text that an optional string slice holds.
pub open spec fn slice_text(s: Option<&str>) -> Option<Seq<char>> {
    match s {
        Some(t) => Some(t@),
        None => None,
    }
}

impl View for SonosState {
    type V = StateView;

    open spec fn view(&self) -> StateView {
        StateView {
            is_playing: self.is_playing,
            artist: text_of(self.artist),
            title: text_of(self.title),
            position: self.position,
            duration: self.duration,
        }
    }
}

/// The state that stands for "nothing known": not playing, no track.
pub open spec fn idle_state() -> StateView {
    StateView { is_playing: false, artist: None, title: None, position: None, duration: None }
}

/// The HTTP method of a request.
#[derive(Debug, Clone, Copy, PartialEq, Eq)]
pub enum Method {
    Get,
    Post,
}

/// A request for the caller to send. It carries no body and no headers of
/// its own.
#[derive(Debug, Clone, PartialEq, Eq)]
pub struct Request {
    /// The method to send with.
    pub method: Method,
    /// The URL to send to.
    pub url: String,
}

/// What a [`Request`] holds, as mathematical values.
pub struct RequestView {
    pub method: Method,
    pub url: Seq<char>,
}

impl View for Request {
    type V = RequestView;

    open spec fn view(&self) -> RequestView {
        RequestView { method: self.method, url: self.url@ }
    }
}

/// How one request to the backend ended. `B` is the form in which the
/// caller hands over the body: raw bytes where the gateway parses it, text
/// where the gateway quotes it.
#[derive(Debug)]
pub enum Exchange<B> {
    /// No response arrived. `error` is the HTTP client's description of
    /// what went wrong.
    Unreachable { error: String },
    /// A response with this status code arrived, but its body could not be
    /// read. `error` is the HTTP client's description of what went wrong.
    Unreadable { status: u16, error: String },
    /// The backend answered with this status code and body.
    Answered { status: u16, body: B },
}

impl SonosState {
    /// The state reported when nothing is known of the speaker.
    pub fn idle() -> (state: SonosState)
        ensures
            state@ == idle_state(),
    {
        SonosState { is_playing: false, artist: None, title: None, position: None, duration: None }
    }
}

} // verus!
