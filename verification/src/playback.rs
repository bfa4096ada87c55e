//! What a speaker is playing, read from the backend's state document.

use vstd::prelude::*;
use crate::duration::parse_time_to_seconds;
use crate::duration::time_seconds;
use crate::json::json_parsed;
use crate::json::member_text;
use crate::json::nested_text;
use crate::json::text_at;
use crate::json::text_in;
use crate::model::slice_text;
use crate::model::idle_state;
use crate::model::Exchange;
use crate::model::SonosState;
use crate::model::StateView;
use crate::status::is_success_code;
use crate::text::same_text;

verus! {

/// The seconds that an optional time string writes, where a `u32` can hold
/// them. A missing string, a string that is no time and a total beyond
/// `u32::MAX` all give no value: a record never holds a number of seconds
/// other than the one that was written.
pub open spec fn clock_seconds(time: Option<Seq<char>>) -> Option<u32> {
    match time {
        Some(t) => match time_seconds(t) {
            Some(n) => if n <= u32::MAX {
                Some(n as u32)
            } else {
                None
            },
            None => None,
        },
        None => None,
    }
}

/// The seconds in a record are the seconds that the time string writes: no
/// record holds a number other than that total.
pub proof fn lemma_clock_is_the_written_number(time: Option<Seq<char>>)
    ensures
        clock_seconds(time) matches Some(n) ==> time matches Some(t) && time_seconds(t) == Some(
            n as u64,
        ),
        time matches Some(t) ==> (time_seconds(t) matches Some(n) ==> (n <= u32::MAX
            ==> clock_seconds(time) == Some(n as u32))),
        time matches Some(t) ==> (time_seconds(t) matches Some(n) ==> (n > u32::MAX
            ==> clock_seconds(time) is None)),
        time matches Some(t) ==> (time_seconds(t) is None ==> clock_seconds(time) is None),
        time is None ==> clock_seconds(time) is None,
{
}

/// The state that the fields of a state document stand for. The speaker is
/// playing where the playback state is the word `PLAYING`; artist and title
/// are taken as they are; position and length are the seconds that their
/// time strings write.
pub open spec fn state_of_fields(
    playback_state: Option<Seq<char>>,
    artist: Option<Seq<char>>,
    title: Option<Seq<char>>,
    rel_time: Option<Seq<char>>,
    duration: Option<Seq<char>>,
) -> StateView {
    StateView {
        is_playing: playback_state == Some("PLAYING"@),
        artist: artist,
        title: title,
        position: clock_seconds(rel_time),
        duration: clock_seconds(duration),
    }
}

/// The state that a state document stands for: `playbackState` and
/// `relTime` at the top, `artist`, `title` and `duration` under
/// `currentTrack`. A field that is missing or no string counts as absent.
pub open spec fn state_of_document(doc: serde_json::Value) -> StateView {
    state_of_fields(
        member_text(doc, "playbackState"@),
        nested_text(doc, "currentTrack"@, "artist"@),
        nested_text(doc, "currentTrack"@, "title"@),
        member_text(doc, "relTime"@),
        nested_text(doc, "currentTrack"@, "duration"@),
    )
}

/// The state that the outcome of a state request stands for: that of the
/// document in the body, where the backend answered with success and the
/// body was read and is a JSON text; the idle state in every other case.
pub open spec fn state_of_exchange(exchange: Exchange<Vec<u8>>) -> StateView {
    match exchange {
        Exchange::Answered { status, body } => if is_success_code(status) {
            match json_parsed(body@) {
                Some(doc) => state_of_document(doc),
                None => idle_state(),
            }
        } else {
            idle_state()
        },
        Exchange::Unreadable { .. } => idle_state(),
        Exchange::Unreachable { .. } => idle_state(),
    }
}

/// An owned copy of an optional string slice.
fn owned(s: Option<&str>) -> (r: Option<String>)
    ensures
        crate::model::text_of(r) == slice_text(s),
{
    match s {
        Some(t) => Some(String::from_str(t)),
        None => None,
    }
}

/// The seconds that an optional time string writes, where a `u32` can hold
/// them.
fn clock(time: Option<&str>) -> (r: Option<u32>)
    ensures
        r == clock_seconds(slice_text(time)),
{
    match time {
        Some(t) => match parse_time_to_seconds(t) {
            Some(n) => if n <= 0xffff_ffff {
                Some(n as u32)
            } else {
                None
            },
            None => None,
        },
        None => None,
    }
}

/// Builds the playback state from the fields of a state document, each
/// given as the string found there, or `None` where there was none.
pub fn state_from_fields(
    playback_state: Option<&str>,
    artist: Option<&str>,
    title: Option<&str>,
    rel_time: Option<&str>,
    duration: Option<&str>,
) -> (state: SonosState)
    ensures
        state@ == state_of_fields(
            slice_text(playback_state),
            slice_text(artist),
            slice_text(title),
            slice_text(rel_time),
            slice_text(duration),
        ),
{
    let is_playing = match playback_state {
        Some(s) => same_text(s, "PLAYING"),
        None => false,
    };
    SonosState {
        is_playing,
        artist: owned(artist),
        title: owned(title),
        position: clock(rel_time),
        duration: clock(duration),
    }
}

/// Reads the playback state from a state document.
pub fn state_from_document(doc: &serde_json::Value) -> (state: SonosState)
    ensures
        state@ == state_of_document(*doc),
{
    state_from_fields(
        text_at(doc, "playbackState"),
        text_in(doc, "currentTrack", "artist"),
        text_in(doc, "currentTrack", "title"),
        text_at(doc, "relTime"),
        text_in(doc, "currentTrack", "duration"),
    )
}

} // verus!
