//! From a track's URL on the media server to the request that plays it.
//!
//! Two ways lead to a request. By the file share: the track's path is taken
//! out of its URL, and the speaker is told to fetch that path from the file
//! share. By clip: the speaker is handed the track's URL as it is.

use vstd::prelude::*;
use vstd::utf8::decode_utf8;
use vstd::utf8::encode_utf8;
use vstd::utf8::encode_utf8_decode_utf8;
use vstd::utf8::valid_utf8;
use crate::model::slice_text;
use crate::percent::decode;
use crate::percent::encode;
use crate::percent::percent_decoded;
use crate::percent::percent_encoded;
use crate::text::chars_of;
use crate::text::find;
use crate::text::first_occurrence;
use crate::text::lemma_first_occurrence;
use crate::text::occurs_at;

verus! {

/// Why no request can be made for a track.
#[derive(Debug, Clone, Copy, PartialEq, Eq)]
pub enum TrackError {
    /// The path in the track's URL, once its escapes are decoded, is not
    /// valid UTF-8.
    UndecodablePath,
}

/// The part of `url` behind the first `/audio/`: all of it, up to the end,
/// whether or not `/audio/` stands in it again. A URL without `/audio/` has
/// no such part.
pub open spec fn audio_segment(url: Seq<char>) -> Option<Seq<char>> {
    match first_occurrence(url, "/audio/"@, 0) {
        Some(at) => Some(url.skip(at + "/audio/"@.len())),
        None => None,
    }
}

/// Where `/audio/` first stands in a URL behind `before`, the part behind
/// it is all of `rest`, whether or not `/audio/` stands in `rest` again.
pub proof fn lemma_segment_is_all_that_follows(before: Seq<char>, rest: Seq<char>)
    requires
        forall|j: int| 0 <= j < before.len() ==> !occurs_at(before + "/audio/"@ + rest, "/audio/"@, j),
    ensures
        audio_segment(before + "/audio/"@ + rest) == Some(rest),
{
    let url = before + "/audio/"@ + rest;
    let at = before.len() as int;
    assert(url.subrange(at, at + "/audio/"@.len()) =~= "/audio/"@);
    lemma_first_occurrence(url, "/audio/"@, 0, at);
    assert(url.skip(at + "/audio/"@.len()) =~= rest);
}

/// The path of the track on the file share: the part of the URL behind
/// `/audio/` with its percent escapes decoded, and the whole URL as it is
/// where it has no such part.
pub open spec fn track_path(url: Seq<char>) -> Result<Seq<char>, TrackError> {
    match audio_segment(url) {
        Some(segment) => {
            let bytes = percent_decoded(encode_utf8(segment));
            if valid_utf8(bytes) {
                Ok(decode_utf8(bytes))
            } else {
                Err(TrackError::UndecodablePath)
            }
        },
        None => Ok(url),
    }
}

/// The URI under which a speaker finds `path` on the file share.
pub open spec fn share_uri(file_server: Seq<char>, path: Seq<char>) -> Seq<char> {
    "x-file-cifs://"@ + file_server + "/"@ + path
}

/// The URL of the request that makes `speaker` play `uri`: the URI is the
/// last segment of the path, percent-encoded.
pub open spec fn transport_url(base_url: Seq<char>, speaker: Seq<char>, uri: Seq<char>) -> Seq<
    char,
> {
    base_url + "/"@ + speaker + "/setavtransporturi/"@ + percent_encoded(encode_utf8(uri))
}

/// The URL of the request that plays a track from the file share.
pub open spec fn share_play_url(
    base_url: Seq<char>,
    speaker: Seq<char>,
    track_url: Seq<char>,
    file_server: Seq<char>,
) -> Result<Seq<char>, TrackError> {
    match track_path(track_url) {
        Ok(path) => Ok(transport_url(base_url, speaker, share_uri(file_server, path))),
        Err(e) => Err(e),
    }
}

/// The URL of the request that plays a track as a clip, straight from its
/// own URL.
pub open spec fn clip_play_url(base_url: Seq<char>, speaker: Seq<char>, track_url: Seq<char>) -> Seq<
    char,
> {
    base_url + "/"@ + speaker + "/clip/"@ + track_url
}

/// The part of `track_url` behind the first `/audio/`.
pub fn audio_segment_of(track_url: &str) -> (segment: Option<&str>)
    ensures
        slice_text(segment) == audio_segment(track_url@),
{
    let chars = chars_of(track_url);
    let marker = chars_of("/audio/");
    match find(chars.as_slice(), marker.as_slice(), 0) {
        Some(at) => {
            assert(at + marker.len() <= chars.len()) by {
                assert(occurs_at(chars@, marker@, at as int));
            }
            let start: usize = at + marker.len();
            Some(track_url.substring_char(start, chars.len()))
        },
        None => None,
    }
}

/// The path of the track on the file share.
pub fn track_path_of(track_url: &str) -> (path: Result<String, TrackError>)
    ensures
        match path {
            Ok(p) => track_path(track_url@) == Ok::<Seq<char>, TrackError>(p@),
            Err(e) => track_path(track_url@) == Err::<Seq<char>, TrackError>(e),
        },
{
    match audio_segment_of(track_url) {
        Some(segment) => match decode(segment) {
            Some(path) => {
                proof {
                    encode_utf8_decode_utf8(path@);
                }
                Ok(path)
            },
            None => Err(TrackError::UndecodablePath),
        },
        None => Ok(String::from_str(track_url)),
    }
}

/// The URI under which a speaker finds `path` on the file share
/// `file_server`.
pub fn share_uri_of(file_server: &str, path: &str) -> (uri: String)
    ensures
        uri@ == share_uri(file_server@, path@),
{
    let mut uri = String::from_str("x-file-cifs://");
    uri.append(file_server);
    uri.append("/");
    uri.append(path);
    uri
}

/// The URL of the request that makes `speaker_id` play `uri`.
pub fn transport_url_of(base_url: &str, speaker_id: &str, uri: &str) -> (url: String)
    ensures
        url@ == transport_url(base_url@, speaker_id@, uri@),
{
    let encoded = encode(uri);
    let mut url = String::from_str(base_url);
    url.append("/");
    url.append(speaker_id);
    url.append("/setavtransporturi/");
    url.append(encoded.as_str());
    url
}

/// The URL of the request that plays a track as a clip.
pub fn clip_url_of(base_url: &str, speaker_id: &str, track_url: &str) -> (url: String)
    ensures
        url@ == clip_play_url(base_url@, speaker_id@, track_url@),
{
    let mut url = String::from_str(base_url);
    url.append("/");
    url.append(speaker_id);
    url.append("/clip/");
    url.append(track_url);
    url
}

} // verus!
