//! The gateway: for each instruction, the URL to ask and the meaning of
//! what came back.

use vstd::prelude::*;
use crate::config::setting_or;
use crate::config::SonosConfig;
use crate::config::DEFAULT_SONOS_API_URL;
use crate::json::parse;
use crate::model::idle_state;
use crate::model::speaker_views;
use crate::model::Exchange;
use crate::model::Method;
use crate::model::Request;
use crate::model::RequestView;
use crate::model::ResponseView;
use crate::model::SonosResponse;
use crate::model::SonosSpeaker;
use crate::model::SonosState;
use crate::model::SpeakerView;
use crate::numeral::decimal_digits;
use crate::numeral::decimal_value;
use crate::numeral::is_numeral;
use crate::numeral::lemma_digits_write_the_number;
use crate::playback::state_from_document;
use crate::playback::state_of_exchange;
use crate::status::describe_status;
use crate::status::is_success;
use crate::status::is_success_code;
use crate::status::status_text;
use crate::text::occurs_at;
use crate::track::clip_play_url;
use crate::track::clip_url_of;
use crate::track::share_play_url;
use crate::track::share_uri_of;
use crate::track::track_path_of;
use crate::track::transport_url_of;
use crate::track::TrackError;
use crate::zones::speakers_from_document;
use crate::zones::speakers_of_exchange;

verus! {

/// The result of a play request whose response had this status and this
/// body: success where the status means success, whatever the body; else a
/// failure whose message quotes the status and the body.
pub open spec fn answer_result(status: u16, body: Seq<char>) -> ResponseView {
    if is_success_code(status) {
        ResponseView { success: true, message: "Track started playing on Sonos"@ }
    } else {
        ResponseView { success: false, message: "HTTP error "@ + status_text(status) + ": "@ + body }
    }
}

/// The result of a play request, by how the request ended. A body that
/// could not be read counts as empty. Where no response arrived, the
/// result is a failure whose message quotes the client's description.
pub open spec fn play_result(exchange: Exchange<String>) -> ResponseView {
    match exchange {
        Exchange::Answered { status, body } => answer_result(status, body@),
        Exchange::Unreadable { status, .. } => answer_result(status, Seq::empty()),
        Exchange::Unreachable { error } => ResponseView {
            success: false,
            message: "Connection error: "@ + error@,
        },
    }
}

/// The result of a play request that was never sent, because no URL could
/// be made for the track.
pub open spec fn refusal(error: TrackError) -> ResponseView {
    match error {
        TrackError::UndecodablePath => ResponseView {
            success: false,
            message: "Invalid track URL: the path is not valid UTF-8"@,
        },
    }
}

/// The request with method `GET` to `url`.
pub open spec fn get(url: Seq<char>) -> RequestView {
    RequestView { method: Method::Get, url }
}

/// The request with method `POST` to `url`.
pub open spec fn post(url: Seq<char>) -> RequestView {
    RequestView { method: Method::Post, url }
}

/// The request that plays a track from the file share, or why there is
/// none.
pub open spec fn share_play_request(
    base_url: Seq<char>,
    speaker: Seq<char>,
    track_url: Seq<char>,
    file_server: Seq<char>,
) -> Result<RequestView, TrackError> {
    match share_play_url(base_url, speaker, track_url, file_server) {
        Ok(url) => Ok(post(url)),
        Err(e) => Err(e),
    }
}

/// `part` stands somewhere in `s`.
pub open spec fn quotes(s: Seq<char>, part: Seq<char>) -> bool {
    exists|i: int| occurs_at(s, part, i)
}

impl TrackError {
    /// The result to report for a play request that was never sent.
    pub fn response(&self) -> (response: SonosResponse)
        ensures
            response@ == refusal(*self),
    {
        match self {
            TrackError::UndecodablePath => SonosResponse {
                success: false,
                message: String::from_str("Invalid track URL: the path is not valid UTF-8"),
            },
        }
    }
}

/// A gateway to one control API.
pub struct SonosService {
    base_url: String,
}

impl SonosService {
    /// The base URL of the control API that this gateway targets.
    pub closed spec fn target(&self) -> Seq<char> {
        self.base_url@
    }

    /// A gateway to the control API at `base_url`.
    pub fn new(base_url: String) -> (service: SonosService)
        ensures
            service.target() == base_url@,
    {
        SonosService { base_url }
    }

    /// A gateway to the control API that `config` names, or to
    /// [`DEFAULT_SONOS_API_URL`] where it names none.
    pub fn from_config(config: &SonosConfig) -> (service: SonosService)
        ensures
            service.target() == setting_or(config.api_url, DEFAULT_SONOS_API_URL@),
    {
        SonosService { base_url: config.get_api_url() }
    }

    /// The base URL of the control API that this gateway targets.
    pub fn base_url(&self) -> (url: &str)
        ensures
            url@ == self.target(),
    {
        self.base_url.as_str()
    }

    /// The request for the list of zones: `GET {base}/zones`.
    pub fn speakers_request(&self) -> (request: Request)
        ensures
            request@ == get(self.target() + "/zones"@),
    {
        let mut url = self.base_url.clone();
        url.append("/zones");
        Request { method: Method::Get, url }
    }

    /// The speakers, given how [`Self::speakers_request`] ended. Never
    /// fails: where no response arrived, the status is no success or the
    /// body is no JSON text, there are no speakers.
    pub fn get_speakers(&self, exchange: &Exchange<Vec<u8>>) -> (speakers: Vec<SonosSpeaker>)
        ensures
            speaker_views(speakers@) == speakers_of_exchange(*exchange),
            !(*exchange matches Exchange::Answered { status, .. } && is_success_code(status))
                ==> speakers@.len() == 0,
    {
        match exchange {
            Exchange::Answered { status, body } => {
                if is_success(*status) {
                    match parse(body.as_slice()) {
                        Some(doc) => speakers_from_document(&doc),
                        None => no_speakers(),
                    }
                } else {
                    no_speakers()
                }
            },
            Exchange::Unreadable { .. } => no_speakers(),
            Exchange::Unreachable { .. } => no_speakers(),
        }
    }

    /// The request for the playback state of `speaker_id`:
    /// `GET {base}/{speaker}/state`.
    pub fn state_request(&self, speaker_id: &str) -> (request: Request)
        ensures
            request@ == get(self.target() + "/"@ + speaker_id@ + "/state"@),
    {
        let mut url = self.base_url.clone();
        url.append("/");
        url.append(speaker_id);
        url.append("/state");
        Request { method: Method::Get, url }
    }

    /// The playback state, given how [`Self::state_request`] ended. Never
    /// fails: where no response arrived, the status is no success or the
    /// body is no JSON text, the state is idle.
    pub fn get_state(&self, exchange: &Exchange<Vec<u8>>) -> (state: SonosState)
        ensures
            state@ == state_of_exchange(*exchange),
            !(*exchange matches Exchange::Answered { status, .. } && is_success_code(status))
                ==> state@ == idle_state(),
    {
        match exchange {
            Exchange::Answered { status, body } => {
                if is_success(*status) {
                    match parse(body.as_slice()) {
                        Some(doc) => state_from_document(&doc),
                        None => SonosState::idle(),
                    }
                } else {
                    SonosState::idle()
                }
            },
            Exchange::Unreadable { .. } => SonosState::idle(),
            Exchange::Unreachable { .. } => SonosState::idle(),
        }
    }

    /// The request that makes `speaker_id` play the track from the file
    /// share `file_server`: `POST {base}/{speaker}/setavtransporturi/{uri}`,
    /// where the URI names the track's path on the file share. There is no
    /// request where the track's path cannot be decoded;
    /// [`TrackError::response`] is then the result to report.
    pub fn play_track_request(
        &self,
        speaker_id: &str,
        track_url: &str,
        file_server: &str,
    ) -> (request: Result<Request, TrackError>)
        ensures
            match request {
                Ok(r) => share_play_request(self.target(), speaker_id@, track_url@, file_server@)
                    == Ok::<RequestView, TrackError>(r@),
                Err(e) => share_play_request(self.target(), speaker_id@, track_url@, file_server@)
                    == Err::<RequestView, TrackError>(e),
            },
    {
        match track_path_of(track_url) {
            Ok(path) => {
                let uri = share_uri_of(file_server, path.as_str());
                let url = transport_url_of(self.base_url.as_str(), speaker_id, uri.as_str());
                Ok(Request { method: Method::Post, url })
            },
            Err(e) => Err(e),
        }
    }

    /// The request that makes `speaker_id` play the track as a clip,
    /// straight from `track_url`: `POST {base}/{speaker}/clip/{track_url}`.
    pub fn clip_request(&self, speaker_id: &str, track_url: &str) -> (request: Request)
        ensures
            request@ == post(clip_play_url(self.target(), speaker_id@, track_url@)),
    {
        let url = clip_url_of(self.base_url.as_str(), speaker_id, track_url);
        Request { method: Method::Post, url }
    }

    /// The result of playing a track, given how
    /// [`Self::play_track_request`] or [`Self::clip_request`] ended. Never
    /// fails: every failure is a result with `success` false and a message.
    pub fn play_track(&self, exchange: &Exchange<String>) -> (response: SonosResponse)
        ensures
            response@ == play_result(*exchange),
            response.success <==> (match *exchange {
                Exchange::Answered { status, .. } => is_success_code(status),
                Exchange::Unreadable { status, .. } => is_success_code(status),
                Exchange::Unreachable { .. } => false,
            }),
    {
        match exchange {
            Exchange::Answered { status, body } => answer(*status, body.as_str()),
            Exchange::Unreadable { status, .. } => {
                let response = answer(*status, "");
                proof {
                    reveal_strlit("");
                    assert(""@ =~= Seq::<char>::empty());
                }
                response
            },
            Exchange::Unreachable { error } => {
                let mut message = String::from_str("Connection error: ");
                message.append(error.as_str());
                SonosResponse { success: false, message }
            },
        }
    }
}

/// The empty list of speakers.
fn no_speakers() -> (speakers: Vec<SonosSpeaker>)
    ensures
        speakers@.len() == 0,
        speaker_views(speakers@) == Seq::<SpeakerView>::empty(),
{
    let speakers: Vec<SonosSpeaker> = Vec::new();
    assert(speaker_views(speakers@) =~= Seq::<SpeakerView>::empty());
    speakers
}

/// The result of a play request whose response had this status and body.
fn answer(status: u16, body: &str) -> (response: SonosResponse)
    ensures
        response@ == answer_result(status, body@),
{
    if is_success(status) {
        SonosResponse {
            success: true,
            message: String::from_str("Track started playing on Sonos"),
        }
    } else {
        let mut message = String::from_str("HTTP error ");
        message.append(describe_status(status).as_str());
        message.append(": ");
        message.append(body);
        SonosResponse { success: false, message }
    }
}

/// Where the backend answers a play request with a status that is no
/// success, the result is a failure whose message quotes the status code,
/// written in decimal digits, and the body of the response.
pub proof fn lemma_rejection_quotes_status_and_body(exchange: Exchange<String>)
    requires
        exchange matches Exchange::Answered { status, .. } && !is_success_code(status),
    ensures
        !play_result(exchange).success,
        exchange matches Exchange::Answered { status, body } && {
            let digits = decimal_digits(status as nat);
            &&& is_numeral(digits)
            &&& decimal_value(digits) == status
            &&& quotes(play_result(exchange).message, digits)
            &&& quotes(play_result(exchange).message, body@)
        },
{
    let message = play_result(exchange).message;
    let status = exchange->Answered_status;
    let body = exchange->body@;
    let digits = decimal_digits(status as nat);
    let at = "HTTP error "@.len() as int;
    lemma_digits_write_the_number(status as nat);
    assert(message.subrange(at, at + digits.len()) =~= digits);
    assert(occurs_at(message, digits, at));
    assert(message.subrange(message.len() - body.len(), message.len() as int) =~= body);
    assert(occurs_at(message, body, message.len() - body.len()));
}

/// Where no response arrives for a play request, the result is a failure
/// whose message quotes the client's description of what went wrong.
pub proof fn lemma_unreachable_quotes_error(exchange: Exchange<String>)
    requires
        exchange is Unreachable,
    ensures
        !play_result(exchange).success,
        exchange matches Exchange::Unreachable { error } && quotes(
            play_result(exchange).message,
            error@,
        ),
{
    let message = play_result(exchange).message;
    let error = exchange->Unreachable_error@;
    assert(message.subrange(message.len() - error.len(), message.len() as int) =~= error);
    assert(occurs_at(message, error, message.len() - error.len()));
}

} // verus!
