use sonos_gateway::Exchange;
use sonos_gateway::Method;
use sonos_gateway::Request;
use sonos_gateway::SonosConfig;
use sonos_gateway::SonosService;
use sonos_gateway::TrackError;

fn service() -> SonosService {
    SonosService::new("http://192.168.0.5:5005".to_string())
}

fn get(url: &str) -> Request {
    Request { method: Method::Get, url: url.to_string() }
}

fn post(url: &str) -> Request {
    Request { method: Method::Post, url: url.to_string() }
}

fn refused<B>() -> Exchange<B> {
    Exchange::Unreachable { error: "error sending request: connection refused".to_string() }
}

fn answered(status: u16, body: &str) -> Exchange<Vec<u8>> {
    Exchange::Answered { status, body: body.as_bytes().to_vec() }
}

fn said(status: u16, body: &str) -> Exchange<String> {
    Exchange::Answered { status, body: body.to_string() }
}

#[test]
fn the_gateway_targets_the_url_it_was_made_with() {
    assert_eq!(service().base_url(), "http://192.168.0.5:5005");
    assert_eq!(SonosService::new(String::new()).base_url(), "");
}

#[test]
fn the_gateway_targets_the_configured_url() {
    let config = SonosConfig { api_url: Some("http://sonos.local:5005".to_string()), mp3_server: None };
    assert_eq!(SonosService::from_config(&config).base_url(), "http://sonos.local:5005");
}

#[test]
fn without_a_configured_url_the_gateway_targets_the_default() {
    let service = SonosService::from_config(&SonosConfig::default());
    assert_eq!(service.base_url(), "http://192.168.0.5:5005");
    assert_eq!(service.speakers_request(), get("http://192.168.0.5:5005/zones"));
}

#[test]
fn zones_and_states_are_asked_for_with_get() {
    assert_eq!(service().speakers_request(), get("http://192.168.0.5:5005/zones"));
    assert_eq!(service().state_request("Kitchen"), get("http://192.168.0.5:5005/Kitchen/state"));
    assert_eq!(
        service().state_request("Living Room"),
        get("http://192.168.0.5:5005/Living Room/state")
    );
    assert_eq!(service().state_request(""), get("http://192.168.0.5:5005//state"));
    assert_eq!(SonosService::new(String::new()).speakers_request(), get("/zones"));
}

#[test]
fn a_clip_is_played_with_post() {
    assert_eq!(
        service().clip_request("Kitchen", "http://host/a.mp3"),
        post("http://192.168.0.5:5005/Kitchen/clip/http://host/a.mp3")
    );
}

#[test]
fn a_refused_connection_gives_no_speakers() {
    assert!(service().get_speakers(&refused()).is_empty());
}

#[test]
fn a_body_that_cannot_be_read_gives_no_speakers() {
    for status in [200, 404] {
        let lost = Exchange::Unreadable { status, error: "connection reset".to_string() };
        assert!(service().get_speakers(&lost).is_empty());
    }
}

#[test]
fn a_body_that_cannot_be_read_gives_the_idle_state() {
    for status in [200, 404] {
        let lost = Exchange::Unreadable { status, error: "connection reset".to_string() };
        assert_idle(&service().get_state(&lost));
    }
}

#[test]
fn a_body_that_cannot_be_read_counts_as_empty_for_a_play_request() {
    let lost = Exchange::Unreadable { status: 204, error: "connection reset".to_string() };
    let response = service().play_track(&lost);
    assert!(response.success);
    assert_eq!(response.message, "Track started playing on Sonos");
    let lost = Exchange::Unreadable { status: 500, error: "connection reset".to_string() };
    let response = service().play_track(&lost);
    assert!(!response.success);
    assert_eq!(response.message, "HTTP error 500 Internal Server Error: ");
}

#[test]
fn a_status_that_is_no_success_gives_no_speakers() {
    let zones = r#"[{"coordinator":{"roomName":"Kitchen"}}]"#;
    for status in [100, 199, 300, 301, 404, 500, 503, 0, 42, 1000, u16::MAX] {
        assert!(service().get_speakers(&answered(status, zones)).is_empty(), "{}", status);
    }
}

#[test]
fn every_success_status_gives_the_speakers() {
    let zones = r#"[{"coordinator":{"roomName":"Kitchen"}}]"#;
    for status in [200, 201, 204, 250, 299] {
        let speakers = service().get_speakers(&answered(status, zones));
        assert_eq!(speakers.len(), 1, "{}", status);
        assert_eq!(speakers[0].id, "Kitchen");
    }
}

#[test]
fn a_body_that_is_no_json_gives_no_speakers() {
    for body in ["", "<html>busy</html>", "[{\"coordinator\":", "[1,2,]", "\u{feff}[]"] {
        assert!(service().get_speakers(&answered(200, body)).is_empty(), "{:?}", body);
    }
    let bytes = Exchange::Answered { status: 200, body: vec![b'[', 0xff, b']'] };
    assert!(service().get_speakers(&bytes).is_empty());
}

#[test]
fn the_speakers_of_a_zone_list() {
    let body = r#"[
        {"coordinator":{"uuid":"RINCON_1","roomName":"Living Room","state":{"volume":50}},"members":[]},
        {"uuid":"RINCON_2"},
        {"coordinator":{"uuid":"RINCON_3","roomName":"Kitchen","state":{"volume":75}}}
    ]"#;
    let speakers = service().get_speakers(&answered(200, body));
    assert_eq!(speakers.len(), 2);
    assert_eq!(speakers[0].id, "Living Room");
    assert_eq!(speakers[0].name, "Living Room");
    assert!(speakers[0].available);
    assert_eq!(speakers[0].volume, Some(50));
    assert_eq!(speakers[1].id, "Kitchen");
    assert_eq!(speakers[1].volume, Some(75));
}

fn assert_idle(state: &sonos_gateway::SonosState) {
    assert!(!state.is_playing);
    assert_eq!(state.artist, None);
    assert_eq!(state.title, None);
    assert_eq!(state.position, None);
    assert_eq!(state.duration, None);
}

#[test]
fn a_refused_connection_gives_the_idle_state() {
    assert_idle(&service().get_state(&refused()));
}

#[test]
fn a_status_that_is_no_success_gives_the_idle_state() {
    let body = r#"{"playbackState":"PLAYING","relTime":"0:00:01"}"#;
    for status in [199, 300, 404, 500] {
        assert_idle(&service().get_state(&answered(status, body)));
    }
}

#[test]
fn a_body_that_is_no_json_gives_the_idle_state() {
    assert_idle(&service().get_state(&answered(200, "PLAYING")));
    assert_idle(&service().get_state(&answered(200, "")));
}

#[test]
fn the_state_of_a_speaker() {
    let body = r#"{
        "playbackState": "PLAYING",
        "relTime": "0:02:00",
        "currentTrack": {"artist": "Mozart", "title": "Piano Sonata No. 14", "duration": "0:04:00"}
    }"#;
    let state = service().get_state(&answered(200, body));
    assert!(state.is_playing);
    assert_eq!(state.artist.as_deref(), Some("Mozart"));
    assert_eq!(state.title.as_deref(), Some("Piano Sonata No. 14"));
    assert_eq!(state.position, Some(120));
    assert_eq!(state.duration, Some(240));
}

#[test]
fn the_play_request_of_a_track() {
    assert_eq!(
        service().play_track_request(
            "Elena",
            "http://localhost:5050/api/v8/audio/Test%2FKinderlieder%2FTest.mp3",
            "192.168.0.6/mp3"
        ),
        Ok(post(
            "http://192.168.0.5:5005/Elena/setavtransporturi/x-file-cifs%3A%2F%2F192.168.0.6%2Fmp3%2FTest%2FKinderlieder%2FTest.mp3"
        ))
    );
}

#[test]
fn the_play_request_decodes_then_encodes() {
    assert_eq!(
        service().play_track_request("Kitchen", "http://host/api/v8/audio/Test%2FSong.mp3", "192.168.0.6/mp3"),
        Ok(post(
            "http://192.168.0.5:5005/Kitchen/setavtransporturi/x-file-cifs%3A%2F%2F192.168.0.6%2Fmp3%2FTest%2FSong.mp3"
        ))
    );
}

#[test]
fn the_play_request_of_a_track_without_marker_holds_the_whole_url() {
    assert_eq!(
        service().play_track_request("Kitchen", "http://host/a%20b.mp3", "nas"),
        Ok(post(
            "http://192.168.0.5:5005/Kitchen/setavtransporturi/x-file-cifs%3A%2F%2Fnas%2Fhttp%3A%2F%2Fhost%2Fa%2520b.mp3"
        ))
    );
}

#[test]
fn the_play_request_of_a_track_with_the_marker_in_its_path() {
    assert_eq!(
        service().play_track_request(
            "Kitchen",
            "http://host/api/v8/audio/Mix/audio/Song.mp3",
            "192.168.0.6/mp3"
        ),
        Ok(post(
            "http://192.168.0.5:5005/Kitchen/setavtransporturi/x-file-cifs%3A%2F%2F192.168.0.6%2Fmp3%2FMix%2Faudio%2FSong.mp3"
        ))
    );
}

#[test]
fn a_volume_beyond_the_loudest_is_not_reported() {
    let body = r#"[{"coordinator":{"roomName":"Kitchen","state":{"volume":300}}}]"#;
    let speakers = service().get_speakers(&answered(200, body));
    assert_eq!(speakers.len(), 1);
    assert_eq!(speakers[0].id, "Kitchen");
    assert_eq!(speakers[0].volume, None);
}

#[test]
fn a_position_beyond_the_largest_is_not_reported() {
    let body = r#"{"playbackState":"PLAYING","relTime":"1193046:28:16","currentTrack":{"duration":"1193046:28:15"}}"#;
    let state = service().get_state(&answered(200, body));
    assert!(state.is_playing);
    assert_eq!(state.position, None);
    assert_eq!(state.duration, Some(u32::MAX));
}

#[test]
fn a_track_whose_path_is_no_text_has_no_play_request() {
    assert_eq!(
        service().play_track_request("Kitchen", "http://host/audio/%FF.mp3", "nas"),
        Err(TrackError::UndecodablePath)
    );
}

#[test]
fn a_track_without_play_request_is_reported_as_a_failure() {
    let response = TrackError::UndecodablePath.response();
    assert!(!response.success);
    assert_eq!(response.message, "Invalid track URL: the path is not valid UTF-8");
}

#[test]
fn a_success_status_means_the_track_plays() {
    for status in [200, 201, 204, 299] {
        let response = service().play_track(&said(status, "ignored"));
        assert!(response.success, "{}", status);
        assert_eq!(response.message, "Track started playing on Sonos");
    }
}

#[test]
fn not_found_is_a_failure_that_quotes_status_and_body() {
    let response = service().play_track(&said(404, "speaker Kitchn not found"));
    assert!(!response.success);
    assert!(response.message.contains("404"));
    assert!(response.message.contains("speaker Kitchn not found"));
    assert_eq!(response.message, "HTTP error 404 Not Found: speaker Kitchn not found");
}

#[test]
fn other_failures_quote_their_status_and_body() {
    let response = service().play_track(&said(500, "{\"status\":\"error\"}"));
    assert!(!response.success);
    assert_eq!(response.message, "HTTP error 500 Internal Server Error: {\"status\":\"error\"}");
    let response = service().play_track(&said(301, ""));
    assert!(!response.success);
    assert_eq!(response.message, "HTTP error 301 Moved Permanently: ");
    let response = service().play_track(&said(199, "x"));
    assert!(!response.success);
    assert_eq!(response.message, "HTTP error 199 <unknown status code>: x");
    let response = service().play_track(&said(599, "x"));
    assert!(!response.success);
    assert_eq!(response.message, "HTTP error 599 <unknown status code>: x");
    let response = service().play_track(&said(999, "x"));
    assert_eq!(response.message, "HTTP error 999 <unknown status code>: x");
    let response = service().play_track(&said(100, "x"));
    assert_eq!(response.message, "HTTP error 100 Continue: x");
}

#[test]
fn a_number_that_is_no_status_code_is_shown_bare() {
    let response = service().play_track(&said(42, "x"));
    assert!(!response.success);
    assert_eq!(response.message, "HTTP error 42: x");
    assert_eq!(service().play_track(&said(0, "x")).message, "HTTP error 0: x");
    assert_eq!(service().play_track(&said(99, "x")).message, "HTTP error 99: x");
    assert_eq!(service().play_track(&said(1000, "x")).message, "HTTP error 1000: x");
    assert_eq!(service().play_track(&said(65535, "")).message, "HTTP error 65535: ");
}

#[test]
fn a_refused_connection_is_a_failure_that_quotes_the_error() {
    let response = service().play_track(&refused());
    assert!(!response.success);
    assert_eq!(
        response.message,
        "Connection error: error sending request: connection refused"
    );
    let silent = service().play_track(&Exchange::Unreachable { error: String::new() });
    assert!(!silent.success);
    assert_eq!(silent.message, "Connection error: ");
}
