use sonos_gateway::SonosConfig;
use sonos_gateway::DEFAULT_SONOS_API_URL;
use sonos_gateway::DEFAULT_SONOS_MP3_SERVER;

#[test]
fn the_defaults() {
    assert_eq!(DEFAULT_SONOS_API_URL, "http://192.168.0.5:5005");
    assert_eq!(DEFAULT_SONOS_MP3_SERVER, "192.168.0.6/mp3");
}

#[test]
fn an_unset_configuration_gives_the_defaults() {
    let config = SonosConfig::default();
    assert_eq!(config.api_url, None);
    assert_eq!(config.mp3_server, None);
    assert_eq!(config.get_api_url(), "http://192.168.0.5:5005");
    assert_eq!(config.get_mp3_server(), "192.168.0.6/mp3");
}

#[test]
fn what_is_set_is_used() {
    let config = SonosConfig {
        api_url: Some("http://sonos.local:5005".to_string()),
        mp3_server: Some("nas.local/music".to_string()),
    };
    assert_eq!(config.get_api_url(), "http://sonos.local:5005");
    assert_eq!(config.get_mp3_server(), "nas.local/music");
}

#[test]
fn each_setting_defaults_by_itself() {
    let only_url = SonosConfig { api_url: Some("http://10.0.0.2:5005".to_string()), mp3_server: None };
    assert_eq!(only_url.get_api_url(), "http://10.0.0.2:5005");
    assert_eq!(only_url.get_mp3_server(), "192.168.0.6/mp3");
    let only_server = SonosConfig { api_url: None, mp3_server: Some("10.0.0.3/share".to_string()) };
    assert_eq!(only_server.get_api_url(), "http://192.168.0.5:5005");
    assert_eq!(only_server.get_mp3_server(), "10.0.0.3/share");
}

#[test]
fn an_empty_setting_is_set() {
    let config = SonosConfig { api_url: Some(String::new()), mp3_server: Some(String::new()) };
    assert_eq!(config.get_api_url(), "");
    assert_eq!(config.get_mp3_server(), "");
}

#[test]
fn configurations_compare_and_copy() {
    let config = SonosConfig { api_url: Some("a".to_string()), mp3_server: None };
    assert_eq!(config.clone(), config);
    assert_ne!(config, SonosConfig::default());
    assert_eq!(SonosConfig::default(), SonosConfig { api_url: None, mp3_server: None });
}
