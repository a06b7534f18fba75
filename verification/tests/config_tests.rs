use sensecap_indicator::firmware::config::{
    Config, DEFAULT_MQTT_BROKER_URL, DEFAULT_WIFI_PASSWORD, DEFAULT_WIFI_SSID,
};

#[test]
fn empty_environment_gives_the_defaults() {
    let config = Config::from_env_or_default(None, None, None, None, None);
    assert_eq!(config.wifi_ssid, "your_wifi_ssid");
    assert_eq!(config.wifi_password, "your_wifi_password");
    assert_eq!(config.mqtt_broker_url, "mqtt://broker.hivemq.com:1883");
    assert_eq!(config.mqtt_username, None);
    assert_eq!(config.mqtt_password, None);
    assert_eq!(config.wifi_ssid, DEFAULT_WIFI_SSID);
    assert_eq!(config.wifi_password, DEFAULT_WIFI_PASSWORD);
    assert_eq!(config.mqtt_broker_url, DEFAULT_MQTT_BROKER_URL);
}

#[test]
fn configured_values_win_over_defaults() {
    let config = Config::from_env_or_default(
        Some("home".to_string()),
        None,
        Some("mqtt://10.0.0.2:1883".to_string()),
        Some("user".to_string()),
        None,
    );
    assert_eq!(config.wifi_ssid, "home");
    assert_eq!(config.wifi_password, "your_wifi_password");
    assert_eq!(config.mqtt_broker_url, "mqtt://10.0.0.2:1883");
    assert_eq!(config.mqtt_username, Some("user".to_string()));
    assert_eq!(config.mqtt_password, None);
}

#[test]
fn an_empty_value_is_still_a_value() {
    let config =
        Config::from_env_or_default(Some(String::new()), Some(String::new()), None, None, None);
    assert_eq!(config.wifi_ssid, "");
    assert_eq!(config.wifi_password, "");
}
