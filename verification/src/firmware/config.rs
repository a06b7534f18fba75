//! Start-up configuration: what the environment gave, with defaults for
//! what it did not.

use vstd::prelude::*;

verus! {

/// Network name used when none is configured.
pub const DEFAULT_WIFI_SSID: &'static str = "your_wifi_ssid";

/// Network password used when none is configured.
pub const DEFAULT_WIFI_PASSWORD: &'static str = "your_wifi_password";

/// Broker used when none is configured.
pub const DEFAULT_MQTT_BROKER_URL: &'static str = "mqtt://broker.hivemq.com:1883";

/// What the firmware needs to know to reach its network and its broker.
pub struct Config {
    pub wifi_ssid: String,
    pub wifi_password: String,
    pub mqtt_broker_url: String,
    pub mqtt_username: Option<String>,
    pub mqtt_password: Option<String>,
}

/// The configured text, or the default where there is none.
pub open spec fn text_or(configured: Option<String>, default: &str) -> Seq<char> {
    match configured {
        Some(text) => text@,
        None => default@,
    }
}

fn or_default(configured: Option<String>, default: &str) -> (text: String)
    ensures
        text@ == text_or(configured, default),
{
    match configured {
        Some(text) => text,
        None => default.to_owned(),
    }
}

impl Config {
    /// The configuration for the values found in the environment: network
    /// name, network password and broker fall back to their defaults, the
    /// broker's user name and password stay unset.
    pub fn from_env_or_default(
        wifi_ssid: Option<String>,
        wifi_password: Option<String>,
        mqtt_broker_url: Option<String>,
        mqtt_username: Option<String>,
        mqtt_password: Option<String>,
    ) -> (config: Config)
        ensures
            config.wifi_ssid@ == text_or(wifi_ssid, DEFAULT_WIFI_SSID),
            config.wifi_password@ == text_or(wifi_password, DEFAULT_WIFI_PASSWORD),
            config.mqtt_broker_url@ == text_or(mqtt_broker_url, DEFAULT_MQTT_BROKER_URL),
            config.mqtt_username == mqtt_username,
            config.mqtt_password == mqtt_password,
    {
        Config {
            wifi_ssid: or_default(wifi_ssid, DEFAULT_WIFI_SSID),
            wifi_password: or_default(wifi_password, DEFAULT_WIFI_PASSWORD),
            mqtt_broker_url: or_default(mqtt_broker_url, DEFAULT_MQTT_BROKER_URL),
            mqtt_username,
            mqtt_password,
        }
    }
}

} // verus!
