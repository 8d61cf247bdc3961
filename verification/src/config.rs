//! The compiled-in configuration, gathered into one explicit value that is
//! constructed once at startup and passed into each component, and the
//! greeting published on the topic as a liveness signal.

use vstd::prelude::*;
use vstd::string::StringExecFns;

verus! {

/// The broker client identifier.
pub const MQTT_CLIENT_ID: &'static str = "esp32-epaper-main";

/// The one topic, shared by the startup greeting publish and the inbound
/// subscription.
pub const MQTT_TOPIC_NAME: &'static str = "topic/sdk/test/rust";

/// Everything the startup sequence needs: network credentials, broker
/// endpoint, client identifier and topic.
pub struct Config {
    pub wifi_ssid: String,
    pub wifi_pass: String,
    pub mqtt_endpoint: String,
    pub mqtt_client_id: String,
    pub mqtt_topic: String,
}

impl Config {
    /// Gathers the startup parameters into one configuration value.
    pub fn new(
        wifi_ssid: String,
        wifi_pass: String,
        mqtt_endpoint: String,
        mqtt_client_id: String,
        mqtt_topic: String,
    ) -> (c: Config)
        ensures
            c.wifi_ssid@ == wifi_ssid@,
            c.wifi_pass@ == wifi_pass@,
            c.mqtt_endpoint@ == mqtt_endpoint@,
            c.mqtt_client_id@ == mqtt_client_id@,
            c.mqtt_topic@ == mqtt_topic@,
    {
        Config { wifi_ssid, wifi_pass, mqtt_endpoint, mqtt_client_id, mqtt_topic }
    }
}

/// The greeting published on the topic right after subscribing, as a
/// liveness signal; being subscribed to the same topic, the client gets it
/// back as the first message rendered on the panel.
pub fn greeting(topic: &str) -> (r: String)
    ensures
        r@ == "Hello from "@ + topic@ + "!"@,
{
    let mut s = String::from_str("Hello from ");
    s.append(topic);
    s.append("!");
    s
}

} // verus!
