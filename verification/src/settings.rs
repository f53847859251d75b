//! The configuration the process is started with.
//!
//! Loading, parsing and validating the configuration file is the
//! process's business; the library only defines the shape of the
//! values it is handed, and the defaults that fill the optional ones.

use vstd::prelude::*;

pub use crate::mqtt::MqttTransport;

verus! {

/// Everything the controller needs to run, immutable for the process
/// lifetime.
pub struct Settings {
    /// Serial port identifier of the controller link.
    pub serial_port: String,
    /// Device identifier used in topics and as the broker client id.
    pub id: String,
    /// Human-readable device name for discovery metadata.
    pub name: String,
    /// Topic prefix of the device's own topics.
    pub prefix: String,
    /// Discovery prefix of the automation hub; empty disables
    /// discovery publishing.
    pub hass_prefix: String,
    /// How to reach the broker.
    pub mqtt: MqttSettings,
}

/// How to reach the message broker.
pub struct MqttSettings {
    /// Broker host name or address.
    pub host: String,
    /// Broker port; the transport's standard port when absent.
    pub port: Option<u16>,
    /// Transport to connect over.
    pub transport: MqttTransport,
    /// Credentials, when the broker wants them.
    pub credentials: Option<MqttCredential>,
}

/// Username and password for the broker.
pub struct MqttCredential {
    /// The username.
    pub username: String,
    /// The password.
    pub password: String,
}

/// The topic prefix used when the configuration names none.
pub fn default_prefix() -> (r: String)
    ensures
        r@ == "desk"@,
{
    String::from_str("desk")
}

/// The discovery prefix used when the configuration names none.
pub fn default_hass_prefix() -> (r: String)
    ensures
        r@ == "homeassistant"@,
{
    String::from_str("homeassistant")
}

} // verus!
