use vstd::prelude::*;

use crate::message::{qos_of_level, Qos};

verus! {

/// The whole configuration of the bridge.
pub struct Config {
    pub chip: String,
    pub mqtt: MqttConfig,
    pub digital_outputs: Vec<DigitalOutput>,
}

impl Config {
    /// Path of the GPIO character device used when none is configured.
    pub fn default_chip() -> (r: String)
        ensures
            r@ == "/dev/gpiochip0"@,
    {
        "/dev/gpiochip0".to_owned()
    }
}

/// Settings of the broker connection.
pub struct MqttConfig {
    pub name: String,
    pub host: String,
    pub port: u16,
    pub user: Option<String>,
    pub password: Option<String>,
    pub qos: u8,
    pub keep_alive: u64,
    pub clean_session: bool,
    pub retain: bool,
    pub cap: usize,
    pub availability_topic: String,
    pub payload_available: String,
    pub payload_not_available: String,
}

impl MqttConfig {
    pub fn default_name() -> (r: String)
        ensures
            r@ == "rpi-mqtt-gpio"@,
    {
        "rpi-mqtt-gpio".to_owned()
    }

    pub fn default_host() -> (r: String)
        ensures
            r@ == "localhost"@,
    {
        "localhost".to_owned()
    }

    pub fn default_port() -> (r: u16)
        ensures
            r == 1883,
    {
        1883
    }

    pub fn default_qos() -> (r: u8)
        ensures
            r == 1,
    {
        1
    }

    /// Keep-alive interval, in seconds.
    pub fn default_keep_alive() -> (r: u64)
        ensures
            r == 5,
    {
        5
    }

    pub fn default_clean_session() -> (r: bool)
        ensures
            r == false,
    {
        false
    }

    pub fn default_retain() -> (r: bool)
        ensures
            r == false,
    {
        false
    }

    /// Capacity of the outbound request queue.
    pub fn default_cap() -> (r: usize)
        ensures
            r == 10,
    {
        10
    }

    pub fn default_availability_topic() -> (r: String)
        ensures
            r@ == "rpi-mqtt-gpio/status"@,
    {
        "rpi-mqtt-gpio/status".to_owned()
    }

    pub fn default_payload_available() -> (r: String)
        ensures
            r@ == "online"@,
    {
        "online".to_owned()
    }

    pub fn default_payload_not_available() -> (r: String)
        ensures
            r@ == "offline"@,
    {
        "offline".to_owned()
    }

    /// The delivery guarantee that the `qos` number names; `None` unless it is 0, 1 or 2.
    pub fn qos_level(&self) -> (r: Option<Qos>)
        ensures
            r == qos_of_level(self.qos),
    {
        Qos::from_level(self.qos)
    }
}

/// One GPIO line driven as an output, with its topics and payload words.
pub struct DigitalOutput {
    pub name: String,
    pub gpio: u32,
    pub mqtt_topic: String,
    pub mqtt_topic_set: String,
    pub mqtt_state_high: String,
    pub mqtt_state_low: String,
    pub initial_state: String,
}

impl DigitalOutput {
    pub fn default_name() -> (r: String)
        ensures
            r@ == "gpio"@,
    {
        "gpio".to_owned()
    }

    pub fn default_mqtt_state_high() -> (r: String)
        ensures
            r@ == "ON"@,
    {
        "ON".to_owned()
    }

    pub fn default_mqtt_state_low() -> (r: String)
        ensures
            r@ == "OFF"@,
    {
        "OFF".to_owned()
    }

    pub fn default_initial_state() -> (r: String)
        ensures
            r@ == "OFF"@,
    {
        "OFF".to_owned()
    }
}

} // verus!
