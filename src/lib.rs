//! Bridge between MQTT command topics and GPIO output lines: the decisions
//! that the bridge makes, as functions from plain values to plain values.

pub mod config;
pub mod dispatch;
pub mod laws;
pub mod message;
pub mod options;
pub mod pin;
pub mod session;

pub use config::{Config, DigitalOutput, MqttConfig};
pub use message::{Publication, Qos};
pub use pin::Pin;
pub use session::{command_topics, ConnectPlan, Credentials, Mqtt};
pub use dispatch::{dispatch, initial_publications, step, Inbound, LineWrite, Step};
