use vstd::prelude::*;

verus! {

/// Delivery guarantee of an MQTT message.
#[derive(Clone, Copy, Debug, PartialEq, Eq, Structural)]
pub enum Qos {
    AtMostOnce,
    AtLeastOnce,
    ExactlyOnce,
}

/// The QoS named by the number `level` of a configuration file, if any.
pub open spec fn qos_of_level(level: u8) -> Option<Qos> {
    if level == 0 {
        Some(Qos::AtMostOnce)
    } else if level == 1 {
        Some(Qos::AtLeastOnce)
    } else if level == 2 {
        Some(Qos::ExactlyOnce)
    } else {
        None
    }
}

impl Qos {
    /// Maps 0, 1 and 2 to the three delivery guarantees; any other number has none.
    pub fn from_level(level: u8) -> (r: Option<Qos>)
        ensures
            r == qos_of_level(level),
    {
        match level {
            0 => Some(Qos::AtMostOnce),
            1 => Some(Qos::AtLeastOnce),
            2 => Some(Qos::ExactlyOnce),
            _ => None,
        }
    }
}

/// A message that the bridge hands to the broker.
pub struct Publication {
    pub topic: String,
    pub payload: String,
    pub qos: Qos,
    pub retain: bool,
}

} // verus!
