use vstd::prelude::*;
use vstd::utf8::encode_utf8;

use crate::config::DigitalOutput;
use crate::message::{Publication, Qos};

verus! {

/// One GPIO output line with the topics and payload words that drive it.
///
/// The line itself is held by the caller; `line` is its offset on the chip.
pub struct Pin {
    pub line: u32,
    pub mqtt_topic: String,
    pub mqtt_topic_set: String,
    pub mqtt_state_high: String,
    pub mqtt_state_low: String,
    pub qos: Qos,
    pub retain: bool,
}

/// The payload that announces line level `level`: the high word for 1, the low word for 0.
pub open spec fn payload_of_level(high: Seq<char>, low: Seq<char>, level: u8) -> Seq<char> {
    if level == 1 {
        high
    } else {
        low
    }
}

/// The level that a command payload asks for: 1 for exactly the bytes of the high
/// word, else 0 for exactly the bytes of the low word, else none.
pub open spec fn level_of_command(high: Seq<char>, low: Seq<char>, payload: Seq<u8>) -> Option<u8> {
    if payload == encode_utf8(high) {
        Some(1u8)
    } else if payload == encode_utf8(low) {
        Some(0u8)
    } else {
        None
    }
}

/// The level a line is requested with: high when the initial state names the high word.
pub open spec fn initial_level_of(initial: Seq<char>, high: Seq<char>) -> u8 {
    if initial == high {
        1
    } else {
        0
    }
}

/// Whether two byte slices hold the same bytes.
pub fn bytes_equal(a: &[u8], b: &[u8]) -> (r: bool)
    ensures
        r == (a@ == b@),
{
    if a.len() != b.len() {
        return false;
    }
    let mut i: usize = 0;
    while i < a.len()
        invariant
            a@.len() == b@.len(),
            i <= a@.len(),
            a@.subrange(0, i as int) == b@.subrange(0, i as int),
        decreases a@.len() - i,
    {
        if a[i] != b[i] {
            assert(a@[i as int] != b@[i as int]);
            return false;
        }
        assert(a@.subrange(0, i + 1) =~= a@.subrange(0, i as int).push(a@[i as int]));
        assert(b@.subrange(0, i + 1) =~= b@.subrange(0, i as int).push(b@[i as int]));
        i = i + 1;
    }
    assert(a@ =~= a@.subrange(0, a@.len() as int));
    assert(b@ =~= b@.subrange(0, b@.len() as int));
    true
}

impl Pin {
    pub open spec fn state_payload_spec(&self, level: u8) -> Seq<char> {
        payload_of_level(self.mqtt_state_high@, self.mqtt_state_low@, level)
    }

    pub open spec fn command_level_spec(&self, payload: Seq<u8>) -> Option<u8> {
        level_of_command(self.mqtt_state_high@, self.mqtt_state_low@, payload)
    }

    /// The two payload words differ, so that each names one level.
    pub open spec fn distinct_states(&self) -> bool {
        self.mqtt_state_high@ != self.mqtt_state_low@
    }

    /// A binding for line `line` with the default topics and words.
    pub fn new(line: u32) -> (r: Pin)
        ensures
            r.line == line,
            r.mqtt_topic@ == "gpio"@,
            r.mqtt_topic_set@ == "gpio/set"@,
            r.mqtt_state_high@ == "ON"@,
            r.mqtt_state_low@ == "OFF"@,
            r.qos == Qos::AtLeastOnce,
            r.retain == false,
    {
        Pin {
            line,
            mqtt_topic: "gpio".to_owned(),
            mqtt_topic_set: "gpio/set".to_owned(),
            mqtt_state_high: "ON".to_owned(),
            mqtt_state_low: "OFF".to_owned(),
            qos: Qos::AtLeastOnce,
            retain: false,
        }
    }

    /// The binding for one configured output; its messages keep the default QoS
    /// and carry the configured retain flag.
    pub fn from_output(output: &DigitalOutput, retain: bool) -> (r: Pin)
        ensures
            r.line == output.gpio,
            r.mqtt_topic@ == output.mqtt_topic@,
            r.mqtt_topic_set@ == output.mqtt_topic_set@,
            r.mqtt_state_high@ == output.mqtt_state_high@,
            r.mqtt_state_low@ == output.mqtt_state_low@,
            r.qos == Qos::AtLeastOnce,
            r.retain == retain,
    {
        let mut p = Pin::new(output.gpio);
        p.mqtt_topic = output.mqtt_topic.clone();
        p.mqtt_topic_set = output.mqtt_topic_set.clone();
        p.mqtt_state_high = output.mqtt_state_high.clone();
        p.mqtt_state_low = output.mqtt_state_low.clone();
        p.retain = retain;
        p
    }

    /// The level that the line of `output` is requested with at startup.
    pub fn initial_level(output: &DigitalOutput) -> (r: u8)
        ensures
            r == initial_level_of(output.initial_state@, output.mqtt_state_high@),
            r <= 1,
    {
        if output.initial_state == output.mqtt_state_high {
            1
        } else {
            0
        }
    }

    /// The message that announces that the line reads `level`.
    pub fn publish_state(&self, level: u8) -> (r: Publication)
        requires
            level <= 1,
        ensures
            r.topic@ == self.mqtt_topic@,
            r.payload@ == self.state_payload_spec(level),
            r.qos == self.qos,
            r.retain == self.retain,
    {
        let payload = if level == 1 {
            self.mqtt_state_high.clone()
        } else {
            self.mqtt_state_low.clone()
        };
        Publication { topic: self.mqtt_topic.clone(), payload, qos: self.qos, retain: self.retain }
    }

    /// The level that a command payload sets the line to, if it names one.
    pub fn command_level(&self, payload: &[u8]) -> (r: Option<u8>)
        ensures
            r == self.command_level_spec(payload@),
    {
        if bytes_equal(payload, self.mqtt_state_high.as_str().as_bytes()) {
            Some(1)
        } else if bytes_equal(payload, self.mqtt_state_low.as_str().as_bytes()) {
            Some(0)
        } else {
            None
        }
    }
}

} // verus!
