use rpi_mqtt_gpio::options::{last_will, mqtt_options, qos_value, subscribe_filters};
use rpi_mqtt_gpio::{
    command_topics, dispatch, initial_publications, step, Config, DigitalOutput, Inbound,
    LineWrite, MqttConfig, Mqtt, Pin, Qos, Step,
};

fn output(gpio: u32, topic: &str, topic_set: &str, initial: &str) -> DigitalOutput {
    DigitalOutput {
        name: DigitalOutput::default_name(),
        gpio,
        mqtt_topic: topic.to_string(),
        mqtt_topic_set: topic_set.to_string(),
        mqtt_state_high: DigitalOutput::default_mqtt_state_high(),
        mqtt_state_low: DigitalOutput::default_mqtt_state_low(),
        initial_state: initial.to_string(),
    }
}

fn mqtt_config(user: Option<&str>, password: Option<&str>, qos: u8) -> MqttConfig {
    MqttConfig {
        name: MqttConfig::default_name(),
        host: MqttConfig::default_host(),
        port: MqttConfig::default_port(),
        user: user.map(|s| s.to_string()),
        password: password.map(|s| s.to_string()),
        qos,
        keep_alive: MqttConfig::default_keep_alive(),
        clean_session: MqttConfig::default_clean_session(),
        retain: MqttConfig::default_retain(),
        cap: MqttConfig::default_cap(),
        availability_topic: MqttConfig::default_availability_topic(),
        payload_available: MqttConfig::default_payload_available(),
        payload_not_available: MqttConfig::default_payload_not_available(),
    }
}

fn config(user: Option<&str>, password: Option<&str>, qos: u8, outputs: Vec<DigitalOutput>) -> Config {
    Config { chip: Config::default_chip(), mqtt: mqtt_config(user, password, qos), digital_outputs: outputs }
}

fn relay() -> DigitalOutput {
    output(17, "relay", "relay/set", "OFF")
}

#[test]
fn defaults_match_documented_values() {
    assert_eq!(Config::default_chip(), "/dev/gpiochip0");
    assert_eq!(MqttConfig::default_name(), "rpi-mqtt-gpio");
    assert_eq!(MqttConfig::default_host(), "localhost");
    assert_eq!(MqttConfig::default_port(), 1883);
    assert_eq!(MqttConfig::default_qos(), 1);
    assert_eq!(MqttConfig::default_keep_alive(), 5);
    assert!(!MqttConfig::default_clean_session());
    assert!(!MqttConfig::default_retain());
    assert_eq!(MqttConfig::default_cap(), 10);
    assert_eq!(MqttConfig::default_availability_topic(), "rpi-mqtt-gpio/status");
    assert_eq!(MqttConfig::default_payload_available(), "online");
    assert_eq!(MqttConfig::default_payload_not_available(), "offline");
    assert_eq!(DigitalOutput::default_name(), "gpio");
    assert_eq!(DigitalOutput::default_mqtt_state_high(), "ON");
    assert_eq!(DigitalOutput::default_mqtt_state_low(), "OFF");
    assert_eq!(DigitalOutput::default_initial_state(), "OFF");
}

#[test]
fn qos_levels_map_to_guarantees() {
    assert_eq!(Qos::from_level(0), Some(Qos::AtMostOnce));
    assert_eq!(Qos::from_level(1), Some(Qos::AtLeastOnce));
    assert_eq!(Qos::from_level(2), Some(Qos::ExactlyOnce));
    assert_eq!(Qos::from_level(3), None);
    assert_eq!(Qos::from_level(255), None);
    assert_eq!(mqtt_config(None, None, 2).qos_level(), Some(Qos::ExactlyOnce));
}

#[test]
fn invalid_qos_gives_no_session() {
    assert!(Mqtt::from_config(&config(None, None, 3, vec![relay()])).is_none());
}

#[test]
fn session_from_config_subscribes_to_command_topics() {
    let outs = vec![relay(), output(18, "lamp", "lamp/set", "ON")];
    let m = Mqtt::from_config(&config(None, None, 0, outs)).unwrap();
    assert_eq!(m.qos, Qos::AtMostOnce);
    assert_eq!(m.subscribe, vec!["relay/set".to_string(), "lamp/set".to_string()]);
    assert_eq!(m.availability_topic, "rpi-mqtt-gpio/status");
    assert_eq!(m.keep_alive, 5);
    assert_eq!(m.cap, 10);
    assert_eq!(command_topics(&vec![relay()]), vec!["relay/set".to_string()]);
}

#[test]
fn new_session_has_defaults() {
    let m = Mqtt::new("client", "broker", 1884);
    assert_eq!(m.name, "client");
    assert_eq!(m.host, "broker");
    assert_eq!(m.port, 1884);
    assert_eq!(m.qos, Qos::AtLeastOnce);
    assert_eq!(m.availability_topic, "gpio/availability");
    assert_eq!(m.subscribe, vec!["#".to_string()]);
    assert!(m.user.is_none() && m.password.is_none());
}

#[test]
fn credentials_need_both_parts() {
    let both = Mqtt::from_config(&config(Some("u"), Some("p"), 1, vec![])).unwrap().connect();
    let c = both.credentials.unwrap();
    assert_eq!(c.user, "u");
    assert_eq!(c.password, "p");
    let user_only = Mqtt::from_config(&config(Some("u"), None, 1, vec![])).unwrap().connect();
    assert!(user_only.credentials.is_none());
    let password_only = Mqtt::from_config(&config(None, Some("p"), 1, vec![])).unwrap().connect();
    assert!(password_only.credentials.is_none());
    let neither = Mqtt::from_config(&config(None, None, 1, vec![])).unwrap().connect();
    assert!(neither.credentials.is_none());
}

#[test]
fn connect_plan_announces_and_leaves_a_will() {
    let m = Mqtt::from_config(&config(None, None, 2, vec![relay()])).unwrap();
    let plan = m.connect();
    assert_eq!(plan.client_id, "rpi-mqtt-gpio");
    assert_eq!(plan.host, "localhost");
    assert_eq!(plan.port, 1883);
    assert_eq!(plan.announcement.topic, "rpi-mqtt-gpio/status");
    assert_eq!(plan.announcement.payload, "online");
    assert!(!plan.announcement.retain);
    assert_eq!(plan.last_will.topic, "rpi-mqtt-gpio/status");
    assert_eq!(plan.last_will.payload, "offline");
    assert_eq!(plan.last_will.qos, Qos::ExactlyOnce);
    assert!(!plan.last_will.retain);
    assert_eq!(plan.subscriptions, vec!["relay/set".to_string()]);
    assert_eq!(plan.subscription_qos, Qos::ExactlyOnce);
}

#[test]
fn outside_options_carry_the_plan() {
    let m = Mqtt::from_config(&config(Some("u"), Some("p"), 1, vec![relay()])).unwrap();
    let plan = m.connect();
    let o = mqtt_options(&plan).into_inner();
    assert_eq!(o.client_id(), "rpi-mqtt-gpio");
    assert_eq!(o.broker_address(), ("localhost".to_string(), 1883));
    assert_eq!(o.keep_alive(), std::time::Duration::from_secs(5));
    assert!(!o.clean_session());
    let login = o.credentials().unwrap();
    assert_eq!(login.username, "u");
    assert_eq!(login.password, "p");
    let will = o.last_will().unwrap();
    assert_eq!(will.topic, "rpi-mqtt-gpio/status");
    assert_eq!(&will.message[..], b"offline");
    assert_eq!(will.qos, rumqttc::QoS::AtLeastOnce);
    assert!(!will.retain);
    let lw = last_will(&plan.announcement);
    assert_eq!(&lw.message[..], b"online");
    let filters = subscribe_filters(&plan);
    assert_eq!(filters.len(), 1);
    assert_eq!(filters[0].path, "relay/set");
    assert_eq!(filters[0].qos, rumqttc::QoS::AtLeastOnce);
}

#[test]
fn outside_options_omit_partial_credentials() {
    let m = Mqtt::from_config(&config(Some("u"), None, 1, vec![])).unwrap();
    assert!(mqtt_options(&m.connect()).into_inner().credentials().is_none());
}

#[test]
fn pin_from_output_keeps_words() {
    let p = Pin::from_output(&relay(), true);
    assert_eq!(p.line, 17);
    assert_eq!(p.mqtt_topic, "relay");
    assert_eq!(p.mqtt_topic_set, "relay/set");
    assert_eq!(p.mqtt_state_high, "ON");
    assert_eq!(p.mqtt_state_low, "OFF");
    assert_eq!(p.qos, Qos::AtLeastOnce);
    assert!(p.retain);
    let d = Pin::new(4);
    assert_eq!(d.mqtt_topic, "gpio");
    assert_eq!(d.mqtt_topic_set, "gpio/set");
    assert!(!d.retain);
}

#[test]
fn initial_level_follows_initial_state() {
    assert_eq!(Pin::initial_level(&output(1, "a", "a/set", "OFF")), 0);
    assert_eq!(Pin::initial_level(&output(1, "a", "a/set", "ON")), 1);
    assert_eq!(Pin::initial_level(&output(1, "a", "a/set", "bogus")), 0);
}

#[test]
fn state_message_maps_levels_to_words() {
    let p = Pin::from_output(&relay(), false);
    let high = p.publish_state(1);
    assert_eq!(high.topic, "relay");
    assert_eq!(high.payload, "ON");
    assert_eq!(high.qos, Qos::AtLeastOnce);
    assert!(!high.retain);
    assert_eq!(p.publish_state(0).payload, "OFF");
}

#[test]
fn command_payloads_name_levels() {
    let p = Pin::from_output(&relay(), false);
    assert_eq!(p.command_level(b"ON"), Some(1));
    assert_eq!(p.command_level(b"OFF"), Some(0));
    assert_eq!(p.command_level(b"TOGGLE"), None);
    assert_eq!(p.command_level(b"on"), None);
    assert_eq!(p.command_level(b""), None);
    assert_eq!(p.command_level(b"ON "), None);
}

#[test]
fn startup_publishes_one_state_per_output() {
    let pins = vec![
        Pin::from_output(&relay(), false),
        Pin::from_output(&output(18, "lamp", "lamp/set", "ON"), false),
    ];
    let msgs = initial_publications(&pins, &vec![0, 1]);
    assert_eq!(msgs.len(), 2);
    assert_eq!(msgs[0].topic, "relay");
    assert_eq!(msgs[0].payload, "OFF");
    assert_eq!(msgs[1].topic, "lamp");
    assert_eq!(msgs[1].payload, "ON");
    assert!(initial_publications(&vec![], &vec![]).is_empty());
}

#[test]
fn high_command_writes_one_line() {
    let pins = vec![
        Pin::from_output(&relay(), false),
        Pin::from_output(&output(18, "lamp", "lamp/set", "ON"), false),
    ];
    let w = dispatch(&pins, &"lamp/set".to_string(), b"ON");
    assert_eq!(w, vec![LineWrite { pin: 1, level: 1 }]);
    assert_eq!(pins[w[0].pin].publish_state(w[0].level).payload, "ON");
    assert_eq!(pins[w[0].pin].publish_state(w[0].level).topic, "lamp");
}

#[test]
fn unknown_payload_writes_nothing() {
    let pins = vec![Pin::from_output(&relay(), false)];
    assert!(dispatch(&pins, &"relay/set".to_string(), b"TOGGLE").is_empty());
    assert!(dispatch(&pins, &"other/set".to_string(), b"ON").is_empty());
    assert!(dispatch(&vec![], &"relay/set".to_string(), b"ON").is_empty());
}

#[test]
fn shared_command_topic_writes_every_listener() {
    let pins = vec![
        Pin::from_output(&output(1, "a", "both/set", "OFF"), false),
        Pin::from_output(&output(2, "b", "both/set", "OFF"), false),
    ];
    let w = dispatch(&pins, &"both/set".to_string(), b"OFF");
    assert_eq!(w, vec![LineWrite { pin: 0, level: 0 }, LineWrite { pin: 1, level: 0 }]);
}

#[test]
fn high_low_high_round_trip_in_order() {
    let pins = vec![Pin::from_output(&relay(), false)];
    let topic = "relay/set".to_string();
    let mut levels = Vec::new();
    let mut payloads = Vec::new();
    for cmd in [&b"ON"[..], &b"OFF"[..], &b"ON"[..]] {
        for w in dispatch(&pins, &topic, cmd) {
            levels.push(w.level);
            payloads.push(pins[w.pin].publish_state(w.level).payload);
        }
    }
    assert_eq!(levels, vec![1, 0, 1]);
    assert_eq!(payloads, vec!["ON".to_string(), "OFF".to_string(), "ON".to_string()]);
}

#[test]
fn loop_step_ignores_housekeeping_and_stops_at_end() {
    let pins = vec![Pin::from_output(&relay(), false)];
    assert!(matches!(step(&pins, &Inbound::Other), Step::Ignore));
    assert!(matches!(step(&pins, &Inbound::Failed), Step::Ignore));
    assert!(matches!(step(&pins, &Inbound::Closed), Step::Stop));
    let ev = Inbound::Publish { topic: "relay/set".to_string(), payload: b"ON".to_vec() };
    match step(&pins, &ev) {
        Step::Apply(w) => assert_eq!(w, vec![LineWrite { pin: 0, level: 1 }]),
        _ => panic!("a publish must be applied"),
    }
}

#[test]
fn relay_scenario() {
    let conf = config(None, None, 1, vec![relay()]);
    let out = &conf.digital_outputs[0];
    assert_eq!(out.gpio, 17);
    assert_eq!(Pin::initial_level(out), 0);
    let pins = vec![Pin::from_output(out, conf.mqtt.retain)];
    let start = initial_publications(&pins, &vec![0]);
    assert_eq!(start.len(), 1);
    assert_eq!(start[0].topic, "relay");
    assert_eq!(start[0].payload, "OFF");
    let on = Inbound::Publish { topic: "relay/set".to_string(), payload: b"ON".to_vec() };
    match step(&pins, &on) {
        Step::Apply(w) => {
            assert_eq!(w, vec![LineWrite { pin: 0, level: 1 }]);
            assert_eq!(pins[0].line, 17);
            let m = pins[0].publish_state(1);
            assert_eq!(m.topic, "relay");
            assert_eq!(m.payload, "ON");
        }
        _ => panic!("a publish must be applied"),
    }
    let toggle = Inbound::Publish { topic: "relay/set".to_string(), payload: b"TOGGLE".to_vec() };
    match step(&pins, &toggle) {
        Step::Apply(w) => assert!(w.is_empty()),
        _ => panic!("a publish must be applied"),
    }
}

#[test]
fn qos_converts_to_outside_variants() {
    assert_eq!(qos_value(Qos::AtMostOnce), rumqttc::QoS::AtMostOnce);
    assert_eq!(qos_value(Qos::AtLeastOnce), rumqttc::QoS::AtLeastOnce);
    assert_eq!(qos_value(Qos::ExactlyOnce), rumqttc::QoS::ExactlyOnce);
}

#[test]
fn empty_client_name_with_clean_session_builds_options() {
    let mut mc = mqtt_config(None, None, 1);
    mc.name = String::new();
    mc.clean_session = true;
    let conf = Config { chip: Config::default_chip(), mqtt: mc, digital_outputs: vec![] };
    let plan = Mqtt::from_config(&conf).unwrap().connect();
    let o = mqtt_options(&plan).into_inner();
    assert_eq!(o.client_id(), "");
    assert!(o.clean_session());
}

#[test]
fn last_will_keeps_topic_qos_and_retain() {
    let m = Mqtt::from_config(&config(None, None, 0, vec![])).unwrap();
    let lw = last_will(&m.connect().last_will);
    assert_eq!(lw.topic, "rpi-mqtt-gpio/status");
    assert_eq!(&lw.message[..], b"offline");
    assert_eq!(lw.qos, rumqttc::QoS::AtMostOnce);
    assert!(!lw.retain);
}
