use vstd::prelude::*;

use crate::config::{Config, DigitalOutput};
use crate::message::{qos_of_level, Publication, Qos};

verus! {

/// Settings of the one broker session of the bridge.
pub struct Mqtt {
    pub name: String,
    pub host: String,
    pub port: u16,
    pub user: Option<String>,
    pub password: Option<String>,
    pub qos: Qos,
    pub cap: usize,
    /// Keep-alive interval, in seconds.
    pub keep_alive: u64,
    pub clean_session: bool,
    pub availability_topic: String,
    pub payload_available: String,
    pub payload_not_available: String,
    /// Command topics to subscribe to, in order.
    pub subscribe: Vec<String>,
}

/// User name and password of the session.
pub struct Credentials {
    pub user: String,
    pub password: String,
}

/// Everything that opening the session does, in order: connect with these
/// options and last will, subscribe to all topics in one request, then
/// publish the announcement.
pub struct ConnectPlan {
    pub client_id: String,
    pub host: String,
    pub port: u16,
    pub keep_alive: u64,
    pub clean_session: bool,
    pub cap: usize,
    /// User name and password, attached only when both are configured.
    pub credentials: Option<Credentials>,
    pub last_will: Publication,
    pub subscriptions: Vec<String>,
    pub subscription_qos: Qos,
    pub announcement: Publication,
}

/// Copy of an optional string.
fn clone_option(s: &Option<String>) -> (r: Option<String>)
    ensures
        r is Some <==> s is Some,
        r is Some ==> r->0@ == s->0@,
{
    match s {
        Some(v) => Some(v.clone()),
        None => None,
    }
}

/// The command topics of `outputs`, in order.
pub fn command_topics(outputs: &Vec<DigitalOutput>) -> (r: Vec<String>)
    ensures
        r@.len() == outputs@.len(),
        forall|i: int| 0 <= i < r@.len() ==> #[trigger] r@[i]@ == outputs@[i].mqtt_topic_set@,
{
    let mut r: Vec<String> = Vec::new();
    let mut i: usize = 0;
    while i < outputs.len()
        invariant
            i <= outputs@.len(),
            r@.len() == i,
            forall|j: int| 0 <= j < i ==> #[trigger] r@[j]@ == outputs@[j].mqtt_topic_set@,
        decreases outputs@.len() - i,
    {
        r.push(outputs[i].mqtt_topic_set.clone());
        i = i + 1;
    }
    r
}

impl Mqtt {
    /// A session to `host`:`port` as client `name`, with the default settings
    /// and a subscription to every topic.
    pub fn new(name: &str, host: &str, port: u16) -> (r: Mqtt)
        ensures
            r.name@ == name@,
            r.host@ == host@,
            r.port == port,
            r.user is None,
            r.password is None,
            r.qos == Qos::AtLeastOnce,
            r.keep_alive == 5,
            r.cap == 10,
            r.clean_session == false,
            r.availability_topic@ == "gpio/availability"@,
            r.payload_available@ == "online"@,
            r.payload_not_available@ == "offline"@,
            r.subscribe@.len() == 1,
            r.subscribe@[0]@ == "#"@,
    {
        Mqtt {
            name: name.to_owned(),
            host: host.to_owned(),
            port,
            user: None,
            password: None,
            qos: Qos::AtLeastOnce,
            cap: 10,
            keep_alive: 5,
            clean_session: false,
            availability_topic: "gpio/availability".to_owned(),
            payload_available: "online".to_owned(),
            payload_not_available: "offline".to_owned(),
            subscribe: vec!["#".to_owned()],
        }
    }

    /// The session that `conf` describes, subscribed to the command topic of
    /// every output; `None` when its QoS number is not 0, 1 or 2.
    pub fn from_config(conf: &Config) -> (r: Option<Mqtt>)
        ensures
            r is None <==> qos_of_level(conf.mqtt.qos) is None,
            r is Some ==> {
                let m = r->0;
                &&& m.name@ == conf.mqtt.name@
                &&& m.host@ == conf.mqtt.host@
                &&& m.port == conf.mqtt.port
                &&& (m.user is Some <==> conf.mqtt.user is Some)
                &&& (m.user is Some ==> m.user->0@ == conf.mqtt.user->0@)
                &&& (m.password is Some <==> conf.mqtt.password is Some)
                &&& (m.password is Some ==> m.password->0@ == conf.mqtt.password->0@)
                &&& Some(m.qos) == qos_of_level(conf.mqtt.qos)
                &&& m.keep_alive == conf.mqtt.keep_alive
                &&& m.cap == conf.mqtt.cap
                &&& m.clean_session == conf.mqtt.clean_session
                &&& m.availability_topic@ == conf.mqtt.availability_topic@
                &&& m.payload_available@ == conf.mqtt.payload_available@
                &&& m.payload_not_available@ == conf.mqtt.payload_not_available@
                &&& m.subscribe@.len() == conf.digital_outputs@.len()
                &&& forall|i: int|
                    0 <= i < m.subscribe@.len() ==> #[trigger] m.subscribe@[i]@
                        == conf.digital_outputs@[i].mqtt_topic_set@
            },
    {
        let qos = match conf.mqtt.qos_level() {
            Some(q) => q,
            None => return None,
        };
        let mut m = Mqtt::new(conf.mqtt.name.as_str(), conf.mqtt.host.as_str(), conf.mqtt.port);
        m.user = clone_option(&conf.mqtt.user);
        m.password = clone_option(&conf.mqtt.password);
        m.qos = qos;
        m.keep_alive = conf.mqtt.keep_alive;
        m.cap = conf.mqtt.cap;
        m.clean_session = conf.mqtt.clean_session;
        m.availability_topic = conf.mqtt.availability_topic.clone();
        m.payload_available = conf.mqtt.payload_available.clone();
        m.payload_not_available = conf.mqtt.payload_not_available.clone();
        m.subscribe = command_topics(&conf.digital_outputs);
        Some(m)
    }

    /// User name and password, only when both are configured.
    pub fn credentials(&self) -> (r: Option<Credentials>)
        ensures
            r is Some <==> (self.user is Some && self.password is Some),
            r is Some ==> r->0.user@ == self.user->0@ && r->0.password@ == self.password->0@,
    {
        match (&self.user, &self.password) {
            (Some(u), Some(p)) => Some(Credentials { user: u.clone(), password: p.clone() }),
            _ => None,
        }
    }

    /// How the session is opened: credentials only when both parts are set, a
    /// last will that announces the offline payload on the availability topic,
    /// one subscription request for all command topics, and the online payload
    /// on the availability topic once subscribed. Neither message is retained.
    pub fn connect(&self) -> (r: ConnectPlan)
        ensures
            r.client_id@ == self.name@,
            r.host@ == self.host@,
            r.port == self.port,
            r.keep_alive == self.keep_alive,
            r.clean_session == self.clean_session,
            r.cap == self.cap,
            r.credentials is Some <==> (self.user is Some && self.password is Some),
            r.credentials is Some ==> r.credentials->0.user@ == self.user->0@
                && r.credentials->0.password@ == self.password->0@,
            r.last_will.topic@ == self.availability_topic@,
            r.last_will.payload@ == self.payload_not_available@,
            r.last_will.qos == self.qos,
            r.last_will.retain == false,
            r.subscriptions@.len() == self.subscribe@.len(),
            forall|i: int|
                0 <= i < r.subscriptions@.len() ==> #[trigger] r.subscriptions@[i]@
                    == self.subscribe@[i]@,
            r.subscription_qos == self.qos,
            r.announcement.topic@ == self.availability_topic@,
            r.announcement.payload@ == self.payload_available@,
            r.announcement.qos == self.qos,
            r.announcement.retain == false,
    {
        let mut subscriptions: Vec<String> = Vec::new();
        let mut i: usize = 0;
        while i < self.subscribe.len()
            invariant
                i <= self.subscribe@.len(),
                subscriptions@.len() == i,
                forall|j: int| 0 <= j < i ==> #[trigger] subscriptions@[j]@ == self.subscribe@[j]@,
            decreases self.subscribe@.len() - i,
        {
            subscriptions.push(self.subscribe[i].clone());
            i = i + 1;
        }
        ConnectPlan {
            client_id: self.name.clone(),
            host: self.host.clone(),
            port: self.port,
            keep_alive: self.keep_alive,
            clean_session: self.clean_session,
            cap: self.cap,
            credentials: self.credentials(),
            last_will: Publication {
                topic: self.availability_topic.clone(),
                payload: self.payload_not_available.clone(),
                qos: self.qos,
                retain: false,
            },
            subscriptions,
            subscription_qos: self.qos,
            announcement: Publication {
                topic: self.availability_topic.clone(),
                payload: self.payload_available.clone(),
                qos: self.qos,
                retain: false,
            },
        }
    }
}

} // verus!
