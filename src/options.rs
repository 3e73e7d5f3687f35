use vstd::prelude::*;
use vstd::utf8::encode_utf8;

use bytes::Bytes;
use rumqttc::{LastWill, MqttOptions, QoS, SubscribeFilter};

use crate::message::{Publication, Qos};
use crate::session::ConnectPlan;

verus! {

#[verifier::external_type_specification]
#[verifier::external_body]
pub struct ExMqttOptions(MqttOptions);

#[verifier::external_type_specification]
#[verifier::external_body]
pub struct ExBytes(Bytes);

#[verifier::external_type_specification]
pub struct ExLastWill(LastWill);

#[verifier::external_type_specification]
pub struct ExSubscribeFilter(SubscribeFilter);

#[verifier::external_type_specification]
pub struct ExQoS(QoS);

/// rumqttc's delivery guarantee for ours.
pub open spec fn outside_qos_of(q: Qos) -> QoS {
    match q {
        Qos::AtMostOnce => QoS::AtMostOnce,
        Qos::AtLeastOnce => QoS::AtLeastOnce,
        Qos::ExactlyOnce => QoS::ExactlyOnce,
    }
}

/// rumqttc's delivery guarantee for ours.
pub fn qos_value(q: Qos) -> (r: QoS)
    ensures
        r == outside_qos_of(q),
{
    match q {
        Qos::AtMostOnce => QoS::AtMostOnce,
        Qos::AtLeastOnce => QoS::AtLeastOnce,
        Qos::ExactlyOnce => QoS::ExactlyOnce,
    }
}

/// What a `Bytes` buffer holds.
pub uninterp spec fn bytes_of(b: Bytes) -> Seq<u8>;

/// User name and password that the options carry.
pub struct LoginView {
    pub user: Seq<char>,
    pub password: Seq<char>,
}

/// The last will that the options carry.
pub struct WillView {
    pub topic: Seq<char>,
    pub message: Seq<u8>,
    pub qos: QoS,
    pub retain: bool,
}

/// The settings that rumqttc's options hold, as plain values.
pub struct OptionsView {
    pub client_id: Seq<char>,
    pub host: Seq<char>,
    pub port: u16,
    /// Keep-alive interval, in seconds.
    pub keep_alive: u64,
    pub clean_session: bool,
    pub credentials: Option<LoginView>,
    pub last_will: Option<WillView>,
}

/// rumqttc's connection options, with a model of what they hold.
///
/// Only the setters below change the options, and each states what rumqttc
/// stores, so the model follows the options.
pub struct BrokerOptions {
    options: MqttOptions,
    model: Ghost<OptionsView>,
}

impl View for BrokerOptions {
    type V = OptionsView;

    closed spec fn view(&self) -> OptionsView {
        self.model@
    }
}

impl BrokerOptions {
    /// The options, for handing to rumqttc's client.
    pub fn into_inner(self) -> MqttOptions {
        self.options
    }
}

/// Relies on `MqttOptions::new`, which stores the client id, host and port
/// with a keep-alive of 60 s, a clean session, no credentials and no last
/// will; and on `MqttOptions::set_clean_session`, which then stores the flag
/// and panics when it is unset for an empty client id.
#[verifier::external_body]
fn new_options(id: &String, host: &String, port: u16, clean_session: bool) -> (r: BrokerOptions)
    requires
        id@.len() > 0 || clean_session,
    ensures
        r@ == (OptionsView {
            client_id: id@,
            host: host@,
            port,
            keep_alive: 60,
            clean_session,
            credentials: None,
            last_will: None,
        }),
{
    let mut options = MqttOptions::new(id.as_str(), host.as_str(), port);
    options.set_clean_session(clean_session);
    BrokerOptions { options, model: Ghost(arbitrary()) }
}

/// Relies on `MqttOptions::set_keep_alive`, which stores the interval and
/// panics only for a nonzero one under one second: whole seconds never are.
#[verifier::external_body]
fn set_keep_alive(o: &mut BrokerOptions, seconds: u64)
    ensures
        final(o)@ == (OptionsView { keep_alive: seconds, ..old(o)@ }),
{
    o.options.set_keep_alive(std::time::Duration::from_secs(seconds));
}

/// Relies on `MqttOptions::set_credentials`, which stores `Login::new` of the
/// two strings.
#[verifier::external_body]
fn set_credentials(o: &mut BrokerOptions, user: &String, password: &String)
    ensures
        final(o)@ == (OptionsView {
            credentials: Some(LoginView { user: user@, password: password@ }),
            ..old(o)@
        }),
{
    o.options.set_credentials(user.as_str(), password.as_str());
}

/// Relies on `LastWill::new`, which stores the topic, QoS and retain flag as
/// given and the payload's bytes as the message.
#[verifier::external_body]
fn new_last_will(topic: &String, payload: &String, qos: QoS, retain: bool) -> (r: LastWill)
    ensures
        r.topic@ == topic@,
        bytes_of(r.message) == encode_utf8(payload@),
        r.qos == qos,
        r.retain == retain,
{
    LastWill::new(topic.as_str(), payload.as_bytes(), qos, retain)
}

/// Relies on `MqttOptions::set_last_will`, which stores the will.
#[verifier::external_body]
fn set_last_will(o: &mut BrokerOptions, will: LastWill)
    ensures
        final(o)@ == (OptionsView {
            last_will: Some(
                WillView {
                    topic: will.topic@,
                    message: bytes_of(will.message),
                    qos: will.qos,
                    retain: will.retain,
                },
            ),
            ..old(o)@
        }),
{
    o.options.set_last_will(will);
}

/// Relies on `SubscribeFilter::new`, which only stores its arguments.
#[verifier::external_body]
fn new_subscribe_filter(path: &String, qos: QoS) -> (r: SubscribeFilter)
    ensures
        r.path@ == path@,
        r.qos == qos,
{
    SubscribeFilter::new(path.clone(), qos)
}

/// The last will that `m` describes; its message is the payload's bytes.
pub fn last_will(m: &Publication) -> (r: LastWill)
    ensures
        r.topic@ == m.topic@,
        bytes_of(r.message) == encode_utf8(m.payload@),
        r.qos == outside_qos_of(m.qos),
        r.retain == m.retain,
{
    new_last_will(&m.topic, &m.payload, qos_value(m.qos), m.retain)
}

/// The will that announces `m` when the session ends uncleanly.
pub open spec fn will_of(m: Publication) -> WillView {
    WillView {
        topic: m.topic@,
        message: encode_utf8(m.payload@),
        qos: outside_qos_of(m.qos),
        retain: m.retain,
    }
}

/// The connection options of `plan`: client id, broker address, keep-alive,
/// clean-session flag, its credentials if any, and its last will. A session
/// that is not clean needs a client id.
pub fn mqtt_options(plan: &ConnectPlan) -> (r: BrokerOptions)
    requires
        plan.client_id@.len() > 0 || plan.clean_session,
    ensures
        r@.client_id == plan.client_id@,
        r@.host == plan.host@,
        r@.port == plan.port,
        r@.keep_alive == plan.keep_alive,
        r@.clean_session == plan.clean_session,
        r@.credentials is Some <==> plan.credentials is Some,
        plan.credentials is Some ==> r@.credentials->0.user == plan.credentials->0.user@
            && r@.credentials->0.password == plan.credentials->0.password@,
        r@.last_will == Some(will_of(plan.last_will)),
{
    let mut o = new_options(&plan.client_id, &plan.host, plan.port, plan.clean_session);
    set_keep_alive(&mut o, plan.keep_alive);
    match &plan.credentials {
        Some(c) => set_credentials(&mut o, &c.user, &c.password),
        None => {},
    }
    set_last_will(&mut o, last_will(&plan.last_will));
    o
}

/// Whether `f` subscribes to `path` at `qos`.
pub open spec fn filters(f: SubscribeFilter, path: Seq<char>, qos: Qos) -> bool {
    f.path@ == path && f.qos == outside_qos_of(qos)
}

/// One subscription filter per topic of `plan`, in order, at its QoS.
pub fn subscribe_filters(plan: &ConnectPlan) -> (r: Vec<SubscribeFilter>)
    ensures
        r@.len() == plan.subscriptions@.len(),
        forall|i: int|
            0 <= i < r@.len() ==> filters(#[trigger] r@[i], plan.subscriptions@[i]@, plan.subscription_qos),
{
    let qos = qos_value(plan.subscription_qos);
    let mut r: Vec<SubscribeFilter> = Vec::new();
    let mut i: usize = 0;
    while i < plan.subscriptions.len()
        invariant
            i <= plan.subscriptions@.len(),
            r@.len() == i,
            qos == outside_qos_of(plan.subscription_qos),
            forall|j: int|
                0 <= j < i ==> filters(#[trigger] r@[j], plan.subscriptions@[j]@, plan.subscription_qos),
        decreases plan.subscriptions@.len() - i,
    {
        r.push(new_subscribe_filter(&plan.subscriptions[i], qos));
        i = i + 1;
    }
    r
}

} // verus!
