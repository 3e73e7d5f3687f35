use vstd::prelude::*;

use crate::message::Publication;
use crate::pin::Pin;

verus! {

/// Set the line of pin number `pin` to `level`, then read it back and publish its state.
#[derive(Clone, Copy, Debug, PartialEq, Eq, Structural)]
pub struct LineWrite {
    pub pin: usize,
    pub level: u8,
}

/// What the session's inbound stream delivered.
pub enum Inbound {
    /// A message published on `topic`.
    Publish { topic: String, payload: Vec<u8> },
    /// Any other packet or event of the session.
    Other,
    /// An event that the transport could not deliver.
    Failed,
    /// The stream has ended.
    Closed,
}

/// What the receive loop does with one inbound event.
pub enum Step {
    /// Nothing; wait for the next event.
    Ignore,
    /// Perform these writes, in order; then wait for the next event.
    Apply(Vec<LineWrite>),
    /// The session has ended; leave the loop.
    Stop,
}

/// The writes that a message on `topic` with `payload` causes: one for each pin,
/// in order, whose command topic is `topic` and whose words name a level for
/// `payload`.
pub open spec fn writes_for(pins: Seq<Pin>, topic: Seq<char>, payload: Seq<u8>) -> Seq<LineWrite>
    decreases pins.len(),
{
    if pins.len() == 0 {
        Seq::empty()
    } else {
        let prev = writes_for(pins.drop_last(), topic, payload);
        let p = pins.last();
        if p.mqtt_topic_set@ == topic && p.command_level_spec(payload) is Some {
            prev.push(LineWrite { pin: (pins.len() - 1) as usize, level: p.command_level_spec(payload)->0 })
        } else {
            prev
        }
    }
}

/// The writes that one inbound message causes.
pub fn dispatch(pins: &Vec<Pin>, topic: &String, payload: &[u8]) -> (r: Vec<LineWrite>)
    ensures
        r@ == writes_for(pins@, topic@, payload@),
{
    let mut r: Vec<LineWrite> = Vec::new();
    let mut i: usize = 0;
    while i < pins.len()
        invariant
            i <= pins@.len(),
            r@ == writes_for(pins@.subrange(0, i as int), topic@, payload@),
        decreases pins@.len() - i,
    {
        let ghost before = pins@.subrange(0, i as int);
        let ghost after = pins@.subrange(0, i + 1);
        assert(after.drop_last() =~= before);
        let p = &pins[i];
        if p.mqtt_topic_set == *topic {
            match p.command_level(payload) {
                Some(level) => {
                    r.push(LineWrite { pin: i, level });
                },
                None => {},
            }
        }
        i = i + 1;
    }
    assert(pins@.subrange(0, pins@.len() as int) =~= pins@);
    r
}

/// One turn of the receive loop: a published message is dispatched, other and
/// failed events are passed over, and the end of the stream ends the loop.
pub fn step(pins: &Vec<Pin>, event: &Inbound) -> (r: Step)
    ensures
        match event {
            Inbound::Publish { topic, payload } => r matches Step::Apply(w) && w@ == writes_for(
                pins@,
                topic@,
                payload@,
            ),
            Inbound::Closed => r is Stop,
            _ => r is Ignore,
        },
{
    match event {
        Inbound::Publish { topic, payload } => Step::Apply(dispatch(pins, topic, payload.as_slice())),
        Inbound::Closed => Step::Stop,
        _ => Step::Ignore,
    }
}

/// Whether `m` is the state message of `pin` for line level `level`.
pub open spec fn announces(m: Publication, pin: Pin, level: u8) -> bool {
    &&& m.topic@ == pin.mqtt_topic@
    &&& m.payload@ == pin.state_payload_spec(level)
    &&& m.qos == pin.qos
    &&& m.retain == pin.retain
}

/// The startup broadcast: one state message per pin, in order, for the level
/// that its line reads.
pub fn initial_publications(pins: &Vec<Pin>, levels: &Vec<u8>) -> (r: Vec<Publication>)
    requires
        levels@.len() == pins@.len(),
        forall|i: int| 0 <= i < levels@.len() ==> #[trigger] levels@[i] <= 1,
    ensures
        r@.len() == pins@.len(),
        forall|i: int| 0 <= i < r@.len() ==> announces(#[trigger] r@[i], pins@[i], levels@[i]),
{
    let mut r: Vec<Publication> = Vec::new();
    let mut i: usize = 0;
    while i < pins.len()
        invariant
            i <= pins@.len(),
            levels@.len() == pins@.len(),
            forall|j: int| 0 <= j < levels@.len() ==> #[trigger] levels@[j] <= 1,
            r@.len() == i,
            forall|j: int| 0 <= j < i ==> announces(#[trigger] r@[j], pins@[j], levels@[j]),
        decreases pins@.len() - i,
    {
        r.push(pins[i].publish_state(levels[i]));
        i = i + 1;
    }
    r
}

} // verus!
