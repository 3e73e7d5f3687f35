use vstd::prelude::*;
use vstd::utf8::{encode_utf8, encode_utf8_decode_utf8};

use crate::config::DigitalOutput;
use crate::dispatch::{announces, writes_for, LineWrite};
use crate::message::Publication;
use crate::pin::{initial_level_of, Pin};

verus! {

/// When pin `k` alone listens on `topic`, a message there causes at most one
/// write: to pin `k`, at the level that its words give the payload.
pub proof fn single_listener_gets_the_write(
    pins: Seq<Pin>,
    topic: Seq<char>,
    payload: Seq<u8>,
    k: int,
)
    requires
        0 <= k < pins.len(),
        pins.len() <= usize::MAX,
        pins[k].mqtt_topic_set@ == topic,
        forall|i: int| 0 <= i < pins.len() && i != k ==> #[trigger] pins[i].mqtt_topic_set@ != topic,
    ensures
        writes_for(pins, topic, payload) == (match pins[k].command_level_spec(payload) {
            Some(level) => seq![LineWrite { pin: k as usize, level }],
            None => Seq::empty(),
        }),
    decreases pins.len(),
{
    let prefix = pins.drop_last();
    if k == pins.len() - 1 {
        nobody_listens(prefix, topic, payload);
    } else {
        single_listener_gets_the_write(prefix, topic, payload, k);
    }
}

/// A message on a topic that no pin listens on causes no write.
pub proof fn nobody_listens(pins: Seq<Pin>, topic: Seq<char>, payload: Seq<u8>)
    requires
        forall|i: int| 0 <= i < pins.len() ==> #[trigger] pins[i].mqtt_topic_set@ != topic,
    ensures
        writes_for(pins, topic, payload) == Seq::<LineWrite>::empty(),
    decreases pins.len(),
{
    if pins.len() > 0 {
        nobody_listens(pins.drop_last(), topic, payload);
    }
}

/// A message whose payload is the high word of its only listener sets that
/// pin's line to 1, and the state then announced is the high word.
pub proof fn high_command_sets_high(pins: Seq<Pin>, topic: Seq<char>, k: int)
    requires
        0 <= k < pins.len(),
        pins.len() <= usize::MAX,
        pins[k].mqtt_topic_set@ == topic,
        forall|i: int| 0 <= i < pins.len() && i != k ==> #[trigger] pins[i].mqtt_topic_set@ != topic,
    ensures
        writes_for(pins, topic, encode_utf8(pins[k].mqtt_state_high@)) == seq![
            LineWrite { pin: k as usize, level: 1u8 },
        ],
        pins[k].state_payload_spec(1) == pins[k].mqtt_state_high@,
{
    single_listener_gets_the_write(pins, topic, encode_utf8(pins[k].mqtt_state_high@), k);
}

/// A payload that is neither word of any pin causes no write, and so no
/// state message.
pub proof fn unknown_payload_is_ignored(pins: Seq<Pin>, topic: Seq<char>, payload: Seq<u8>)
    requires
        forall|i: int|
            0 <= i < pins.len() ==> payload != encode_utf8(#[trigger] pins[i].mqtt_state_high@)
                && payload != encode_utf8(pins[i].mqtt_state_low@),
    ensures
        writes_for(pins, topic, payload) == Seq::<LineWrite>::empty(),
    decreases pins.len(),
{
    if pins.len() > 0 {
        let prefix = pins.drop_last();
        assert forall|i: int| 0 <= i < prefix.len() implies payload != encode_utf8(
            #[trigger] prefix[i].mqtt_state_high@,
        ) && payload != encode_utf8(prefix[i].mqtt_state_low@) by {
            assert(prefix[i] == pins[i]);
        }
        unknown_payload_is_ignored(prefix, topic, payload);
        assert(pins.last() == pins[pins.len() - 1]);
    }
}

/// Distinct words have distinct encodings.
proof fn encodings_differ(a: Seq<char>, b: Seq<char>)
    requires
        a != b,
    ensures
        encode_utf8(a) != encode_utf8(b),
{
    encode_utf8_decode_utf8(a);
    encode_utf8_decode_utf8(b);
}

/// For a pin whose two words differ, the commands high, low, high set its line
/// to 1, 0, 1, and the states announced after them are high, low, high.
pub proof fn high_low_high_round_trip(p: Pin)
    requires
        p.distinct_states(),
    ensures
        ({
            let cmds = seq![
                encode_utf8(p.mqtt_state_high@),
                encode_utf8(p.mqtt_state_low@),
                encode_utf8(p.mqtt_state_high@),
            ];
            let levels = cmds.map_values(|c: Seq<u8>| p.command_level_spec(c));
            &&& levels == seq![Some(1u8), Some(0u8), Some(1u8)]
            &&& levels.map_values(|l: Option<u8>| p.state_payload_spec(l->0)) == seq![
                p.mqtt_state_high@,
                p.mqtt_state_low@,
                p.mqtt_state_high@,
            ]
        }),
{
    encodings_differ(p.mqtt_state_low@, p.mqtt_state_high@);
    let cmds = seq![
        encode_utf8(p.mqtt_state_high@),
        encode_utf8(p.mqtt_state_low@),
        encode_utf8(p.mqtt_state_high@),
    ];
    let levels = cmds.map_values(|c: Seq<u8>| p.command_level_spec(c));
    assert(levels =~= seq![Some(1u8), Some(0u8), Some(1u8)]);
    assert(levels.map_values(|l: Option<u8>| p.state_payload_spec(l->0)) =~= seq![
        p.mqtt_state_high@,
        p.mqtt_state_low@,
        p.mqtt_state_high@,
    ]);
}

/// When pin `k` alone listens on `topic` and its two words differ, the
/// messages high, low, high on that topic, in that order, each cause exactly
/// one write, setting its line to 1, 0, 1; the states then announced on its
/// display topic are high, low, high.
pub proof fn high_low_high_through_dispatch(pins: Seq<Pin>, topic: Seq<char>, k: int)
    requires
        0 <= k < pins.len(),
        pins.len() <= usize::MAX,
        pins[k].mqtt_topic_set@ == topic,
        forall|i: int| 0 <= i < pins.len() && i != k ==> #[trigger] pins[i].mqtt_topic_set@ != topic,
        pins[k].distinct_states(),
    ensures
        ({
            let p = pins[k];
            let msgs = seq![
                encode_utf8(p.mqtt_state_high@),
                encode_utf8(p.mqtt_state_low@),
                encode_utf8(p.mqtt_state_high@),
            ];
            &&& msgs.map_values(|c: Seq<u8>| writes_for(pins, topic, c)) == seq![
                seq![LineWrite { pin: k as usize, level: 1u8 }],
                seq![LineWrite { pin: k as usize, level: 0u8 }],
                seq![LineWrite { pin: k as usize, level: 1u8 }],
            ]
            &&& seq![1u8, 0u8, 1u8].map_values(|l: u8| p.state_payload_spec(l)) == seq![
                p.mqtt_state_high@,
                p.mqtt_state_low@,
                p.mqtt_state_high@,
            ]
        }),
{
    let p = pins[k];
    let high = encode_utf8(p.mqtt_state_high@);
    let low = encode_utf8(p.mqtt_state_low@);
    encodings_differ(p.mqtt_state_low@, p.mqtt_state_high@);
    single_listener_gets_the_write(pins, topic, high, k);
    single_listener_gets_the_write(pins, topic, low, k);
    let msgs = seq![high, low, high];
    assert(msgs.map_values(|c: Seq<u8>| writes_for(pins, topic, c)) =~= seq![
        seq![LineWrite { pin: k as usize, level: 1u8 }],
        seq![LineWrite { pin: k as usize, level: 0u8 }],
        seq![LineWrite { pin: k as usize, level: 1u8 }],
    ]);
    assert(seq![1u8, 0u8, 1u8].map_values(|l: u8| p.state_payload_spec(l)) =~= seq![
        p.mqtt_state_high@,
        p.mqtt_state_low@,
        p.mqtt_state_high@,
    ]);
}

/// At startup, with each pin built from its output and each line reading the
/// level it was requested with, the broadcast holds one message per output, in
/// order, on its display topic, carrying the high word when the initial state
/// is the high word and the low word otherwise.
pub proof fn startup_broadcast_follows_initial_state(
    outputs: Seq<DigitalOutput>,
    pins: Seq<Pin>,
    levels: Seq<u8>,
    msgs: Seq<Publication>,
)
    requires
        pins.len() == outputs.len(),
        levels.len() == outputs.len(),
        msgs.len() == outputs.len(),
        forall|i: int|
            0 <= i < outputs.len() ==> {
                &&& #[trigger] pins[i].mqtt_topic@ == outputs[i].mqtt_topic@
                &&& pins[i].mqtt_state_high@ == outputs[i].mqtt_state_high@
                &&& pins[i].mqtt_state_low@ == outputs[i].mqtt_state_low@
            },
        forall|i: int|
            0 <= i < outputs.len() ==> #[trigger] levels[i] == initial_level_of(
                outputs[i].initial_state@,
                outputs[i].mqtt_state_high@,
            ),
        forall|i: int| 0 <= i < outputs.len() ==> announces(#[trigger] msgs[i], pins[i], levels[i]),
    ensures
        forall|i: int|
            0 <= i < outputs.len() ==> {
                &&& #[trigger] msgs[i].topic@ == outputs[i].mqtt_topic@
                &&& msgs[i].payload@ == (if outputs[i].initial_state@ == outputs[i].mqtt_state_high@ {
                    outputs[i].mqtt_state_high@
                } else {
                    outputs[i].mqtt_state_low@
                })
            },
{
    assert forall|i: int| 0 <= i < outputs.len() implies {
        &&& #[trigger] msgs[i].topic@ == outputs[i].mqtt_topic@
        &&& msgs[i].payload@ == (if outputs[i].initial_state@ == outputs[i].mqtt_state_high@ {
            outputs[i].mqtt_state_high@
        } else {
            outputs[i].mqtt_state_low@
        })
    } by {
        assert(announces(msgs[i], pins[i], levels[i]));
        assert(pins[i].mqtt_topic@ == outputs[i].mqtt_topic@);
        assert(levels[i] == initial_level_of(outputs[i].initial_state@, outputs[i].mqtt_state_high@));
    }
}

} // verus!
