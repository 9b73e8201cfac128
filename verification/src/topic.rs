//! The MQTT topics of a device and of its entities.
//!
//! Every topic is written into a topic buffer of `TOPIC_CAPACITY` bytes; a topic whose
//! UTF-8 encoding is longer than that does not fit and is refused.

use vstd::prelude::*;
use vstd::string::StringSliceAdditionalSpecFns;

use crate::buffer::{topic_buffer_bytes, TopicBuffer, TOPIC_CAPACITY};

verus! {

pub const DISCOVERY_TOPIC_ROOT: &'static str = "homeassistant/";
pub const TOPIC_ROOT: &'static str = "embassy-ha/";
pub const TOPIC_SEPARATOR: &'static str = "/";
pub const DISCOVERY_ID_SEPARATOR: &'static str = "_";
pub const DISCOVERY_TOPIC_SUFFIX: &'static str = "/config";
pub const STATE_TOPIC_SUFFIX: &'static str = "/state";
pub const COMMAND_TOPIC_SUFFIX: &'static str = "/command";
pub const AVAILABILITY_TOPIC_SUFFIX: &'static str = "/availability";

/// `homeassistant/{domain}/{device_id}_{entity_id}/config`, as UTF-8 bytes.
pub open spec fn spec_discovery_topic(domain: Seq<u8>, device_id: Seq<u8>, entity_id: Seq<u8>) -> Seq<u8> {
    DISCOVERY_TOPIC_ROOT.spec_bytes() + domain + TOPIC_SEPARATOR.spec_bytes() + device_id
        + DISCOVERY_ID_SEPARATOR.spec_bytes() + entity_id + DISCOVERY_TOPIC_SUFFIX.spec_bytes()
}

/// `embassy-ha/{device_id}/{entity_id}/state`, as UTF-8 bytes.
pub open spec fn spec_state_topic(device_id: Seq<u8>, entity_id: Seq<u8>) -> Seq<u8> {
    TOPIC_ROOT.spec_bytes() + device_id + TOPIC_SEPARATOR.spec_bytes() + entity_id + STATE_TOPIC_SUFFIX.spec_bytes()
}

/// `embassy-ha/{device_id}/{entity_id}/command`, as UTF-8 bytes.
pub open spec fn spec_command_topic(device_id: Seq<u8>, entity_id: Seq<u8>) -> Seq<u8> {
    TOPIC_ROOT.spec_bytes() + device_id + TOPIC_SEPARATOR.spec_bytes() + entity_id + COMMAND_TOPIC_SUFFIX.spec_bytes()
}

/// `embassy-ha/{device_id}/availability`, as UTF-8 bytes.
pub open spec fn spec_availability_topic(device_id: Seq<u8>) -> Seq<u8> {
    TOPIC_ROOT.spec_bytes() + device_id + AVAILABILITY_TOPIC_SUFFIX.spec_bytes()
}

/// Whether a topic fits in a topic buffer.
pub open spec fn spec_topic_fits(topic: Seq<u8>) -> bool {
    topic.len() <= TOPIC_CAPACITY
}

/// The topic that a built topic buffer holds, if one was built.
pub open spec fn spec_built(b: Option<TopicBuffer>) -> Option<Seq<u8>> {
    match b {
        Some(b) => Some(topic_buffer_bytes(b)),
        None => None,
    }
}

/// The topic, when it fits in a topic buffer.
pub open spec fn spec_bounded(topic: Seq<u8>) -> Option<Seq<u8>> {
    if spec_topic_fits(topic) {
        Some(topic)
    } else {
        None
    }
}

/// Writes the pieces, in order, into a new topic buffer: the buffer when they all fit.
fn build(pieces: &[&str]) -> (r: Option<TopicBuffer>)
    ensures
        spec_built(r) == spec_bounded(spec_concat(pieces@)),
{
    let mut t = TopicBuffer::empty();
    let mut i: usize = 0;
    while i < pieces.len()
        invariant
            0 <= i <= pieces@.len(),
            topic_buffer_bytes(t) == spec_concat(pieces@.take(i as int)),
            spec_topic_fits(topic_buffer_bytes(t)),
        decreases pieces@.len() - i,
    {
        proof {
            lemma_concat_push(pieces@, i as int);
        }
        if !t.push_str(pieces[i]) {
            proof {
                lemma_concat_grows(pieces@, i as int + 1);
            }
            return None;
        }
        i = i + 1;
    }
    assert(pieces@.take(pieces@.len() as int) =~= pieces@);
    Some(t)
}

/// The UTF-8 bytes of the pieces, one after the other.
pub open spec fn spec_concat(pieces: Seq<&str>) -> Seq<u8>
    decreases pieces.len(),
{
    if pieces.len() == 0 {
        Seq::empty()
    } else {
        spec_concat(pieces.drop_last()) + pieces.last().spec_bytes()
    }
}

proof fn lemma_concat_push(pieces: Seq<&str>, i: int)
    requires
        0 <= i < pieces.len(),
    ensures
        spec_concat(pieces.take(i + 1)) == spec_concat(pieces.take(i)) + pieces[i].spec_bytes(),
{
    assert(pieces.take(i + 1).drop_last() =~= pieces.take(i));
}

/// Appending more pieces never makes the bytes shorter.
proof fn lemma_concat_grows(pieces: Seq<&str>, i: int)
    requires
        0 <= i <= pieces.len(),
    ensures
        spec_concat(pieces.take(i)).len() <= spec_concat(pieces).len(),
    decreases pieces.len() - i,
{
    if i < pieces.len() {
        lemma_concat_push(pieces, i);
        lemma_concat_grows(pieces, i + 1);
    } else {
        assert(pieces.take(i) =~= pieces);
    }
}

/// The discovery topic of an entity, if it fits in a topic buffer.
pub fn discovery_topic(domain: &str, device_id: &str, entity_id: &str) -> (r: Option<TopicBuffer>)
    ensures
        spec_built(r) == spec_bounded(
            spec_discovery_topic(domain.spec_bytes(), device_id.spec_bytes(), entity_id.spec_bytes()),
        ),
{
    let pieces = [
        DISCOVERY_TOPIC_ROOT,
        domain,
        TOPIC_SEPARATOR,
        device_id,
        DISCOVERY_ID_SEPARATOR,
        entity_id,
        DISCOVERY_TOPIC_SUFFIX,
    ];
    proof {
        reveal_with_fuel(spec_concat, 8);
        assert(spec_concat(pieces@) =~= spec_discovery_topic(
            domain.spec_bytes(),
            device_id.spec_bytes(),
            entity_id.spec_bytes(),
        ));
    }
    build(&pieces)
}

/// The topic on which an entity's state is published, if it fits in a topic buffer.
pub fn state_topic(device_id: &str, entity_id: &str) -> (r: Option<TopicBuffer>)
    ensures
        spec_built(r) == spec_bounded(spec_state_topic(device_id.spec_bytes(), entity_id.spec_bytes())),
{
    let pieces = [TOPIC_ROOT, device_id, TOPIC_SEPARATOR, entity_id, STATE_TOPIC_SUFFIX];
    proof {
        reveal_with_fuel(spec_concat, 6);
        assert(spec_concat(pieces@) =~= spec_state_topic(device_id.spec_bytes(), entity_id.spec_bytes()));
    }
    build(&pieces)
}

/// The topic on which an entity receives commands, if it fits in a topic buffer.
pub fn command_topic(device_id: &str, entity_id: &str) -> (r: Option<TopicBuffer>)
    ensures
        spec_built(r) == spec_bounded(spec_command_topic(device_id.spec_bytes(), entity_id.spec_bytes())),
{
    let pieces = [TOPIC_ROOT, device_id, TOPIC_SEPARATOR, entity_id, COMMAND_TOPIC_SUFFIX];
    proof {
        reveal_with_fuel(spec_concat, 6);
        assert(spec_concat(pieces@) =~= spec_command_topic(device_id.spec_bytes(), entity_id.spec_bytes()));
    }
    build(&pieces)
}

/// The topic on which the device's availability is published, if it fits in a topic buffer.
pub fn availability_topic(device_id: &str) -> (r: Option<TopicBuffer>)
    ensures
        spec_built(r) == spec_bounded(spec_availability_topic(device_id.spec_bytes())),
{
    let pieces = [TOPIC_ROOT, device_id, AVAILABILITY_TOPIC_SUFFIX];
    proof {
        reveal_with_fuel(spec_concat, 4);
        assert(spec_concat(pieces@) =~= spec_availability_topic(device_id.spec_bytes()));
    }
    build(&pieces)
}

/// Two entities of one device have the same command topic only if they have the same id.
pub proof fn lemma_command_topic_injective(device_id: Seq<u8>, a: Seq<u8>, b: Seq<u8>)
    requires
        spec_command_topic(device_id, a) == spec_command_topic(device_id, b),
    ensures
        a == b,
{
    let p = TOPIC_ROOT.spec_bytes() + device_id + TOPIC_SEPARATOR.spec_bytes();
    let s = COMMAND_TOPIC_SUFFIX.spec_bytes();
    assert(spec_command_topic(device_id, a) =~= p + a + s);
    assert(spec_command_topic(device_id, b) =~= p + b + s);
    assert(a =~= (p + a + s).subrange(p.len() as int, (p.len() + a.len()) as int));
    assert(b =~= (p + b + s).subrange(p.len() as int, (p.len() + b.len()) as int));
}

/// No state topic is a command topic: a device never takes a state that it publishes
/// for a command, whatever the ids of its devices and entities.
pub proof fn lemma_state_topic_is_not_command_topic(d1: Seq<u8>, e1: Seq<u8>, d2: Seq<u8>, e2: Seq<u8>)
    ensures
        spec_state_topic(d1, e1) != spec_command_topic(d2, e2),
{
    reveal_strlit("/state");
    reveal_strlit("/command");
    vstd::utf8::is_ascii_chars_encode_utf8(STATE_TOPIC_SUFFIX@);
    vstd::utf8::is_ascii_chars_encode_utf8(COMMAND_TOPIC_SUFFIX@);
    assert(vstd::utf8::is_ascii_chars(STATE_TOPIC_SUFFIX@));
    assert(vstd::utf8::is_ascii_chars(COMMAND_TOPIC_SUFFIX@));
    let s = spec_state_topic(d1, e1);
    let c = spec_command_topic(d2, e2);
    assert(s.last() == STATE_TOPIC_SUFFIX.spec_bytes().last());
    assert(c.last() == COMMAND_TOPIC_SUFFIX.spec_bytes().last());
    assert(STATE_TOPIC_SUFFIX.spec_bytes().last() == 101u8);
    assert(COMMAND_TOPIC_SUFFIX.spec_bytes().last() == 100u8);
}

} // verus!
