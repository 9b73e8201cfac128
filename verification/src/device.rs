//! The state of a device and the decisions of its MQTT loop.
//!
//! `DeviceState` holds every entity of the device. The handles of the entities read and
//! change it; the MQTT loop asks it, step by step, what to announce, what to publish and
//! what a received command does.

use vstd::prelude::*;
use vstd::string::StringExecFns;
use vstd::string::StringSliceAdditionalSpecFns;
use vstd::utf8::encode_utf8;
use vstd::utf8::valid_utf8;

use crate::binary_state::{spec_parse_binary_state, BinaryState};
use crate::bytes::{bytes_eq, str_from_utf8};
use crate::buffer::{publish_buffer_bytes, topic_buffer_bytes, PublishBuffer, TopicBuffer, PUBLISH_CAPACITY};
use crate::constants;
use crate::discovery::{DeviceDiscovery, EntityTopics};
use crate::entity::{
    instant_now, spec_empty_entity_config, BinarySensorState, BinarySensorStorage, ButtonStorage,
    CommandPolicy, EntityConfig,
    EntityStorage, LightStorage, NumberCommand, NumberState, NumberStorage, NumericSensorState,
    NumericSensorStorage, SwitchCommand, SwitchState, SwitchStorage,
};
use crate::entity_light::{
    apply_light_command, spec_apply_light_command, spec_light_color_modes, LightCommand, LightConfig,
    LightState,
};
use crate::entity_binary_sensor::BinarySensorConfig;
use crate::entity_button::ButtonConfig;
use crate::entity_number::NumberConfig;
use crate::entity_sensor::TemperatureSensorConfig;
use crate::entity_switch::SwitchConfig;
use crate::session::{SessionAction, SessionPhase};
use crate::topic::{
    availability_topic, command_topic, discovery_topic, spec_availability_topic, spec_bounded,
    spec_built, spec_command_topic, spec_discovery_topic, spec_state_topic, spec_topic_fits,
    state_topic,
};

verus! {

/// The most entities that one device holds.
pub const ENTITY_LIMIT: usize = 16;

/// The largest command payload that is read; a longer one is ignored.
pub const COMMAND_PAYLOAD_CAPACITY: usize = 128;

#[derive(Debug, Clone, Copy)]
pub struct DeviceConfig {
    pub device_id: &'static str,
    pub device_name: &'static str,
    pub manufacturer: &'static str,
    pub model: &'static str,
}

/// One entity of the device.
#[derive(Debug)]
pub struct EntityData {
    pub config: EntityConfig,
    pub storage: EntityStorage,
    /// The entity's state waits to be published.
    pub publish: bool,
    /// A command was received that the entity's handle has not taken yet.
    pub command: bool,
}

/// A new entity: nothing to publish, no command received.
pub open spec fn spec_new_entity(config: EntityConfig, storage: EntityStorage) -> EntityData {
    EntityData { config, storage, publish: false, command: false }
}

/// What the MQTT loop publishes for one entity in one pass.
#[derive(Debug)]
pub enum PublishStep {
    /// The entity has nothing waiting to be published.
    Idle,
    /// A publish was requested, but the entity's storage has no state to publish.
    Unsupported,
    /// The payload of the entity's state does not fit in the publish buffer.
    TooLarge,
    /// This payload is to be published on the entity's state topic.
    Payload(PublishBuffer),
    /// This light state is to be published, as JSON, on the entity's state topic.
    Light(LightState),
}

/// What a received command did.
#[derive(Debug, Clone, Copy, PartialEq, Eq, Structural)]
pub enum CommandOutcome {
    /// The command was stored and the entity's handle is to be woken.
    Applied,
    /// The payload is not UTF-8 text; it was ignored.
    InvalidUtf8,
    /// A button received something other than a press; it was ignored.
    UnexpectedButtonPayload,
    /// A switch received something other than "ON" or "OFF"; it was ignored.
    InvalidSwitchPayload,
    /// A number received something that is not a number; it was ignored.
    InvalidNumber,
    /// A light received something that is not a light command; it was ignored.
    InvalidLightCommand,
    /// The entity does not take commands; the payload was ignored.
    UnsupportedEntity,
}

/// A topic of an entity that does not fit in its buffer.
#[derive(Debug, Clone, Copy, PartialEq, Eq, Structural)]
pub enum TopicError {
    DiscoveryTopicTooLong,
    StateTopicTooLong,
    CommandTopicTooLong,
}

/// The payload that publishes the stored state, for the kinds of entity that publish one.
pub open spec fn spec_state_payload(storage: EntityStorage) -> Option<Seq<u8>> {
    match storage {
        EntityStorage::Switch(s) => match s.state {
            Some(st) => Some(st.value.spec_as_str().spec_bytes()),
            None => None,
        },
        EntityStorage::BinarySensor(b) => match b.state {
            Some(st) => Some(st.value.spec_as_str().spec_bytes()),
            None => None,
        },
        EntityStorage::NumericSensor(n) => match n.state {
            Some(st) => Some(encode_utf8(st.value@)),
            None => None,
        },
        EntityStorage::Number(n) => match n.state {
            Some(st) => Some(encode_utf8(st.value@)),
            None => None,
        },
        _ => None,
    }
}

/// What a command with this payload does to an entity with this storage.
pub open spec fn spec_command_outcome(
    storage: EntityStorage,
    payload: Seq<u8>,
    number: Option<String>,
    light: Option<LightCommand>,
) -> CommandOutcome {
    if !valid_utf8(payload) {
        CommandOutcome::InvalidUtf8
    } else {
        match storage {
            EntityStorage::Button(_) => if payload == constants::HA_BUTTON_PAYLOAD_PRESS.spec_bytes() {
                CommandOutcome::Applied
            } else {
                CommandOutcome::UnexpectedButtonPayload
            },
            EntityStorage::Switch(_) => if spec_parse_binary_state(payload) is Some {
                CommandOutcome::Applied
            } else {
                CommandOutcome::InvalidSwitchPayload
            },
            EntityStorage::Number(_) => if number is Some {
                CommandOutcome::Applied
            } else {
                CommandOutcome::InvalidNumber
            },
            EntityStorage::Light(_) => if light is Some {
                CommandOutcome::Applied
            } else {
                CommandOutcome::InvalidLightCommand
            },
            _ => CommandOutcome::UnsupportedEntity,
        }
    }
}

/// How an entity changes when it receives a command with this payload at time `now`.
pub open spec fn spec_command_effect(
    before: EntityData,
    after: EntityData,
    payload: Seq<u8>,
    number: Option<String>,
    light: Option<LightCommand>,
    now: embassy_time::Instant,
) -> bool {
    if spec_command_outcome(before.storage, payload, number, light) != CommandOutcome::Applied {
        after == before
    } else {
        &&& after.config == before.config
        &&& after.command
        &&& match before.storage {
            EntityStorage::Button(_) => {
                &&& after.storage == EntityStorage::Button(ButtonStorage { timestamp: Some(now), consumed: false })
                &&& after.publish == before.publish
            },
            EntityStorage::Switch(s) => {
                let value = spec_parse_binary_state(payload).unwrap();
                &&& after.storage == EntityStorage::Switch(SwitchStorage {
                    state: if s.publish_on_command {
                        Some(SwitchState { value, timestamp: now })
                    } else {
                        s.state
                    },
                    command: Some(SwitchCommand { value, timestamp: now }),
                    publish_on_command: s.publish_on_command,
                })
                &&& after.publish == (before.publish || s.publish_on_command)
            },
            EntityStorage::Number(n) => {
                &&& after.storage matches EntityStorage::Number(m)
                &&& m.publish_on_command == n.publish_on_command
                &&& m.command == Some(NumberCommand { value: number.unwrap(), timestamp: now })
                &&& if n.publish_on_command {
                    m.state == Some(NumberState { value: number.unwrap(), timestamp: now })
                } else {
                    m.state == n.state
                }
                &&& after.publish == (before.publish || n.publish_on_command)
            },
            EntityStorage::Light(l) => {
                let command = light.unwrap();
                &&& after.storage == EntityStorage::Light(LightStorage {
                    state: if l.publish_on_command {
                        Some(spec_apply_light_command(l.state, command))
                    } else {
                        l.state
                    },
                    command: Some(command),
                    publish_on_command: l.publish_on_command,
                })
                &&& after.publish == (before.publish || l.publish_on_command)
            },
            _ => false,
        }
    }
}

/// The index of the first entity, from `i` on, whose command topic is `topic`.
pub open spec fn spec_command_target_from(
    entities: Seq<EntityData>,
    device_id: Seq<u8>,
    topic: Seq<u8>,
    i: int,
) -> Option<int>
    decreases entities.len() - i,
{
    if i < 0 || i >= entities.len() {
        None
    } else if spec_command_topic(device_id, entities[i].config.id.spec_bytes()) == topic {
        Some(i)
    } else {
        spec_command_target_from(entities, device_id, topic, i + 1)
    }
}

/// The entity after its switch state is set to `value` at `now` and its publish requested.
pub open spec fn spec_switch_with_state(e: EntityData, value: BinaryState, now: embassy_time::Instant) -> EntityData {
    EntityData {
        storage: EntityStorage::Switch(SwitchStorage {
            state: Some(SwitchState { value, timestamp: now }),
            ..e.storage->Switch_0
        }),
        publish: true,
        ..e
    }
}

/// The entity after its numeric reading is set to `value` at `now` and its publish requested.
pub open spec fn spec_numeric_with_state(e: EntityData, value: String, now: embassy_time::Instant) -> EntityData {
    EntityData {
        storage: EntityStorage::NumericSensor(NumericSensorStorage {
            state: Some(NumericSensorState { value, timestamp: now }),
        }),
        publish: true,
        ..e
    }
}

/// The entity after its binary sensor state is set to `value` at `now` and its publish requested.
pub open spec fn spec_binary_sensor_with_state(e: EntityData, value: BinaryState, now: embassy_time::Instant) -> EntityData {
    EntityData {
        storage: EntityStorage::BinarySensor(BinarySensorStorage {
            state: Some(BinarySensorState { value, timestamp: now }),
        }),
        publish: true,
        ..e
    }
}

/// The entity after its number value is set to `value` at `now` and its publish requested.
pub open spec fn spec_number_with_state(e: EntityData, value: String, now: embassy_time::Instant) -> EntityData {
    EntityData {
        storage: EntityStorage::Number(NumberStorage {
            state: Some(NumberState { value, timestamp: now }),
            ..e.storage->Number_0
        }),
        publish: true,
        ..e
    }
}

/// The entity after its handle takes a button press: a press that was received and not
/// yet taken becomes taken.
pub open spec fn spec_press_taken(e: EntityData) -> EntityData {
    EntityData {
        storage: EntityStorage::Button(ButtonStorage { consumed: true, ..e.storage->Button_0 }),
        ..e
    }
}

/// Whether a button holds a press that its handle has not taken.
pub open spec fn spec_press_pending(b: ButtonStorage) -> bool {
    b.timestamp is Some && !b.consumed
}

/// The entity after its light state is set to `state` and its publish requested.
pub open spec fn spec_light_with_state(e: EntityData, state: LightState) -> EntityData {
    EntityData {
        storage: EntityStorage::Light(LightStorage { state: Some(state), ..e.storage->Light_0 }),
        publish: true,
        ..e
    }
}

/// The state that toggling a switch gives: the other of the last command it received, or
/// "on" when it has received none.
pub open spec fn spec_toggled(s: SwitchStorage) -> BinaryState {
    match s.command {
        Some(c) => c.value.spec_flip(),
        None => BinaryState::On,
    }
}

/// The entity once the MQTT loop has taken its publish request.
pub open spec fn spec_publish_taken(e: EntityData) -> EntityData {
    EntityData { publish: false, ..e }
}

/// What a command to a device does when it names entity `i`'s command topic: the first
/// entity with that topic gets it. So an entity whose id no earlier entity shares gets
/// every command published on its own command topic.
pub proof fn lemma_command_reaches_entity(entities: Seq<EntityData>, device_id: Seq<u8>, i: int)
    requires
        0 <= i < entities.len(),
        forall|j: int| 0 <= j < i ==> entities[j].config.id.spec_bytes() != entities[i].config.id.spec_bytes(),
    ensures
        spec_command_target_from(entities, device_id, spec_command_topic(device_id, entities[i].config.id.spec_bytes()), 0)
            == Some(i),
{
    lemma_command_reaches_entity_from(entities, device_id, i, 0);
}

proof fn lemma_command_reaches_entity_from(entities: Seq<EntityData>, device_id: Seq<u8>, i: int, k: int)
    requires
        0 <= k <= i < entities.len(),
        forall|j: int| 0 <= j < i ==> entities[j].config.id.spec_bytes() != entities[i].config.id.spec_bytes(),
    ensures
        spec_command_target_from(entities, device_id, spec_command_topic(device_id, entities[i].config.id.spec_bytes()), k)
            == Some(i),
    decreases i - k,
{
    if k < i {
        if spec_command_topic(device_id, entities[k].config.id.spec_bytes()) == spec_command_topic(device_id, entities[i].config.id.spec_bytes()) {
            crate::topic::lemma_command_topic_injective(device_id, entities[k].config.id.spec_bytes(), entities[i].config.id.spec_bytes());
        }
        lemma_command_reaches_entity_from(entities, device_id, i, k + 1);
    }
}

/// The entity that gets a command is one whose command topic is the command's topic,
/// and no earlier entity has that topic; when no entity gets it, no entity has that topic.
pub proof fn lemma_command_target_spec(entities: Seq<EntityData>, device_id: Seq<u8>, topic: Seq<u8>, from: int)
    requires
        0 <= from,
    ensures
        match spec_command_target_from(entities, device_id, topic, from) {
            Some(i) => {
                &&& from <= i < entities.len()
                &&& spec_command_topic(device_id, entities[i].config.id.spec_bytes()) == topic
                &&& forall|j: int| from <= j < i ==> spec_command_topic(device_id, entities[j].config.id.spec_bytes()) != topic
            },
            None => forall|j: int| from <= j < entities.len() ==> spec_command_topic(device_id, entities[j].config.id.spec_bytes()) != topic,
        },
    decreases entities.len() - from,
{
    if from < entities.len() {
        lemma_command_target_spec(entities, device_id, topic, from + 1);
    }
}

/// The entity once its handle has taken its pending command.
pub open spec fn spec_command_taken(e: EntityData) -> EntityData {
    EntityData { command: false, ..e }
}

/// One step of an entity's history: step `k` is either its handle taking the pending
/// command (when `takes[k]`), or the device handling a command with the given inputs.
pub open spec fn spec_history_step(
    es: Seq<EntityData>,
    takes: Seq<bool>,
    payloads: Seq<Seq<u8>>,
    numbers: Seq<Option<String>>,
    lights: Seq<Option<LightCommand>>,
    times: Seq<embassy_time::Instant>,
    k: int,
) -> bool {
    if takes[k] {
        es[k + 1] == spec_command_taken(es[k])
    } else {
        spec_command_effect(es[k], es[k + 1], payloads[k], numbers[k], lights[k], times[k])
    }
}

/// Whether the command handled at step `k` was applied.
pub open spec fn spec_applied_at(
    es: Seq<EntityData>,
    payloads: Seq<Seq<u8>>,
    numbers: Seq<Option<String>>,
    lights: Seq<Option<LightCommand>>,
    k: int,
) -> bool {
    spec_command_outcome(es[k].storage, payloads[k], numbers[k], lights[k]) == CommandOutcome::Applied
}

/// A command that is ignored leaves the entity as it was; one that is applied leaves a
/// command pending for the entity's handle.
pub proof fn lemma_command_pending(
    before: EntityData,
    after: EntityData,
    payload: Seq<u8>,
    number: Option<String>,
    light: Option<LightCommand>,
    now: embassy_time::Instant,
)
    requires
        spec_command_effect(before, after, payload, number, light, now),
    ensures
        spec_command_outcome(before.storage, payload, number, light) != CommandOutcome::Applied ==> after == before,
        spec_command_outcome(before.storage, payload, number, light) == CommandOutcome::Applied ==> after.command,
{
}

/// The parameters of `lemma_commands_coalesce` and its kin describe a history of `n`
/// steps over `n + 1` entity snapshots.
pub open spec fn spec_history_shape(
    es: Seq<EntityData>,
    takes: Seq<bool>,
    payloads: Seq<Seq<u8>>,
    numbers: Seq<Option<String>>,
    lights: Seq<Option<LightCommand>>,
    times: Seq<embassy_time::Instant>,
) -> bool {
    &&& es.len() == takes.len() + 1
    &&& takes.len() == payloads.len()
    &&& takes.len() == numbers.len()
    &&& takes.len() == lights.len()
    &&& takes.len() == times.len()
}

/// Commands coalesce: once the device has applied a command to an entity, the command
/// stays pending through any further commands, applied or ignored, until the handle takes
/// it; the take then reports it and leaves none pending.
pub proof fn lemma_commands_coalesce(
    es: Seq<EntityData>,
    takes: Seq<bool>,
    payloads: Seq<Seq<u8>>,
    numbers: Seq<Option<String>>,
    lights: Seq<Option<LightCommand>>,
    times: Seq<embassy_time::Instant>,
    applied: int,
    j: int,
)
    requires
        spec_history_shape(es, takes, payloads, numbers, lights, times),
        0 <= applied < j < es.len(),
        forall|k: int| applied <= k < j ==> #[trigger] spec_history_step(es, takes, payloads, numbers, lights, times, k),
        forall|k: int| applied <= k < j ==> !#[trigger] takes[k],
        spec_applied_at(es, payloads, numbers, lights, applied),
    ensures
        es[j].command,
        !spec_command_taken(es[j]).command,
    decreases j - applied,
{
    assert(spec_history_step(es, takes, payloads, numbers, lights, times, applied));
    assert(!takes[applied]);
    if applied + 1 < j {
        lemma_command_stays_pending(es, takes, payloads, numbers, lights, times, applied + 1, j);
    }
}

/// A pending command stays pending while the handle takes none.
proof fn lemma_command_stays_pending(
    es: Seq<EntityData>,
    takes: Seq<bool>,
    payloads: Seq<Seq<u8>>,
    numbers: Seq<Option<String>>,
    lights: Seq<Option<LightCommand>>,
    times: Seq<embassy_time::Instant>,
    m: int,
    j: int,
)
    requires
        spec_history_shape(es, takes, payloads, numbers, lights, times),
        0 <= m <= j < es.len(),
        es[m].command,
        forall|k: int| m <= k < j ==> #[trigger] spec_history_step(es, takes, payloads, numbers, lights, times, k),
        forall|k: int| m <= k < j ==> !#[trigger] takes[k],
    ensures
        es[j].command,
    decreases j - m,
{
    if m < j {
        assert(spec_history_step(es, takes, payloads, numbers, lights, times, m));
        assert(!takes[m]);
        lemma_command_stays_pending(es, takes, payloads, numbers, lights, times, m + 1, j);
    }
}

/// No command becomes pending without an applied command.
proof fn lemma_no_command_without_apply(
    es: Seq<EntityData>,
    takes: Seq<bool>,
    payloads: Seq<Seq<u8>>,
    numbers: Seq<Option<String>>,
    lights: Seq<Option<LightCommand>>,
    times: Seq<embassy_time::Instant>,
    m: int,
    j: int,
)
    requires
        spec_history_shape(es, takes, payloads, numbers, lights, times),
        0 <= m <= j < es.len(),
        !es[m].command,
        forall|k: int| m <= k < j ==> #[trigger] spec_history_step(es, takes, payloads, numbers, lights, times, k),
        forall|k: int| m <= k < j ==> !#[trigger] takes[k],
        forall|k: int| m <= k < j ==> !#[trigger] spec_applied_at(es, payloads, numbers, lights, k),
    ensures
        !es[j].command,
    decreases j - m,
{
    if m < j {
        assert(spec_history_step(es, takes, payloads, numbers, lights, times, m));
        assert(!takes[m]);
        assert(!spec_applied_at(es, payloads, numbers, lights, m));
        lemma_no_command_without_apply(es, takes, payloads, numbers, lights, times, m + 1, j);
    }
}

/// Takes never outnumber applied commands: when the handle takes a command at step `i`
/// and finds one pending again at step `j` without taking in between, the device applied
/// a command to the entity at some step between them.
pub proof fn lemma_take_needs_new_command(
    es: Seq<EntityData>,
    takes: Seq<bool>,
    payloads: Seq<Seq<u8>>,
    numbers: Seq<Option<String>>,
    lights: Seq<Option<LightCommand>>,
    times: Seq<embassy_time::Instant>,
    i: int,
    j: int,
)
    requires
        spec_history_shape(es, takes, payloads, numbers, lights, times),
        0 <= i < j < es.len(),
        takes[i],
        forall|k: int| i <= k < j ==> #[trigger] spec_history_step(es, takes, payloads, numbers, lights, times, k),
        forall|k: int| i < k < j ==> !#[trigger] takes[k],
        es[j].command,
    ensures
        exists|k: int| i < k < j && #[trigger] spec_applied_at(es, payloads, numbers, lights, k),
{
    assert(spec_history_step(es, takes, payloads, numbers, lights, times, i));
    if !(exists|k: int| i < k < j && #[trigger] spec_applied_at(es, payloads, numbers, lights, k)) {
        lemma_no_command_without_apply(es, takes, payloads, numbers, lights, times, i + 1, j);
    }
}
/// A switch that publishes on command publishes back exactly the payload it received:
/// after an applied command, its state is to be published and the payload of its state
/// is the received payload.
pub proof fn lemma_switch_echoes_command(
    before: EntityData,
    after: EntityData,
    payload: Seq<u8>,
    number: Option<String>,
    light: Option<LightCommand>,
    now: embassy_time::Instant,
)
    requires
        before.storage matches EntityStorage::Switch(s) && s.publish_on_command,
        spec_command_outcome(before.storage, payload, number, light) == CommandOutcome::Applied,
        spec_command_effect(before, after, payload, number, light, now),
    ensures
        after.publish,
        spec_state_payload(after.storage) == Some(payload),
{
    let v = spec_parse_binary_state(payload).unwrap();
    crate::binary_state::lemma_state_payloads_differ();
    assert(v.spec_as_str().spec_bytes() == payload);
}

/// A number that publishes on command publishes back the value it received, as the
/// decimal text that the payload was read as.
pub proof fn lemma_number_echoes_command(
    before: EntityData,
    after: EntityData,
    payload: Seq<u8>,
    number: String,
    light: Option<LightCommand>,
    now: embassy_time::Instant,
)
    requires
        before.storage matches EntityStorage::Number(n) && n.publish_on_command,
        spec_command_outcome(before.storage, payload, Some(number), light) == CommandOutcome::Applied,
        spec_command_effect(before, after, payload, Some(number), light, now),
    ensures
        after.publish,
        spec_state_payload(after.storage) == Some(encode_utf8(number@)),
{
}

/// A light whose policy is to publish on command takes each command onto its state and
/// publishes the result: the fields the command carries replace the light's, the others
/// stay. A light under the manual policy keeps its state and only records the command.
pub proof fn lemma_light_command_effect(
    before: EntityData,
    after: EntityData,
    payload: Seq<u8>,
    number: Option<String>,
    command: LightCommand,
    now: embassy_time::Instant,
)
    requires
        before.storage is Light,
        spec_command_outcome(before.storage, payload, number, Some(command)) == CommandOutcome::Applied,
        spec_command_effect(before, after, payload, number, Some(command), now),
    ensures
        after.storage->Light_0.command == Some(command),
        before.storage->Light_0.publish_on_command ==> after.publish
            && spec_light_payload(after.storage) == Some(spec_apply_light_command(before.storage->Light_0.state, command)),
        !before.storage->Light_0.publish_on_command ==> after.storage->Light_0.state == before.storage->Light_0.state,
{
}

/// The state that a light publishes: its stored state, if it has one.
pub open spec fn spec_light_payload(storage: EntityStorage) -> Option<LightState> {
    match storage {
        EntityStorage::Light(l) => l.state,
        _ => None,
    }
}

/// A light reads back the state last set: when a light holds `state` and every later step
/// leaves its state alone (as queueing or taking a publish, taking a command, and handling
/// a command under the manual policy all do), it still holds `state`.
pub proof fn lemma_light_reads_last_set(es: Seq<EntityData>, state: LightState, i: int, j: int)
    requires
        0 <= i <= j < es.len(),
        es[i].storage is Light,
        es[i].storage->Light_0.state == Some(state),
        forall|k: int|
            i <= k < j ==> #[trigger] es[k + 1].storage is Light
                && es[k + 1].storage->Light_0.state == es[k].storage->Light_0.state,
    ensures
        es[j].storage is Light,
        es[j].storage->Light_0.state == Some(state),
    decreases j - i,
{
    if i < j {
        assert(es[i + 1].storage is Light && es[i + 1].storage->Light_0.state == es[i].storage->Light_0.state);
        lemma_light_reads_last_set(es, state, i + 1, j);
    }
}

/// The steps that leave a light's state alone: queueing a publish, taking a publish, taking
/// a command, setting the light again to the same state, and handling a command that is
/// ignored or that a manual light only records.
pub proof fn lemma_light_state_kept(
    e: EntityData,
    after_command: EntityData,
    payload: Seq<u8>,
    number: Option<String>,
    light: Option<LightCommand>,
    now: embassy_time::Instant,
)
    requires
        e.storage is Light,
        spec_command_effect(e, after_command, payload, number, light, now),
        !e.storage->Light_0.publish_on_command
            || spec_command_outcome(e.storage, payload, number, light) != CommandOutcome::Applied,
    ensures
        (EntityData { publish: true, ..e }).storage->Light_0.state == e.storage->Light_0.state,
        spec_publish_taken(e).storage->Light_0.state == e.storage->Light_0.state,
        spec_command_taken(e).storage->Light_0.state == e.storage->Light_0.state,
        after_command.storage is Light,
        after_command.storage->Light_0.state == e.storage->Light_0.state,
{
}

/// A switch state that is set is what the switch publishes next.
pub proof fn lemma_switch_set_is_published(e: EntityData, value: BinaryState, now: embassy_time::Instant)
    requires
        e.storage is Switch,
    ensures
        spec_switch_with_state(e, value, now).publish,
        spec_state_payload(spec_switch_with_state(e, value, now).storage) == Some(value.spec_as_str().spec_bytes()),
{
}

/// A numeric reading that is stored is what the sensor publishes next.
pub proof fn lemma_numeric_reading_is_published(e: EntityData, value: String, now: embassy_time::Instant)
    ensures
        spec_numeric_with_state(e, value, now).publish,
        spec_state_payload(spec_numeric_with_state(e, value, now).storage) == Some(encode_utf8(value@)),
{
}

/// A light state that is set is what reading the light's state gives back, and the
/// light's publish is requested.
pub proof fn lemma_light_set_read_back(e: EntityData, state: LightState)
    requires
        e.storage is Light,
    ensures
        spec_light_with_state(e, state).storage->Light_0.state == Some(state),
        spec_light_with_state(e, state).publish,
        spec_light_with_state(e, state).storage->Light_0.command == e.storage->Light_0.command,
{
}

/// Toggling a switch sets its state to the other of the last command received (or "on"
/// when none was), publishes it, and leaves the command as it was: so toggling again before
/// another command arrives sets the same state, and a toggle after the command `v` sets the
/// other of `v`.
pub proof fn lemma_toggle_follows_command(
    e: EntityData,
    t1: embassy_time::Instant,
    t2: embassy_time::Instant,
    v: BinaryState,
    payload: Seq<u8>,
    number: Option<String>,
    light: Option<LightCommand>,
    after_command: EntityData,
)
    requires
        e.storage is Switch,
        spec_parse_binary_state(payload) == Some(v),
        valid_utf8(payload),
        spec_command_effect(e, after_command, payload, number, light, t1),
    ensures
        ({
            let once = spec_switch_with_state(e, spec_toggled(e.storage->Switch_0), t1);
            let twice = spec_switch_with_state(once, spec_toggled(once.storage->Switch_0), t2);
            &&& once.storage->Switch_0.command == e.storage->Switch_0.command
            &&& once.publish
            &&& twice.storage->Switch_0.state == Some(SwitchState { value: spec_toggled(e.storage->Switch_0), timestamp: t2 })
            &&& e.storage->Switch_0.command is None ==> once.storage->Switch_0.state.unwrap().value == BinaryState::On
        }),
        spec_toggled(after_command.storage->Switch_0) == v.spec_flip(),
{
}

/// The payload published for each kind of entity is the text of its stored state, and only
/// that: "ON" or "OFF" for switches and binary sensors, the stored decimal text for numeric
/// sensors and numbers (whatever command a number holds), nothing for an entity without a
/// state; a light publishes its stored state itself, whatever its command policy.
pub proof fn lemma_state_payload_values(storage: EntityStorage)
    ensures
        storage matches EntityStorage::Switch(s) ==> spec_state_payload(storage) == match s.state {
            Some(st) => Some(st.value.spec_as_str().spec_bytes()),
            None => None::<Seq<u8>>,
        },
        storage matches EntityStorage::BinarySensor(b) ==> spec_state_payload(storage) == match b.state {
            Some(st) => Some(st.value.spec_as_str().spec_bytes()),
            None => None::<Seq<u8>>,
        },
        storage matches EntityStorage::NumericSensor(n) ==> spec_state_payload(storage) == match n.state {
            Some(st) => Some(encode_utf8(st.value@)),
            None => None::<Seq<u8>>,
        },
        storage matches EntityStorage::Number(n) ==> spec_state_payload(storage) == match n.state {
            Some(st) => Some(encode_utf8(st.value@)),
            None => None::<Seq<u8>>,
        },
        storage is Light ==> spec_state_payload(storage) is None,
        storage is Button ==> spec_state_payload(storage) is None,
        storage matches EntityStorage::Light(l) ==> spec_light_payload(storage) == l.state,
        !(storage is Light) ==> spec_light_payload(storage) is None,
{
}

/// Setting a binary sensor always asks for a publish, whatever it held before, and what is
/// published next is the name of the value set.
pub proof fn lemma_binary_sensor_set_is_published(e: EntityData, value: BinaryState, now: embassy_time::Instant)
    requires
        e.storage is BinarySensor,
    ensures
        spec_binary_sensor_with_state(e, value, now).publish,
        spec_state_payload(spec_binary_sensor_with_state(e, value, now).storage)
            == Some(value.spec_as_str().spec_bytes()),
        spec_binary_sensor_with_state(e, value, now).config == e.config,
        spec_binary_sensor_with_state(e, value, now).command == e.command,
{
}

/// Setting a number always asks for a publish, whatever value or command it held before,
/// and what is published next is the text of the value set.
pub proof fn lemma_number_set_is_published(e: EntityData, value: String, now: embassy_time::Instant)
    requires
        e.storage is Number,
    ensures
        spec_number_with_state(e, value, now).publish,
        spec_state_payload(spec_number_with_state(e, value, now).storage) == Some(encode_utf8(value@)),
        spec_number_with_state(e, value, now).storage->Number_0.command == e.storage->Number_0.command,
        spec_number_with_state(e, value, now).config == e.config,
{
}

/// Setting a light asks for a publish whatever its command policy, and what is published
/// next is the state set.
pub proof fn lemma_light_set_is_published(e: EntityData, state: LightState)
    requires
        e.storage is Light,
    ensures
        spec_light_with_state(e, state).publish,
        spec_light_payload(spec_light_with_state(e, state).storage) == Some(state),
        spec_state_payload(spec_light_with_state(e, state).storage) is None,
{
}

/// A publish request is sent once: after the MQTT loop has taken it, no request is left.
pub proof fn lemma_publish_taken_once(e: EntityData)
    ensures
        !spec_publish_taken(e).publish,
        spec_publish_taken(spec_publish_taken(e)) == spec_publish_taken(e),
{
}

/// The state of a device: its configuration and its entities, in the order of creation.
pub struct DeviceState {
    config: DeviceConfig,
    entities: Vec<EntityData>,
}

impl DeviceState {
    pub closed spec fn device(&self) -> DeviceConfig {
        self.config
    }

    pub closed spec fn entities(&self) -> Seq<EntityData> {
        self.entities@
    }

    /// The device holds no more than `ENTITY_LIMIT` entities.
    pub open spec fn wf(&self) -> bool {
        self.entities().len() <= ENTITY_LIMIT
    }

    /// The entity `idx` exists and has storage of the given kind.
    pub open spec fn has_switch(&self, idx: int) -> bool {
        0 <= idx < self.entities().len() && self.entities()[idx].storage is Switch
    }

    pub open spec fn has_light(&self, idx: int) -> bool {
        0 <= idx < self.entities().len() && self.entities()[idx].storage is Light
    }

    pub open spec fn has_button(&self, idx: int) -> bool {
        0 <= idx < self.entities().len() && self.entities()[idx].storage is Button
    }

    pub open spec fn has_binary_sensor(&self, idx: int) -> bool {
        0 <= idx < self.entities().len() && self.entities()[idx].storage is BinarySensor
    }

    pub open spec fn has_number(&self, idx: int) -> bool {
        0 <= idx < self.entities().len() && self.entities()[idx].storage is Number
    }

    pub open spec fn has_numeric_sensor(&self, idx: int) -> bool {
        0 <= idx < self.entities().len() && self.entities()[idx].storage is NumericSensor
    }

    /// Every entity's command topic fits in the topic buffer.
    pub open spec fn command_topics_fit(&self) -> bool {
        forall|i: int|
            0 <= i < self.entities().len() ==> spec_topic_fits(
                #[trigger] spec_command_topic(self.device().device_id.spec_bytes(), self.entities()[i].config.id.spec_bytes()),
            )
    }

    /// A device with no entities.
    pub fn new(config: DeviceConfig) -> (d: DeviceState)
        ensures
            d.wf(),
            d.device() == config,
            d.entities() == Seq::<EntityData>::empty(),
    {
        DeviceState { config, entities: Vec::new() }
    }

    pub fn config(&self) -> (c: &DeviceConfig)
        ensures
            *c == self.device(),
    {
        &self.config
    }

    /// The number of entities.
    pub fn len(&self) -> (n: usize)
        ensures
            n == self.entities().len(),
    {
        self.entities.len()
    }

    /// Whether no further entity can be created.
    pub fn is_full(&self) -> (r: bool)
        requires
            self.wf(),
        ensures
            r == (self.entities().len() == ENTITY_LIMIT),
    {
        self.entities.len() == ENTITY_LIMIT
    }

    pub fn entity(&self, idx: usize) -> (e: &EntityData)
        requires
            idx < self.entities().len(),
        ensures
            *e == self.entities()[idx as int],
    {
        &self.entities[idx]
    }

    /// Adds an entity; its index is the number of entities before it.
    pub fn create_entity(&mut self, config: EntityConfig, storage: EntityStorage) -> (idx: usize)
        requires
            old(self).entities().len() < ENTITY_LIMIT,
        ensures
            final(self).wf(),
            final(self).device() == old(self).device(),
            idx == old(self).entities().len(),
            final(self).entities() == old(self).entities().push(spec_new_entity(config, storage)),
    {
        let idx = self.entities.len();
        self.entities.push(EntityData { config, storage, publish: false, command: false });
        idx
    }

    /// Adds a switch with the given id and configuration.
    pub fn create_switch(&mut self, id: &'static str, config: SwitchConfig) -> (idx: usize)
        requires
            old(self).entities().len() < ENTITY_LIMIT,
        ensures
            final(self).wf(),
            final(self).device() == old(self).device(),
            idx == old(self).entities().len(),
            final(self).entities() == old(self).entities().push(
                spec_new_entity(
                    config.spec_populate(EntityConfig { id, ..spec_empty_entity_config() }),
                    EntityStorage::Switch(SwitchStorage {
                        state: None,
                        command: None,
                        publish_on_command: config.publish_on_command,
                    }),
                ),
            ),
    {
        let mut entity_config = EntityConfig::default();
        entity_config.id = id;
        config.populate(&mut entity_config);
        let storage = EntityStorage::Switch(SwitchStorage {
            state: None,
            command: None,
            publish_on_command: config.publish_on_command,
        });
        self.create_entity(entity_config, storage)
    }

    /// Adds a temperature sensor with the given id and configuration.
    pub fn create_temperature_sensor(&mut self, id: &'static str, config: TemperatureSensorConfig) -> (idx: usize)
        requires
            old(self).entities().len() < ENTITY_LIMIT,
        ensures
            final(self).wf(),
            final(self).device() == old(self).device(),
            idx == old(self).entities().len(),
            final(self).entities() == old(self).entities().push(
                spec_new_entity(
                    config.spec_populate(EntityConfig { id, ..spec_empty_entity_config() }),
                    EntityStorage::NumericSensor(NumericSensorStorage { state: None }),
                ),
            ),
    {
        let mut entity_config = EntityConfig::default();
        entity_config.id = id;
        config.populate(&mut entity_config);
        self.create_entity(entity_config, EntityStorage::NumericSensor(NumericSensorStorage { state: None }))
    }

    /// Adds a light with the given id and configuration. A light whose command policy is
    /// `PublishState` takes each command as its new state.
    pub fn create_light(&mut self, id: &'static str, config: LightConfig) -> (idx: usize)
        requires
            old(self).entities().len() < ENTITY_LIMIT,
        ensures
            final(self).wf(),
            final(self).device() == old(self).device(),
            idx == old(self).entities().len(),
            final(self).entities().len() == old(self).entities().len() + 1,
            final(self).entities().take(idx as int) == old(self).entities(),
            ({
                let e = final(self).entities()[idx as int];
                &&& e.config == (EntityConfig {
                    light_color_modes: e.config.light_color_modes,
                    ..config.spec_populate(EntityConfig { id, ..spec_empty_entity_config() })
                })
                &&& e.config.light_color_modes matches Some(modes)
                &&& modes@ == spec_light_color_modes(config.rgb, config.color_temp, config.brightness)
                &&& e.storage == EntityStorage::Light(LightStorage {
                    state: None,
                    command: None,
                    publish_on_command: config.command_policy == CommandPolicy::PublishState,
                })
                &&& !e.publish
                &&& !e.command
            }),
    {
        let mut entity_config = EntityConfig::default();
        entity_config.id = id;
        config.populate(&mut entity_config);
        let publish_on_command = match config.command_policy {
            CommandPolicy::PublishState => true,
            CommandPolicy::Manual => false,
        };
        let storage = EntityStorage::Light(LightStorage { state: None, command: None, publish_on_command });
        let idx = self.create_entity(entity_config, storage);
        assert(self.entities().take(idx as int) =~= old(self).entities());
        idx
    }

    /// Asks the MQTT loop to publish the entity's state.
    pub fn queue_publish(&mut self, idx: usize)
        requires
            old(self).wf(),
            idx < old(self).entities().len(),
        ensures
            final(self).wf(),
            final(self).device() == old(self).device(),
            final(self).entities() == old(self).entities().update(
                idx as int,
                EntityData { publish: true, ..old(self).entities()[idx as int] },
            ),
    {
        self.entities[idx].publish = true;
    }

    /// Takes the entity's pending command, if one was received: reports whether there was
    /// one and leaves none pending.
    pub fn take_command(&mut self, idx: usize) -> (r: bool)
        requires
            old(self).wf(),
            idx < old(self).entities().len(),
        ensures
            final(self).wf(),
            final(self).device() == old(self).device(),
            r == old(self).entities()[idx as int].command,
            final(self).entities() == old(self).entities().update(
                idx as int,
                spec_command_taken(old(self).entities()[idx as int]),
            ),
    {
        let e = &mut self.entities[idx];
        let pending = e.command;
        e.command = false;
        pending
    }

    /// The state of a switch, if it has one.
    pub fn switch_state(&self, idx: usize) -> (r: Option<BinaryState>)
        requires
            self.has_switch(idx as int),
        ensures
            r == (match self.entities()[idx as int].storage->Switch_0.state {
                Some(st) => Some(st.value),
                None => None,
            }),
    {
        match &self.entities[idx].storage {
            EntityStorage::Switch(s) => match &s.state {
                Some(st) => Some(st.value),
                None => None,
            },
            _ => vstd::pervasive::unreached(),
        }
    }

    /// The last command that a switch received, if any.
    pub fn switch_command(&self, idx: usize) -> (r: Option<BinaryState>)
        requires
            self.has_switch(idx as int),
        ensures
            r == (match self.entities()[idx as int].storage->Switch_0.command {
                Some(c) => Some(c.value),
                None => None,
            }),
    {
        match &self.entities[idx].storage {
            EntityStorage::Switch(s) => match &s.command {
                Some(c) => Some(c.value),
                None => None,
            },
            _ => vstd::pervasive::unreached(),
        }
    }

    /// Sets a switch's state at time `now` and asks for it to be published.
    pub fn switch_set(&mut self, idx: usize, state: BinaryState, now: embassy_time::Instant)
        requires
            old(self).wf(),
            old(self).has_switch(idx as int),
        ensures
            final(self).wf(),
            final(self).device() == old(self).device(),
            final(self).entities() == old(self).entities().update(
                idx as int,
                spec_switch_with_state(old(self).entities()[idx as int], state, now),
            ),
    {
        let e = &mut self.entities[idx];
        let s = e.storage.as_switch_mut();
        s.state = Some(SwitchState { value: state, timestamp: now });
        e.publish = true;
    }

    /// Sets a switch's state, stamped with the current time, and asks for it to be published.
    pub fn switch_set_now(&mut self, idx: usize, state: BinaryState)
        requires
            old(self).wf(),
            old(self).has_switch(idx as int),
        ensures
            final(self).wf(),
            final(self).device() == old(self).device(),
            final(self).entities() == old(self).entities().update(
                idx as int,
                spec_switch_with_state(
                    old(self).entities()[idx as int],
                    state,
                    final(self).entities()[idx as int].storage->Switch_0.state.unwrap().timestamp,
                ),
            ),
    {
        let now = instant_now();
        self.switch_set(idx, state, now);
    }

    /// Flips a switch: its new state is the other of the last command it received, or "on"
    /// when it has received none. The new state is set at time `now`, asked to be published,
    /// and returned.
    pub fn switch_toggle(&mut self, idx: usize, now: embassy_time::Instant) -> (r: BinaryState)
        requires
            old(self).wf(),
            old(self).has_switch(idx as int),
        ensures
            r == spec_toggled(old(self).entities()[idx as int].storage->Switch_0),
            final(self).wf(),
            final(self).device() == old(self).device(),
            final(self).entities() == old(self).entities().update(
                idx as int,
                spec_switch_with_state(old(self).entities()[idx as int], r, now),
            ),
    {
        let current = match self.switch_command(idx) {
            Some(s) => s,
            None => BinaryState::Off,
        };
        let new_state = current.flip();
        self.switch_set(idx, new_state, now);
        new_state
    }

    /// `switch_toggle` at the current time.
    pub fn switch_toggle_now(&mut self, idx: usize) -> (r: BinaryState)
        requires
            old(self).wf(),
            old(self).has_switch(idx as int),
        ensures
            r == spec_toggled(old(self).entities()[idx as int].storage->Switch_0),
            final(self).wf(),
            final(self).device() == old(self).device(),
            final(self).entities() == old(self).entities().update(
                idx as int,
                spec_switch_with_state(
                    old(self).entities()[idx as int],
                    r,
                    final(self).entities()[idx as int].storage->Switch_0.state.unwrap().timestamp,
                ),
            ),
    {
        let now = instant_now();
        self.switch_toggle(idx, now)
    }

    /// Adds a button with the given id and configuration.
    pub fn create_button(&mut self, id: &'static str, config: ButtonConfig) -> (idx: usize)
        requires
            old(self).entities().len() < ENTITY_LIMIT,
        ensures
            final(self).wf(),
            final(self).device() == old(self).device(),
            idx == old(self).entities().len(),
            final(self).entities() == old(self).entities().push(
                spec_new_entity(
                    config.spec_populate(EntityConfig { id, ..spec_empty_entity_config() }),
                    EntityStorage::Button(ButtonStorage { timestamp: None, consumed: false }),
                ),
            ),
    {
        let mut entity_config = EntityConfig::default();
        entity_config.id = id;
        config.populate(&mut entity_config);
        self.create_entity(entity_config, EntityStorage::Button(ButtonStorage { timestamp: None, consumed: false }))
    }

    /// Adds a binary sensor with the given id and configuration.
    pub fn create_binary_sensor(&mut self, id: &'static str, config: BinarySensorConfig) -> (idx: usize)
        requires
            old(self).entities().len() < ENTITY_LIMIT,
        ensures
            final(self).wf(),
            final(self).device() == old(self).device(),
            idx == old(self).entities().len(),
            final(self).entities() == old(self).entities().push(
                spec_new_entity(
                    config.spec_populate(EntityConfig { id, ..spec_empty_entity_config() }),
                    EntityStorage::BinarySensor(BinarySensorStorage { state: None }),
                ),
            ),
    {
        let mut entity_config = EntityConfig::default();
        entity_config.id = id;
        config.populate(&mut entity_config);
        self.create_entity(entity_config, EntityStorage::BinarySensor(BinarySensorStorage { state: None }))
    }

    /// Adds a number with the given id and configuration.
    pub fn create_number(&mut self, id: &'static str, config: NumberConfig) -> (idx: usize)
        requires
            old(self).entities().len() < ENTITY_LIMIT,
        ensures
            final(self).wf(),
            final(self).device() == old(self).device(),
            idx == old(self).entities().len(),
            final(self).entities() == old(self).entities().push(
                spec_new_entity(
                    config.spec_populate(EntityConfig { id, ..spec_empty_entity_config() }),
                    EntityStorage::Number(NumberStorage {
                        state: None,
                        command: None,
                        publish_on_command: config.publish_on_command,
                    }),
                ),
            ),
    {
        let mut entity_config = EntityConfig::default();
        entity_config.id = id;
        config.populate(&mut entity_config);
        let storage = EntityStorage::Number(NumberStorage {
            state: None,
            command: None,
            publish_on_command: config.publish_on_command,
        });
        self.create_entity(entity_config, storage)
    }

    /// Takes a button press: reports whether the button holds a press that was not taken
    /// yet, and marks it taken.
    pub fn button_take_press(&mut self, idx: usize) -> (r: bool)
        requires
            old(self).wf(),
            old(self).has_button(idx as int),
        ensures
            final(self).wf(),
            final(self).device() == old(self).device(),
            r == spec_press_pending(old(self).entities()[idx as int].storage->Button_0),
            final(self).entities() == old(self).entities().update(
                idx as int,
                if r { spec_press_taken(old(self).entities()[idx as int]) } else { old(self).entities()[idx as int] },
            ),
    {
        let e = &mut self.entities[idx];
        let b = e.storage.as_button_mut();
        if b.timestamp.is_some() && !b.consumed {
            b.consumed = true;
            true
        } else {
            false
        }
    }

    /// Sets a binary sensor's state at time `now` and asks for it to be published.
    pub fn binary_sensor_set(&mut self, idx: usize, value: BinaryState, now: embassy_time::Instant)
        requires
            old(self).wf(),
            old(self).has_binary_sensor(idx as int),
        ensures
            final(self).wf(),
            final(self).device() == old(self).device(),
            final(self).entities() == old(self).entities().update(
                idx as int,
                spec_binary_sensor_with_state(old(self).entities()[idx as int], value, now),
            ),
            final(self).entities()[idx as int].publish,
            final(self).entities()[idx as int].storage == EntityStorage::BinarySensor(
                BinarySensorStorage { state: Some(BinarySensorState { value, timestamp: now }) },
            ),
            final(self).entities()[idx as int].config == old(self).entities()[idx as int].config,
            final(self).entities()[idx as int].command == old(self).entities()[idx as int].command,
    {
        let e = &mut self.entities[idx];
        let b = e.storage.as_binary_sensor_mut();
        b.state = Some(BinarySensorState { value, timestamp: now });
        e.publish = true;
    }

    /// `binary_sensor_set` at the current time.
    pub fn binary_sensor_set_now(&mut self, idx: usize, value: BinaryState)
        requires
            old(self).wf(),
            old(self).has_binary_sensor(idx as int),
        ensures
            final(self).wf(),
            final(self).device() == old(self).device(),
            final(self).entities() == old(self).entities().update(
                idx as int,
                spec_binary_sensor_with_state(
                    old(self).entities()[idx as int],
                    value,
                    final(self).entities()[idx as int].storage->BinarySensor_0.state.unwrap().timestamp,
                ),
            ),
    {
        let now = instant_now();
        self.binary_sensor_set(idx, value, now);
    }

    /// The value of a number, as decimal text, if it has one.
    pub fn number_state(&self, idx: usize) -> (r: Option<String>)
        requires
            self.has_number(idx as int),
        ensures
            r == (match self.entities()[idx as int].storage->Number_0.state {
                Some(st) => Some(st.value),
                None => None,
            }),
    {
        match &self.entities[idx].storage {
            EntityStorage::Number(n) => match &n.state {
                Some(st) => Some(st.value.clone()),
                None => None,
            },
            _ => vstd::pervasive::unreached(),
        }
    }

    /// The last value that a number received, as decimal text, if any.
    pub fn number_command(&self, idx: usize) -> (r: Option<String>)
        requires
            self.has_number(idx as int),
        ensures
            r == (match self.entities()[idx as int].storage->Number_0.command {
                Some(c) => Some(c.value),
                None => None,
            }),
    {
        match &self.entities[idx].storage {
            EntityStorage::Number(n) => match &n.command {
                Some(c) => Some(c.value.clone()),
                None => None,
            },
            _ => vstd::pervasive::unreached(),
        }
    }

    /// Sets a number's value, as decimal text, at time `now` and asks for it to be published.
    pub fn number_set(&mut self, idx: usize, value: String, now: embassy_time::Instant)
        requires
            old(self).wf(),
            old(self).has_number(idx as int),
        ensures
            final(self).wf(),
            final(self).device() == old(self).device(),
            final(self).entities() == old(self).entities().update(
                idx as int,
                spec_number_with_state(old(self).entities()[idx as int], value, now),
            ),
            final(self).entities()[idx as int].publish,
            final(self).entities()[idx as int].storage == EntityStorage::Number(NumberStorage {
                state: Some(NumberState { value, timestamp: now }),
                command: old(self).entities()[idx as int].storage->Number_0.command,
                publish_on_command: old(self).entities()[idx as int].storage->Number_0.publish_on_command,
            }),
            final(self).entities()[idx as int].config == old(self).entities()[idx as int].config,
            final(self).entities()[idx as int].command == old(self).entities()[idx as int].command,
    {
        let e = &mut self.entities[idx];
        let n = e.storage.as_number_mut();
        n.state = Some(NumberState { value, timestamp: now });
        e.publish = true;
    }

    /// `number_set` at the current time.
    pub fn number_set_now(&mut self, idx: usize, value: String)
        requires
            old(self).wf(),
            old(self).has_number(idx as int),
        ensures
            final(self).wf(),
            final(self).device() == old(self).device(),
            final(self).entities() == old(self).entities().update(
                idx as int,
                spec_number_with_state(
                    old(self).entities()[idx as int],
                    value,
                    final(self).entities()[idx as int].storage->Number_0.state.unwrap().timestamp,
                ),
            ),
    {
        let now = instant_now();
        self.number_set(idx, value, now);
    }

    /// The state of a light, if it has one.
    pub fn light_state(&self, idx: usize) -> (r: Option<LightState>)
        requires
            self.has_light(idx as int),
        ensures
            r == self.entities()[idx as int].storage->Light_0.state,
    {
        match &self.entities[idx].storage {
            EntityStorage::Light(l) => l.state,
            _ => vstd::pervasive::unreached(),
        }
    }

    /// The last command that a light received, if any.
    pub fn light_command(&self, idx: usize) -> (r: Option<LightCommand>)
        requires
            self.has_light(idx as int),
        ensures
            r == self.entities()[idx as int].storage->Light_0.command,
    {
        match &self.entities[idx].storage {
            EntityStorage::Light(l) => l.command,
            _ => vstd::pervasive::unreached(),
        }
    }

    /// Sets a light's state and asks for it to be published.
    pub fn light_set(&mut self, idx: usize, state: LightState)
        requires
            old(self).wf(),
            old(self).has_light(idx as int),
        ensures
            final(self).wf(),
            final(self).device() == old(self).device(),
            final(self).entities() == old(self).entities().update(
                idx as int,
                spec_light_with_state(old(self).entities()[idx as int], state),
            ),
    {
        let e = &mut self.entities[idx];
        let l = e.storage.as_light_mut();
        l.state = Some(state);
        e.publish = true;
    }

    /// Stores a reading of a numeric sensor, as the text to publish, taken at time `now`,
    /// and asks for it to be published.
    pub fn numeric_sensor_publish(&mut self, idx: usize, value: String, now: embassy_time::Instant)
        requires
            old(self).wf(),
            old(self).has_numeric_sensor(idx as int),
        ensures
            final(self).wf(),
            final(self).device() == old(self).device(),
            final(self).entities() == old(self).entities().update(
                idx as int,
                spec_numeric_with_state(old(self).entities()[idx as int], value, now),
            ),
    {
        let e = &mut self.entities[idx];
        let n = e.storage.as_numeric_sensor_mut();
        n.state = Some(NumericSensorState { value, timestamp: now });
        e.publish = true;
    }

    /// `numeric_sensor_publish` at the current time.
    pub fn numeric_sensor_publish_now(&mut self, idx: usize, value: String)
        requires
            old(self).wf(),
            old(self).has_numeric_sensor(idx as int),
        ensures
            final(self).wf(),
            final(self).device() == old(self).device(),
            final(self).entities() == old(self).entities().update(
                idx as int,
                spec_numeric_with_state(
                    old(self).entities()[idx as int],
                    value,
                    final(self).entities()[idx as int].storage->NumericSensor_0.state.unwrap().timestamp,
                ),
            ),
    {
        let now = instant_now();
        self.numeric_sensor_publish(idx, value, now);
    }

    /// The topic of the device's availability, if it fits in a topic buffer.
    pub fn availability_topic(&self) -> (r: Option<TopicBuffer>)
        ensures
            spec_built(r) == spec_bounded(spec_availability_topic(self.device().device_id.spec_bytes())),
    {
        availability_topic(self.config.device_id)
    }

    /// What the session does in `phase`: connect as the device with the device's
    /// availability topic and "offline" as last will; announce, then subscribe, an entity;
    /// publish "online" on the availability topic; or serve.
    pub fn session_action(&self, phase: SessionPhase) -> (a: SessionAction)
        requires
            spec_topic_fits(spec_availability_topic(self.device().device_id.spec_bytes())),
        ensures
            match phase {
                SessionPhase::Connect => a matches SessionAction::Connect { client_id, will_topic, will_payload }
                    && client_id == self.device().device_id
                    && topic_buffer_bytes(will_topic) == spec_availability_topic(self.device().device_id.spec_bytes())
                    && will_payload == constants::NOT_AVAILABLE_PAYLOAD,
                SessionPhase::Announce(i) => a matches SessionAction::PublishDiscovery(j) && j == i,
                SessionPhase::Subscribe(i) => a matches SessionAction::Subscribe(j) && j == i,
                SessionPhase::GoOnline => a matches SessionAction::PublishAvailability { topic, payload }
                    && topic_buffer_bytes(topic) == spec_availability_topic(self.device().device_id.spec_bytes())
                    && payload == constants::AVAILABLE_PAYLOAD,
                SessionPhase::Serve => a is Serve,
            },
    {
        match phase {
            SessionPhase::Connect => {
                let will_topic = match availability_topic(self.config.device_id) {
                    Some(t) => t,
                    None => vstd::pervasive::unreached(),
                };
                SessionAction::Connect {
                    client_id: self.config.device_id,
                    will_topic,
                    will_payload: constants::NOT_AVAILABLE_PAYLOAD,
                }
            },
            SessionPhase::Announce(i) => SessionAction::PublishDiscovery(i),
            SessionPhase::Subscribe(i) => SessionAction::Subscribe(i),
            SessionPhase::GoOnline => {
                let topic = match availability_topic(self.config.device_id) {
                    Some(t) => t,
                    None => vstd::pervasive::unreached(),
                };
                SessionAction::PublishAvailability { topic, payload: constants::AVAILABLE_PAYLOAD }
            },
            SessionPhase::Serve => SessionAction::Serve,
        }
    }

    /// The device as its entities announce it.
    pub fn device_discovery(&self) -> (d: DeviceDiscovery<'static>)
        ensures
            d.identifiers@ == seq![self.device().device_id],
            d.name == self.device().device_name,
            d.manufacturer == self.device().manufacturer,
            d.model == self.device().model,
    {
        DeviceDiscovery {
            identifiers: vec![self.config.device_id],
            name: self.config.device_name,
            manufacturer: self.config.manufacturer,
            model: self.config.model,
        }
    }

    /// The discovery, state and command topics of an entity, built in that order; the
    /// first that does not fit in a topic buffer is reported.
    pub fn entity_topics(&self, idx: usize) -> (r: Result<EntityTopics, TopicError>)
        requires
            idx < self.entities().len(),
        ensures
            ({
                let c = self.entities()[idx as int].config;
                let dev = self.device().device_id.spec_bytes();
                let discovery = spec_discovery_topic(c.domain.spec_bytes(), dev, c.id.spec_bytes());
                let state = spec_state_topic(dev, c.id.spec_bytes());
                let command = spec_command_topic(dev, c.id.spec_bytes());
                &&& r matches Ok(t) ==> topic_buffer_bytes(t.discovery) == discovery
                    && topic_buffer_bytes(t.state) == state && topic_buffer_bytes(t.command) == command
                &&& r is Ok <==> spec_topic_fits(discovery) && spec_topic_fits(state) && spec_topic_fits(command)
                &&& r == Err::<EntityTopics, TopicError>(TopicError::DiscoveryTopicTooLong) <==> !spec_topic_fits(discovery)
                &&& r == Err::<EntityTopics, TopicError>(TopicError::StateTopicTooLong) <==> spec_topic_fits(discovery)
                    && !spec_topic_fits(state)
                &&& r == Err::<EntityTopics, TopicError>(TopicError::CommandTopicTooLong) <==> spec_topic_fits(discovery)
                    && spec_topic_fits(state) && !spec_topic_fits(command)
            }),
    {
        let c = &self.entities[idx].config;
        let device_id = self.config.device_id;
        let discovery = match discovery_topic(c.domain, device_id, c.id) {
            Some(t) => t,
            None => return Err(TopicError::DiscoveryTopicTooLong),
        };
        let state = match state_topic(device_id, c.id) {
            Some(t) => t,
            None => return Err(TopicError::StateTopicTooLong),
        };
        let command = match command_topic(device_id, c.id) {
            Some(t) => t,
            None => return Err(TopicError::CommandTopicTooLong),
        };
        Ok(EntityTopics { discovery, state, command })
    }

    /// One pass of the MQTT loop over an entity: when the entity asked for a publish, the
    /// request is taken, and the payload of its stored state is written into a publish
    /// buffer if it has one; a light's stored state is given as it is, to be published as
    /// JSON.
    pub fn next_publish(&mut self, idx: usize) -> (r: PublishStep)
        requires
            old(self).wf(),
            idx < old(self).entities().len(),
        ensures
            final(self).wf(),
            final(self).device() == old(self).device(),
            ({
                let e = old(self).entities()[idx as int];
                if !e.publish {
                    &&& r is Idle
                    &&& final(self).entities() == old(self).entities()
                } else {
                    &&& final(self).entities() == old(self).entities().update(idx as int, spec_publish_taken(e))
                    &&& match spec_state_payload(e.storage) {
                        Some(p) => if p.len() <= PUBLISH_CAPACITY {
                            r matches PublishStep::Payload(b) && publish_buffer_bytes(b) == p
                        } else {
                            r is TooLarge
                        },
                        None => match spec_light_payload(e.storage) {
                            Some(st) => r matches PublishStep::Light(x) && x == st,
                            None => r is Unsupported,
                        },
                    }
                }
            }),
            old(self).entities()[idx as int].publish ==> !final(self).entities()[idx as int].publish,
            old(self).entities()[idx as int].publish && old(self).entities()[idx as int].storage is Light && old(self).entities()[idx as int].storage->Light_0.state is Some ==> (r matches PublishStep::Light(
                    x,
                ) && x == old(self).entities()[idx as int].storage->Light_0.state.unwrap()),
            old(self).entities()[idx as int].publish && old(self).entities()[idx as int].storage is Switch && old(self).entities()[idx as int].storage->Switch_0.state is Some ==> (r matches PublishStep::Payload(
                    b,
                ) && publish_buffer_bytes(b) == old(self).entities()[idx as int].storage->Switch_0.state.unwrap().value.spec_as_str().spec_bytes()),
            old(self).entities()[idx as int].publish && old(self).entities()[idx as int].storage is BinarySensor && old(self).entities()[idx as int].storage->BinarySensor_0.state is Some ==> (
                r matches PublishStep::Payload(b) && publish_buffer_bytes(b)
                    == old(self).entities()[idx as int].storage->BinarySensor_0.state.unwrap().value.spec_as_str().spec_bytes()),
            old(self).entities()[idx as int].publish && old(self).entities()[idx as int].storage is Number && old(self).entities()[idx as int].storage->Number_0.state is Some && encode_utf8(
                    old(self).entities()[idx as int].storage->Number_0.state.unwrap().value@,
                ).len() <= PUBLISH_CAPACITY ==> (r matches PublishStep::Payload(b) && publish_buffer_bytes(b)
                    == encode_utf8(old(self).entities()[idx as int].storage->Number_0.state.unwrap().value@)),
            old(self).entities()[idx as int].publish && old(self).entities()[idx as int].storage is NumericSensor && old(self).entities()[idx as int].storage->NumericSensor_0.state is Some && encode_utf8(
                    old(self).entities()[idx as int].storage->NumericSensor_0.state.unwrap().value@,
                ).len() <= PUBLISH_CAPACITY ==> (r matches PublishStep::Payload(b) && publish_buffer_bytes(b)
                    == encode_utf8(old(self).entities()[idx as int].storage->NumericSensor_0.state.unwrap().value@)),
    {
        proof {
            lemma_state_payload_values(old(self).entities()[idx as int].storage);
            crate::binary_state::lemma_state_payload_short(BinaryState::On);
            crate::binary_state::lemma_state_payload_short(BinaryState::Off);
        }
        let e = &mut self.entities[idx];
        if !e.publish {
            return PublishStep::Idle;
        }
        e.publish = false;
        let payload: &[u8] = match &e.storage {
            EntityStorage::Switch(SwitchStorage { state: Some(st), .. }) => st.value.as_str().as_bytes(),
            EntityStorage::BinarySensor(b) => match &b.state {
                Some(st) => st.value.as_str().as_bytes(),
                None => return PublishStep::Unsupported,
            },
            EntityStorage::NumericSensor(NumericSensorStorage { state: Some(st) }) => st.value.as_str().as_bytes(),
            EntityStorage::Number(n) => match &n.state {
                Some(st) => st.value.as_str().as_bytes(),
                None => return PublishStep::Unsupported,
            },
            EntityStorage::Light(l) => match l.state {
                Some(st) => return PublishStep::Light(st),
                None => return PublishStep::Unsupported,
            },
            _ => return PublishStep::Unsupported,
        };
        let mut buffer = PublishBuffer::empty();
        if buffer.extend_from_slice(payload) {
            PublishStep::Payload(buffer)
        } else {
            PublishStep::TooLarge
        }
    }

    /// The entity whose command topic is `topic`: the first one, in the order of creation.
    pub fn command_target(&self, topic: &str) -> (r: Option<usize>)
        requires
            self.wf(),
            self.command_topics_fit(),
        ensures
            match spec_command_target_from(self.entities(), self.device().device_id.spec_bytes(), topic.spec_bytes(), 0) {
                Some(i) => r == Some(i as usize),
                None => r is None,
            },
    {
        let n = self.entities.len();
        let mut i: usize = 0;
        while i < n
            invariant
                n == self.entities().len(),
                0 <= i <= n,
                self.command_topics_fit(),
                spec_command_target_from(self.entities(), self.device().device_id.spec_bytes(), topic.spec_bytes(), 0)
                    == spec_command_target_from(self.entities(), self.device().device_id.spec_bytes(), topic.spec_bytes(), i as int),
            decreases n - i,
        {
            let id = self.entities[i].config.id;
            assert(spec_topic_fits(spec_command_topic(self.device().device_id.spec_bytes(), self.entities()[i as int].config.id.spec_bytes())));
            let t = match command_topic(self.config.device_id, id) {
                Some(t) => t,
                None => vstd::pervasive::unreached(),
            };
            if bytes_eq(t.as_str().as_bytes(), topic.as_bytes()) {
                return Some(i);
            }
            i = i + 1;
        }
        None
    }

    /// Whether a command payload of `len` bytes is read; a longer one is ignored.
    pub fn accepts_payload_len(len: usize) -> (r: bool)
        ensures
            r == (len <= COMMAND_PAYLOAD_CAPACITY),
    {
        len <= COMMAND_PAYLOAD_CAPACITY
    }

    /// Applies a command received at time `now` for entity `idx`. `number` is the value
    /// that the payload reads as, written back as decimal text, when it reads as a number;
    /// the caller reads numbers.
    pub fn handle_command(
        &mut self,
        idx: usize,
        payload: &[u8],
        number: Option<String>,
        light: Option<LightCommand>,
        now: embassy_time::Instant,
    ) -> (r: CommandOutcome)
        requires
            old(self).wf(),
            idx < old(self).entities().len(),
        ensures
            final(self).wf(),
            final(self).device() == old(self).device(),
            final(self).entities().len() == old(self).entities().len(),
            forall|j: int|
                0 <= j < old(self).entities().len() && j != idx ==> final(self).entities()[j]
                    == old(self).entities()[j],
            r == spec_command_outcome(old(self).entities()[idx as int].storage, payload@, number, light),
            spec_command_effect(
                old(self).entities()[idx as int],
                final(self).entities()[idx as int],
                payload@,
                number,
                light,
                now,
            ),
    {
        if str_from_utf8(payload).is_none() {
            return CommandOutcome::InvalidUtf8;
        }
        let e = &mut self.entities[idx];
        let echo = match &e.storage {
            EntityStorage::Switch(s) => s.publish_on_command,
            EntityStorage::Number(n) => n.publish_on_command,
            EntityStorage::Light(l) => l.publish_on_command,
            _ => false,
        };
        match &mut e.storage {
            EntityStorage::Button(b) => {
                if !bytes_eq(payload, constants::HA_BUTTON_PAYLOAD_PRESS.as_bytes()) {
                    return CommandOutcome::UnexpectedButtonPayload;
                }
                b.consumed = false;
                b.timestamp = Some(now);
            },
            EntityStorage::Switch(s) => {
                let value = match BinaryState::parse_bytes(payload) {
                    Ok(value) => value,
                    Err(_) => return CommandOutcome::InvalidSwitchPayload,
                };
                if s.publish_on_command {
                    s.state = Some(SwitchState { value, timestamp: now });
                }
                s.command = Some(SwitchCommand { value, timestamp: now });
            },
            EntityStorage::Number(n) => {
                let value = match number {
                    Some(value) => value,
                    None => return CommandOutcome::InvalidNumber,
                };
                if n.publish_on_command {
                    n.state = Some(NumberState { value: value.clone(), timestamp: now });
                }
                n.command = Some(NumberCommand { value, timestamp: now });
            },
            EntityStorage::Light(l) => {
                let command = match light {
                    Some(command) => command,
                    None => return CommandOutcome::InvalidLightCommand,
                };
                if l.publish_on_command {
                    l.state = Some(apply_light_command(l.state, command));
                }
                l.command = Some(command);
            },
            _ => return CommandOutcome::UnsupportedEntity,
        }
        if echo {
            e.publish = true;
        }
        e.command = true;
        CommandOutcome::Applied
    }

    /// `handle_command` at the current time.
    pub fn handle_command_now(
        &mut self,
        idx: usize,
        payload: &[u8],
        number: Option<String>,
        light: Option<LightCommand>,
    ) -> (r: CommandOutcome)
        requires
            old(self).wf(),
            idx < old(self).entities().len(),
        ensures
            final(self).wf(),
            final(self).device() == old(self).device(),
            final(self).entities().len() == old(self).entities().len(),
            forall|j: int|
                0 <= j < old(self).entities().len() && j != idx ==> final(self).entities()[j]
                    == old(self).entities()[j],
            r == spec_command_outcome(old(self).entities()[idx as int].storage, payload@, number, light),
            exists|now: embassy_time::Instant|
                spec_command_effect(
                    old(self).entities()[idx as int],
                    final(self).entities()[idx as int],
                    payload@,
                    number,
                    light,
                    now,
                ),
    {
        let now = instant_now();
        self.handle_command(idx, payload, number, light, now)
    }
}

} // verus!
