//! The order of the device's MQTT session: connect, announce and subscribe each entity in
//! turn, go online, then serve. Each step either succeeds, and the session moves on, or
//! fails, and the session ends with the error of that step.

use vstd::prelude::*;

use crate::buffer::TopicBuffer;
use crate::Error;

verus! {

pub const CONNECT_FAILED: &'static str = "mqtt connection failed";
pub const DISCOVERY_PUBLISH_FAILED: &'static str = "mqtt discovery publish failed";
pub const SUBSCRIBE_FAILED: &'static str = "mqtt subscription to entity command topic failed";
pub const AVAILABILITY_PUBLISH_FAILED: &'static str = "mqtt availability publish failed";
pub const STATE_PUBLISH_FAILED: &'static str = "mqtt publish failed";
pub const RECEIVE_FAILED: &'static str = "mqtt receive failed";
pub const RECEIVE_DATA_FAILED: &'static str = "mqtt receive data failed";

/// Where the session stands.
#[derive(Debug, Clone, Copy, PartialEq, Eq, Structural)]
pub enum SessionPhase {
    /// Connecting to the broker, with the device's last will.
    Connect,
    /// Publishing the discovery record of the entity at this index.
    Announce(usize),
    /// Subscribing to the command topic of the entity at this index.
    Subscribe(usize),
    /// Publishing that the device is available.
    GoOnline,
    /// Publishing states and receiving commands.
    Serve,
}

/// What the session does in a phase.
#[derive(Debug)]
pub enum SessionAction {
    /// Connect to the broker as `client_id`, leaving the last will `will_payload` on
    /// `will_topic`.
    Connect { client_id: &'static str, will_topic: TopicBuffer, will_payload: &'static str },
    /// Publish the discovery record of the entity at this index, and keep its topics.
    PublishDiscovery(usize),
    /// Subscribe to the command topic of the entity at this index.
    Subscribe(usize),
    /// Publish `payload` on the availability topic `topic`.
    PublishAvailability { topic: TopicBuffer, payload: &'static str },
    /// Publish states and receive commands.
    Serve,
}

/// A step of serving that can fail.
#[derive(Debug, Clone, Copy, PartialEq, Eq, Structural)]
pub enum ServeStep {
    PublishState,
    Receive,
    ReceiveData,
}

/// The phase that follows a successful step in `phase`, for a device of `count` entities.
pub open spec fn spec_next_phase(phase: SessionPhase, count: nat) -> SessionPhase {
    match phase {
        SessionPhase::Connect => if count > 0 {
            SessionPhase::Announce(0)
        } else {
            SessionPhase::GoOnline
        },
        SessionPhase::Announce(i) => SessionPhase::Subscribe(i),
        SessionPhase::Subscribe(i) => if i + 1 < count {
            SessionPhase::Announce((i + 1) as usize)
        } else {
            SessionPhase::GoOnline
        },
        SessionPhase::GoOnline => SessionPhase::Serve,
        SessionPhase::Serve => SessionPhase::Serve,
    }
}

/// The message of the error that ends the session when the step in `phase` fails.
pub open spec fn spec_phase_failure(phase: SessionPhase) -> &'static str {
    match phase {
        SessionPhase::Connect => CONNECT_FAILED,
        SessionPhase::Announce(_) => DISCOVERY_PUBLISH_FAILED,
        SessionPhase::Subscribe(_) => SUBSCRIBE_FAILED,
        SessionPhase::GoOnline => AVAILABILITY_PUBLISH_FAILED,
        SessionPhase::Serve => STATE_PUBLISH_FAILED,
    }
}

/// The phase after `n` successful steps from `phase`.
pub open spec fn spec_phase_after(phase: SessionPhase, count: nat, n: nat) -> SessionPhase
    decreases n,
{
    if n == 0 {
        phase
    } else {
        spec_phase_after(spec_next_phase(phase, count), count, (n - 1) as nat)
    }
}

/// The session's next phase after the step in `phase`, or the error that ends it.
pub fn advance(phase: SessionPhase, count: usize, succeeded: bool) -> (r: Result<SessionPhase, Error>)
    requires
        phase matches SessionPhase::Subscribe(i) ==> i < count,
    ensures
        succeeded ==> r == Ok::<SessionPhase, Error>(spec_next_phase(phase, count as nat)),
        !succeeded ==> (r matches Err(e) && e.message_spec() == spec_phase_failure(phase)),
{
    if !succeeded {
        let message = match phase {
            SessionPhase::Connect => CONNECT_FAILED,
            SessionPhase::Announce(_) => DISCOVERY_PUBLISH_FAILED,
            SessionPhase::Subscribe(_) => SUBSCRIBE_FAILED,
            SessionPhase::GoOnline => AVAILABILITY_PUBLISH_FAILED,
            SessionPhase::Serve => STATE_PUBLISH_FAILED,
        };
        return Err(Error::new(message));
    }
    let next = match phase {
        SessionPhase::Connect => if count > 0 {
            SessionPhase::Announce(0)
        } else {
            SessionPhase::GoOnline
        },
        SessionPhase::Announce(i) => SessionPhase::Subscribe(i),
        SessionPhase::Subscribe(i) => if i + 1 < count {
            SessionPhase::Announce(i + 1)
        } else {
            SessionPhase::GoOnline
        },
        SessionPhase::GoOnline => SessionPhase::Serve,
        SessionPhase::Serve => SessionPhase::Serve,
    };
    Ok(next)
}

/// The error that ends the session when a step of serving fails.
pub fn serve_failure(step: ServeStep) -> (e: Error)
    ensures
        e.message_spec() == match step {
            ServeStep::PublishState => STATE_PUBLISH_FAILED,
            ServeStep::Receive => RECEIVE_FAILED,
            ServeStep::ReceiveData => RECEIVE_DATA_FAILED,
        },
{
    match step {
        ServeStep::PublishState => Error::new(STATE_PUBLISH_FAILED),
        ServeStep::Receive => Error::new(RECEIVE_FAILED),
        ServeStep::ReceiveData => Error::new(RECEIVE_DATA_FAILED),
    }
}

/// One more successful step is one more move from the phase reached so far.
proof fn lemma_after_succ(phase: SessionPhase, count: nat, n: nat)
    ensures
        spec_phase_after(phase, count, n + 1) == spec_next_phase(spec_phase_after(phase, count, n), count),
    decreases n,
{
    reveal_with_fuel(spec_phase_after, 2);
    if n > 0 {
        lemma_after_succ(spec_next_phase(phase, count), count, (n - 1) as nat);
    }
}

proof fn lemma_announce_then_subscribe(count: nat, i: nat)
    requires
        i < count <= usize::MAX,
    ensures
        spec_phase_after(SessionPhase::Connect, count, 2 * i + 1) == SessionPhase::Announce(i as usize),
        spec_phase_after(SessionPhase::Connect, count, 2 * i + 2) == SessionPhase::Subscribe(i as usize),
    decreases i,
{
    if i == 0 {
        lemma_after_succ(SessionPhase::Connect, count, 0);
        lemma_after_succ(SessionPhase::Connect, count, 1);
    } else {
        lemma_announce_then_subscribe(count, (i - 1) as nat);
        lemma_after_succ(SessionPhase::Connect, count, (2 * (i - 1) + 2) as nat);
        lemma_after_succ(SessionPhase::Connect, count, 2 * i + 1);
    }
}

/// When every step succeeds, the session announces and then subscribes each entity in
/// order of creation, goes online after the last, and then serves: the entity at index `i`
/// is announced after `2i + 1` steps and subscribed after `2i + 2`; the device goes online
/// after `2 * count + 1` steps and serves after `2 * count + 2`.
pub proof fn lemma_session_order(count: nat, i: nat)
    requires
        count <= usize::MAX,
    ensures
        i < count ==> spec_phase_after(SessionPhase::Connect, count, 2 * i + 1) == SessionPhase::Announce(i as usize),
        i < count ==> spec_phase_after(SessionPhase::Connect, count, 2 * i + 2) == SessionPhase::Subscribe(i as usize),
        spec_phase_after(SessionPhase::Connect, count, 2 * count + 1) == SessionPhase::GoOnline,
        spec_phase_after(SessionPhase::Connect, count, 2 * count + 2) == SessionPhase::Serve,
{
    if i < count {
        lemma_announce_then_subscribe(count, i);
    }
    if count == 0 {
        lemma_after_succ(SessionPhase::Connect, count, 0);
    } else {
        lemma_announce_then_subscribe(count, (count - 1) as nat);
        lemma_after_succ(SessionPhase::Connect, count, (2 * (count - 1) + 2) as nat);
    }
    lemma_after_succ(SessionPhase::Connect, count, 2 * count + 1);
}

} // verus!
