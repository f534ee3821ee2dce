//! The MQTT worker: the commands it takes, the events it hands out, the
//! channel half that callers keep, and the decisions of its main loop.
//!
//! The loop itself runs outside the library, on its own thread: it awaits
//! either a command or a packet of the MQTT event loop, hands what woke it to
//! [`WorkerLoop::step`], and carries out the action that comes back.

use vstd::prelude::*;

use crate::text::bytes_to_string_lossy;
use crate::text::decodes_to;

verus! {

#[verifier::external_type_specification]
#[verifier::external_body]
#[verifier::reject_recursive_types(T)]
pub struct ExUnboundedSender<T>(tokio::sync::mpsc::UnboundedSender<T>);

#[verifier::external_type_specification]
#[verifier::external_body]
#[verifier::reject_recursive_types(T)]
pub struct ExUnboundedReceiver<T>(tokio::sync::mpsc::UnboundedReceiver<T>);

/// Commands sent into the MQTT worker.
pub enum MqttMessage {
    /// Subscribe to the topic (QoS at most once).
    Subscribe(String),
    /// Unsubscribe from the topic.
    Unsubscribe(String),
    /// Publish `payload` to `topic` (QoS at least once, not retained).
    Publish { topic: String, payload: String },
    /// Disconnect and stop the worker.
    Quit,
}

/// Events that the worker emits for every PUBLISH it receives.
pub enum MqttEvent {
    /// A message arrived on `topic`, decoded as UTF-8 with replacement.
    Incoming { topic: String, payload: String },
}

/// The delivery guarantee of an MQTT subscription or publication.
#[derive(PartialEq, Eq, Structural, Clone, Copy, Debug)]
pub enum QoS {
    AtMostOnce,
    AtLeastOnce,
    ExactlyOnce,
}

/// A request that the worker makes of its MQTT client.
pub enum ClientRequest {
    Subscribe { topic: String, qos: QoS },
    Unsubscribe { topic: String },
    Publish { topic: String, payload: String, qos: QoS, retain: bool },
    Disconnect,
}

/// What woke the worker's loop.
pub enum WorkerInput {
    /// The command channel yielded a command, or `None` once every sender
    /// is gone.
    Command(Option<MqttMessage>),
    /// The MQTT event loop delivered an incoming PUBLISH packet.
    IncomingPublish { topic: Vec<u8>, payload: Vec<u8> },
    /// The MQTT event loop delivered anything else, or an error.
    OtherEvent,
}

/// What the worker's loop does next.
pub enum WorkerAction {
    /// Make a request of the MQTT client.
    Request(ClientRequest),
    /// Hand an event to the event channel.
    Forward(MqttEvent),
    /// Nothing; wait for the next input.
    Idle,
}

/// `r` subscribes to `topic` at most once.
pub open spec fn subscribes(r: ClientRequest, topic: Seq<char>) -> bool {
    r matches ClientRequest::Subscribe { topic: t, qos } && t@ == topic && qos == QoS::AtMostOnce
}

/// The request that carries out a command, or `Disconnect` for `Quit` and
/// for a closed command channel.
pub open spec fn command_request(cmd: Option<MqttMessage>, r: ClientRequest) -> bool {
    match cmd {
        Some(MqttMessage::Subscribe(topic)) => r matches ClientRequest::Subscribe { topic: t, qos }
            && t@ == topic@ && qos == QoS::AtMostOnce,
        Some(MqttMessage::Unsubscribe(topic)) => r matches ClientRequest::Unsubscribe { topic: t }
            && t@ == topic@,
        Some(MqttMessage::Publish { topic, payload }) => r matches ClientRequest::Publish {
            topic: t,
            payload: p,
            qos,
            retain,
        } && t@ == topic@ && p@ == payload@ && qos == QoS::AtLeastOnce && !retain,
        Some(MqttMessage::Quit) | None => r is Disconnect,
    }
}

/// The event that an incoming PUBLISH with these topic and payload bytes
/// becomes.
pub open spec fn incoming_event(topic: Seq<u8>, payload: Seq<u8>, e: MqttEvent) -> bool {
    e matches MqttEvent::Incoming { topic: t, payload: p } && decodes_to(topic, t@) && decodes_to(
        payload,
        p@,
    )
}

/// The event for an incoming PUBLISH: topic and payload decoded as UTF-8,
/// invalid sequences replaced.
pub fn incoming_publish_event(topic: &[u8], payload: &[u8]) -> (e: MqttEvent)
    ensures
        incoming_event(topic@, payload@, e),
{
    MqttEvent::Incoming {
        topic: bytes_to_string_lossy(topic),
        payload: bytes_to_string_lossy(payload),
    }
}

/// Hands a command to the worker through its channel.
///
/// Calls `tokio::sync::mpsc::UnboundedSender::send`. Trusted: a failed send
/// gives back the very command it was handed (tokio's `SendError` holds it).
/// Whether the send fails depends on whether the worker still holds the
/// receiving half, which is not stated; nor is tokio's process abort when
/// the channel's message counter would overflow.
#[verifier::external_body]
pub(crate) fn send_command<T>(channel: &tokio::sync::mpsc::UnboundedSender<T>, cmd: T) -> (r: Result<
    (),
    T,
>)
    ensures
        r matches Err(back) ==> back == cmd,
{
    channel.send(cmd).map_err(|e| e.0)
}

/// The command to publish `payload` to `topic`.
pub fn publish_command(topic: String, payload: String) -> (m: MqttMessage)
    ensures
        m matches MqttMessage::Publish { topic: t, payload: p } && t@ == topic@ && p@ == payload@,
{
    MqttMessage::Publish { topic, payload }
}

/// The command to subscribe to `topic`.
pub fn subscribe_command(topic: String) -> (m: MqttMessage)
    ensures
        m matches MqttMessage::Subscribe(t) && t@ == topic@,
{
    MqttMessage::Subscribe(topic)
}

/// The command to unsubscribe from `topic`.
pub fn unsubscribe_command(topic: String) -> (m: MqttMessage)
    ensures
        m matches MqttMessage::Unsubscribe(t) && t@ == topic@,
{
    MqttMessage::Unsubscribe(topic)
}

/// The caller's side of a running worker: the command channel, and the
/// event receiver until someone takes it.
pub struct MqttWorker {
    /// Commands (publish, subscribe, ...) go here.
    pub channel: tokio::sync::mpsc::UnboundedSender<MqttMessage>,
    /// The receiver of incoming events, handed out once.
    pub events: Option<tokio::sync::mpsc::UnboundedReceiver<MqttEvent>>,
}

impl MqttWorker {
    /// Asks the worker to publish `payload` to `topic` (QoS at least once,
    /// not retained). A worker that has stopped hands the command back.
    pub fn publish(&self, topic: String, payload: String) -> (r: Result<(), MqttMessage>)
        ensures
            r matches Err(back) ==> back matches MqttMessage::Publish { topic: t, payload: p } && t@
                == topic@ && p@ == payload@,
    {
        send_command(&self.channel, publish_command(topic, payload))
    }

    /// Asks the worker to subscribe to `topic` (QoS at most once).
    pub fn subscribe(&self, topic: String) -> (r: Result<(), MqttMessage>)
        ensures
            r matches Err(back) ==> back matches MqttMessage::Subscribe(t) && t@ == topic@,
    {
        send_command(&self.channel, subscribe_command(topic))
    }

    /// Asks the worker to unsubscribe from `topic`.
    pub fn unsubscribe(&self, topic: String) -> (r: Result<(), MqttMessage>)
        ensures
            r matches Err(back) ==> back matches MqttMessage::Unsubscribe(t) && t@ == topic@,
    {
        send_command(&self.channel, unsubscribe_command(topic))
    }

    /// Asks the worker to disconnect and stop.
    pub fn send_quit(&self) -> (r: Result<(), MqttMessage>)
        ensures
            r matches Err(back) ==> back is Quit,
    {
        send_command(&self.channel, MqttMessage::Quit)
    }

    /// Takes the receiver of incoming events; every later call gets `None`.
    pub fn take_event_receiver(&mut self) -> (r: Option<tokio::sync::mpsc::UnboundedReceiver<MqttEvent>>)
        ensures
            r == old(self).events,
            final(self).events is None,
            final(self).channel == old(self).channel,
    {
        self.events.take()
    }
}

/// The decision state of the worker's loop: whether it still runs.
pub struct WorkerLoop {
    pub running: bool,
}

impl WorkerLoop {
    /// A loop that has not stopped yet.
    pub fn new() -> (w: WorkerLoop)
        ensures
            w.running,
    {
        WorkerLoop { running: true }
    }

    /// The subscriptions made before the loop starts: one per initial topic,
    /// in order, each at most once.
    pub fn initial_requests(initial_subs: &Vec<String>) -> (reqs: Vec<ClientRequest>)
        ensures
            reqs.len() == initial_subs.len(),
            forall|i: int|
                0 <= i < reqs.len() ==> subscribes(#[trigger] reqs[i], initial_subs[i]@),
    {
        let mut reqs: Vec<ClientRequest> = Vec::new();
        let mut i: usize = 0;
        while i < initial_subs.len()
            invariant
                i <= initial_subs.len(),
                reqs.len() == i,
                forall|j: int|
                    0 <= j < i ==> subscribes(#[trigger] reqs[j], initial_subs[j]@),
            decreases initial_subs.len() - i,
        {
            reqs.push(ClientRequest::Subscribe { topic: initial_subs[i].clone(), qos: QoS::AtMostOnce });
            i = i + 1;
        }
        reqs
    }

    /// One turn of the loop. A running loop carries out a command by the
    /// matching client request, stops with a disconnect on `Quit` or a
    /// closed command channel, forwards each incoming PUBLISH as an event and
    /// ignores every other event. A stopped loop does nothing.
    pub fn step(&mut self, input: WorkerInput) -> (action: WorkerAction)
        ensures
            !old(self).running ==> !final(self).running && action is Idle,
            old(self).running ==> match input {
                WorkerInput::Command(cmd) => {
                    &&& action matches WorkerAction::Request(r) && command_request(cmd, r)
                    &&& final(self).running == !(cmd is None || cmd == Some(MqttMessage::Quit))
                },
                WorkerInput::IncomingPublish { topic, payload } => {
                    &&& action matches WorkerAction::Forward(e) && incoming_event(topic@, payload@, e)
                    &&& final(self).running
                },
                WorkerInput::OtherEvent => action is Idle && final(self).running,
            },
    {
        if !self.running {
            return WorkerAction::Idle;
        }
        match input {
            WorkerInput::Command(cmd) => match cmd {
                Some(MqttMessage::Subscribe(topic)) => WorkerAction::Request(
                    ClientRequest::Subscribe { topic, qos: QoS::AtMostOnce },
                ),
                Some(MqttMessage::Unsubscribe(topic)) => WorkerAction::Request(
                    ClientRequest::Unsubscribe { topic },
                ),
                Some(MqttMessage::Publish { topic, payload }) => WorkerAction::Request(
                    ClientRequest::Publish { topic, payload, qos: QoS::AtLeastOnce, retain: false },
                ),
                Some(MqttMessage::Quit) | None => {
                    self.running = false;
                    WorkerAction::Request(ClientRequest::Disconnect)
                },
            },
            WorkerInput::IncomingPublish { topic, payload } => WorkerAction::Forward(
                incoming_publish_event(topic.as_slice(), payload.as_slice()),
            ),
            WorkerInput::OtherEvent => WorkerAction::Idle,
        }
    }
}

} // verus!
