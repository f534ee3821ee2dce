//! The first MQTT worker of the console: it announces itself on `test/ui`,
//! listens on `test/ui` and `test/sch/input`, publishes what the window asks
//! for and hands the messages on `test/sch/output` to the window.
//!
//! The worker's two tasks run outside the library; these are their
//! decisions.

use vstd::prelude::*;

use crate::helpers::mqtt::{send_command, ClientRequest, QoS};
use crate::text::{bytes_to_string_lossy, decodes_to, lossy_utf8};

verus! {

/// Commands sent into the worker.
pub enum MqttMessage {
    /// Stop the worker.
    Quit,
    /// Publish `payload` to `topic`.
    Publish { topic: String, payload: String },
}

/// Events that the worker emits.
pub enum MqttEvent {
    /// A message arrived on `topic`, decoded as UTF-8 with replacement.
    Incoming { topic: String, payload: String },
}

/// What the command task does with what its channel yielded.
pub enum CommandOutcome {
    /// Make this request of the MQTT client and wait for the next command.
    Request(ClientRequest),
    /// Stop the event task and leave the loop.
    Stop,
    /// Nothing to do; wait again.
    Wait,
}

/// The announcement made when the worker starts: `"1"` on `test/ui`,
/// exactly once, not retained.
pub fn startup_request() -> (r: ClientRequest)
    ensures
        r matches ClientRequest::Publish { topic, payload, qos, retain } && topic@ == "test/ui"@
            && payload@ == "1"@ && qos == QoS::ExactlyOnce && !retain,
{
    ClientRequest::Publish {
        topic: "test/ui".to_string(),
        payload: "1".to_string(),
        qos: QoS::ExactlyOnce,
        retain: false,
    }
}

/// The subscriptions of the event task: `test/ui`, then `test/sch/input`,
/// each at most once.
pub fn client_subscriptions() -> (reqs: Vec<ClientRequest>)
    ensures
        reqs.len() == 2,
        crate::helpers::mqtt::subscribes(reqs[0], "test/ui"@),
        crate::helpers::mqtt::subscribes(reqs[1], "test/sch/input"@),
{
    let mut reqs: Vec<ClientRequest> = Vec::new();
    reqs.push(ClientRequest::Subscribe { topic: "test/ui".to_string(), qos: QoS::AtMostOnce });
    reqs.push(ClientRequest::Subscribe { topic: "test/sch/input".to_string(), qos: QoS::AtMostOnce });
    reqs
}

/// What the command task does: publish at least once, not retained, for
/// `Publish`; stop for `Quit`; wait again when the channel yields nothing.
pub fn on_command(cmd: Option<MqttMessage>) -> (out: CommandOutcome)
    ensures
        match cmd {
            Some(MqttMessage::Publish { topic, payload }) => out matches CommandOutcome::Request(r)
                && (r matches ClientRequest::Publish { topic: t, payload: p, qos, retain } && t@
                == topic@ && p@ == payload@ && qos == QoS::AtLeastOnce && !retain),
            Some(MqttMessage::Quit) => out is Stop,
            None => out is Wait,
        },
{
    match cmd {
        Some(MqttMessage::Publish { topic, payload }) => CommandOutcome::Request(
            ClientRequest::Publish { topic, payload, qos: QoS::AtLeastOnce, retain: false },
        ),
        Some(MqttMessage::Quit) => CommandOutcome::Stop,
        None => CommandOutcome::Wait,
    }
}

/// The topic whose messages reach the window.
pub open spec fn output_topic() -> Seq<char> {
    "test/sch/output"@
}

/// What the event task makes of an incoming PUBLISH: an event for the
/// window, with topic and payload decoded as UTF-8 (invalid sequences
/// replaced), when it came on `test/sch/output`; nothing for any other
/// topic.
pub fn on_incoming_publish(topic: &[u8], payload: &[u8]) -> (e: Option<MqttEvent>)
    ensures
        lossy_utf8(topic@) == output_topic() ==> (e matches Some(
            MqttEvent::Incoming { topic: t, payload: p },
        ) && decodes_to(topic@, t@) && decodes_to(payload@, p@)),
        lossy_utf8(topic@) != output_topic() ==> e is None,
{
    let t = bytes_to_string_lossy(topic);
    let wanted = "test/sch/output".to_string();
    if t == wanted {
        Some(MqttEvent::Incoming { topic: t, payload: bytes_to_string_lossy(payload) })
    } else {
        None
    }
}

/// The command to publish `payload` to `topic`.
pub fn publish_command(topic: String, payload: String) -> (m: MqttMessage)
    ensures
        m matches MqttMessage::Publish { topic: t, payload: p } && t@ == topic@ && p@ == payload@,
{
    MqttMessage::Publish { topic, payload }
}

/// The caller's side of the worker: the command channel, and the event
/// receiver until someone takes it.
pub struct MqttWorker {
    pub channel: tokio::sync::mpsc::UnboundedSender<MqttMessage>,
    pub events: Option<tokio::sync::mpsc::UnboundedReceiver<MqttEvent>>,
}

impl MqttWorker {
    /// Asks the worker to publish `payload` to `topic`. A worker that has
    /// stopped hands the command back.
    pub fn publish(&self, topic: String, payload: String) -> (r: Result<(), MqttMessage>)
        ensures
            r matches Err(back) ==> back matches MqttMessage::Publish { topic: t, payload: p } && t@
                == topic@ && p@ == payload@,
    {
        send_command(&self.channel, publish_command(topic, payload))
    }

    /// Asks the worker to stop.
    pub fn send_quit(&self) -> (r: Result<(), MqttMessage>)
        ensures
            r matches Err(back) ==> back is Quit,
    {
        send_command(&self.channel, MqttMessage::Quit)
    }

    /// Takes the receiver of incoming events; every later call gets `None`.
    pub fn take_events(&mut self) -> (r: Option<tokio::sync::mpsc::UnboundedReceiver<MqttEvent>>)
        ensures
            r == old(self).events,
            final(self).events is None,
            final(self).channel == old(self).channel,
    {
        self.events.take()
    }
}

} // verus!
