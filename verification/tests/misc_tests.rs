use modu_tool::comport::{is_quit_line, ReadLoop, ReadOutcome};
use modu_tool::helpers::mqtt::{ClientRequest, QoS};
use modu_tool::mqtt::{
    client_subscriptions, on_command, on_incoming_publish, publish_command, startup_request,
    CommandOutcome,
    MqttEvent, MqttMessage, MqttWorker,
};
use modu_tool::settings::{console_text_style, Settings};
use tokio::sync::mpsc::unbounded_channel;

#[test]
fn startup_announcement() {
    match startup_request() {
        ClientRequest::Publish { topic, payload, qos, retain } => {
            assert_eq!(topic, "test/ui");
            assert_eq!(payload, "1");
            assert_eq!(qos, QoS::ExactlyOnce);
            assert!(!retain);
        }
        _ => panic!("expected a publish"),
    }
}

#[test]
fn event_task_subscriptions() {
    let reqs = client_subscriptions();
    assert_eq!(reqs.len(), 2);
    assert!(matches!(&reqs[0], ClientRequest::Subscribe { topic, qos: QoS::AtMostOnce } if topic == "test/ui"));
    assert!(matches!(&reqs[1], ClientRequest::Subscribe { topic, qos: QoS::AtMostOnce } if topic == "test/sch/input"));
}

#[test]
fn command_task_outcomes() {
    let out = on_command(Some(MqttMessage::Publish { topic: "a".to_string(), payload: "b".to_string() }));
    assert!(matches!(out, CommandOutcome::Request(ClientRequest::Publish { ref topic, ref payload, qos: QoS::AtLeastOnce, retain: false }) if topic == "a" && payload == "b"));
    assert!(matches!(on_command(Some(MqttMessage::Quit)), CommandOutcome::Stop));
    assert!(matches!(on_command(None), CommandOutcome::Wait));
}

#[test]
fn incoming_publish_event_task() {
    match on_incoming_publish(b"test/sch/output", &[b'o', 0xff, b'k']) {
        Some(MqttEvent::Incoming { topic, payload }) => {
            assert_eq!(topic, "test/sch/output");
            assert_eq!(payload, "o\u{FFFD}k");
        }
        None => panic!("expected an event"),
    }
    assert!(on_incoming_publish(b"test/sch/input", b"{\"x\":1}").is_none());
    assert!(on_incoming_publish(b"test/ui", b"1").is_none());
    assert!(on_incoming_publish(b"test/sch/output/x", b"1").is_none());
}

#[test]
fn first_worker_publish_command() {
    assert!(matches!(publish_command("a".to_string(), "b".to_string()),
        MqttMessage::Publish { ref topic, ref payload } if topic == "a" && payload == "b"));
}

#[test]
fn first_worker_handle() {
    let (tx, mut rx) = unbounded_channel();
    let mut worker = MqttWorker { channel: tx, events: None };
    assert!(worker.publish("t".to_string(), "p".to_string()).is_ok());
    assert!(worker.send_quit().is_ok());
    assert!(matches!(rx.try_recv(), Ok(MqttMessage::Publish { .. })));
    assert!(matches!(rx.try_recv(), Ok(MqttMessage::Quit)));
    assert!(worker.take_events().is_none());
    drop(rx);
    assert!(matches!(worker.send_quit(), Err(MqttMessage::Quit)));
}

#[test]
fn quit_line_detection() {
    assert!(is_quit_line(b"quit\n"));
    assert!(!is_quit_line(b"quit"));
    assert!(!is_quit_line(b"quit\n\n"));
    assert!(!is_quit_line(b"Quit\n"));
}

#[test]
fn read_loop_keeps_last_chunk() {
    let mut r = ReadLoop::new();
    r.step(ReadOutcome::Read(b"abc".to_vec()));
    assert_eq!(r.output, "abc");
    assert!(!r.done);
    r.step(ReadOutcome::Read(vec![]));
    r.step(ReadOutcome::TimedOut);
    assert_eq!(r.output, "abc");
    assert!(!r.done);
    r.step(ReadOutcome::Read(vec![0xc3, 0x28]));
    assert_eq!(r.output, "\u{FFFD}(");
    r.step(ReadOutcome::Read(b"quit\n".to_vec()));
    assert!(r.done);
    assert_eq!(r.output, "quit\n");
    r.step(ReadOutcome::Read(b"more".to_vec()));
    assert_eq!(r.output, "quit\n");
}

#[test]
fn read_loop_ends_on_failure() {
    let mut r = ReadLoop::new();
    r.step(ReadOutcome::Read(b"x".to_vec()));
    r.step(ReadOutcome::Failed);
    assert!(r.done);
    assert_eq!(r.output, "x");
}

#[test]
fn console_settings() {
    let s = Settings::console(12, 14);
    let t = s.get("consoleTimeText").unwrap();
    assert_eq!(t.font_family, "Roboto");
    assert_eq!(t.font_size, 12);
    assert_eq!(t.font_weight, 400);
    assert_eq!(t.font_color, "#ffffff");
    assert!(!t.font_italic);
    assert_eq!(s.get("consoleMainText").unwrap().font_size, 14);
    assert!(s.get("other").is_none());
}

#[test]
fn settings_lookup_finds_each_key() {
    let s = Settings {
        text: vec![
            ("a".to_string(), console_text_style(1)),
            ("b".to_string(), console_text_style(2)),
            ("c".to_string(), console_text_style(3)),
        ],
    };
    assert_eq!(s.get("a").unwrap().font_size, 1);
    assert_eq!(s.get("b").unwrap().font_size, 2);
    assert_eq!(s.get("c").unwrap().font_size, 3);
    assert!(s.get("d").is_none());
}
