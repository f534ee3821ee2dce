use modu_tool::helpers::convert::split_chars;
use modu_tool::helpers::json::SchindlerTestData;
use modu_tool::helpers::mqtt::MqttMessage;
use modu_tool::pages::schindler_page::{
    command_hex_message, command_message, command_number_message, console_line,
    keypad_enter_message, push_console_output, record_incoming, ConsoleOutput, MAX_ITEMS,
};

fn data(time: &str, message: &str) -> SchindlerTestData {
    SchindlerTestData { time: time.to_string(), level: "INFO".to_string(), message: message.to_string() }
}

fn line(i: usize) -> ConsoleOutput {
    ConsoleOutput { time: format!("t{}", i), message: format!("m{}", i) }
}

fn publish_parts(m: MqttMessage) -> (String, String) {
    match m {
        MqttMessage::Publish { topic, payload } => (topic, payload),
        _ => panic!("not a publish command"),
    }
}

#[test]
fn console_time_is_clock_part() {
    assert_eq!(data("2024-05-01 08:15:00", "x").console_time(), "08:15:00");
    assert_eq!(data("08:15:00", "x").console_time(), "08:15:00");
    assert_eq!(data("", "x").console_time(), "");
    assert_eq!(data("d t extra", "x").console_time(), "t");
}

#[test]
fn console_line_from_record() {
    let l = console_line(&data("2024-05-01 08:15:00", "door open"));
    assert_eq!(l.time, "08:15:00");
    assert_eq!(l.message, "door open");
}

#[test]
fn console_keeps_everything_below_the_limit() {
    let mut items: Vec<ConsoleOutput> = Vec::new();
    for i in 0..10 {
        push_console_output(&mut items, line(i));
    }
    assert_eq!(items.len(), 10);
    assert_eq!(items[0].time, "t0");
    assert_eq!(items[9].message, "m9");
}

#[test]
fn console_drops_oldest_beyond_limit() {
    let mut items: Vec<ConsoleOutput> = Vec::new();
    for i in 0..MAX_ITEMS + 5 {
        push_console_output(&mut items, line(i));
    }
    assert_eq!(MAX_ITEMS, 300);
    assert_eq!(items.len(), MAX_ITEMS);
    assert_eq!(items[0].time, "t5");
    assert_eq!(items[MAX_ITEMS - 1].time, format!("t{}", MAX_ITEMS + 4));
}

#[test]
fn console_trims_an_oversized_log_at_once() {
    let mut items: Vec<ConsoleOutput> = (0..400).map(line).collect();
    push_console_output(&mut items, line(400));
    assert_eq!(items.len(), 300);
    assert_eq!(items[0].time, "t101");
    assert_eq!(items[299].time, "t400");
}

#[test]
fn record_incoming_appends_console_line() {
    let mut items: Vec<ConsoleOutput> = vec![line(0)];
    record_incoming(&mut items, &data("2024-05-01 09:00:01", "ready"));
    assert_eq!(items.len(), 2);
    assert_eq!(items[1].time, "09:00:01");
    assert_eq!(items[1].message, "ready");
}

#[test]
fn keypad_and_command_messages() {
    assert_eq!(
        publish_parts(keypad_enter_message("1234".to_string())),
        ("c/sch/input".to_string(), "1234".to_string())
    );
    assert_eq!(publish_parts(command_message("RST".to_string())), ("c".to_string(), "RST".to_string()));
}

#[test]
fn command_number_message_appends_decimal() {
    assert_eq!(
        publish_parts(command_number_message("FLR".to_string(), 12)),
        ("test/sch/input".to_string(), "FLR12".to_string())
    );
    assert_eq!(publish_parts(command_number_message("D".to_string(), -3)).1, "D-3");
}

#[test]
fn command_hex_message_appends_upper_hex() {
    assert_eq!(
        publish_parts(command_hex_message("MEM".to_string(), 255)),
        ("test/sch/input".to_string(), "MEMFF".to_string())
    );
    assert_eq!(publish_parts(command_hex_message("X".to_string(), -1)).1, "XFFFFFFFF");
    assert_eq!(publish_parts(command_hex_message("".to_string(), 0)).1, "0");
}

#[test]
fn split_chars_one_per_character() {
    assert_eq!(split_chars("aé1"), vec!["a".to_string(), "é".to_string(), "1".to_string()]);
    assert!(split_chars("").is_empty());
}
