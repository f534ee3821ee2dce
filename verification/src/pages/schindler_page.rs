//! The Schindler page: a console of the rig's messages, and the commands
//! that its keypad and buttons publish.

use vstd::prelude::*;

use crate::helpers::json::{console_time_of, SchindlerTestData};
use crate::helpers::mqtt::MqttMessage;
use crate::text::{decimal_i32, push_decimal_i32, push_upper_hex_i32, upper_hex_i32};

verus! {

/// The most lines that the console keeps.
pub const MAX_ITEMS: usize = 300;

/// One line of the console.
pub struct ConsoleOutput {
    pub time: String,
    pub message: String,
}

/// The lines a console keeps of `lines`: the last `MAX_ITEMS` of them.
pub open spec fn keep_latest(lines: Seq<ConsoleOutput>) -> Seq<ConsoleOutput> {
    if lines.len() > MAX_ITEMS {
        lines.subrange(lines.len() - MAX_ITEMS, lines.len() as int)
    } else {
        lines
    }
}

/// The console keeps at most `MAX_ITEMS` lines; the line just added is the
/// last one; what it keeps is the newest part of what it had plus the new
/// line, in order; and while it holds fewer than `MAX_ITEMS` lines it drops
/// nothing.
pub proof fn lemma_console_keeps_latest(lines: Seq<ConsoleOutput>, line: ConsoleOutput)
    ensures
        keep_latest(lines.push(line)).len() <= MAX_ITEMS,
        keep_latest(lines.push(line)).last() == line,
        keep_latest(lines.push(line)) =~= lines.push(line).skip(
            lines.push(line).len() - keep_latest(lines.push(line)).len(),
        ),
        lines.len() < MAX_ITEMS ==> keep_latest(lines.push(line)) == lines.push(line),
        lines.len() >= MAX_ITEMS ==> keep_latest(lines.push(line)).len() == MAX_ITEMS,
{
    let all = lines.push(line);
    if all.len() <= MAX_ITEMS {
        assert(all.skip(0) =~= all);
    }
}

/// Appends a line to the console, dropping the oldest lines beyond
/// `MAX_ITEMS`.
pub fn push_console_output(items: &mut Vec<ConsoleOutput>, line: ConsoleOutput)
    ensures
        final(items)@ == keep_latest(old(items)@.push(line)),
{
    items.push(line);
    let len = items.len();
    if len > MAX_ITEMS {
        let kept = items.split_off(len - MAX_ITEMS);
        *items = kept;
    }
}

/// The console line for a record of the rig: its clock time and its
/// message.
pub fn console_line(data: &SchindlerTestData) -> (line: ConsoleOutput)
    ensures
        line.time@ == console_time_of(data.time@),
        line.message@ == data.message@,
{
    ConsoleOutput { time: data.console_time(), message: data.message.clone() }
}

/// Shows a record of the rig on the console.
pub fn record_incoming(items: &mut Vec<ConsoleOutput>, data: &SchindlerTestData)
    ensures
        final(items)@.len() > 0,
        final(items)@ == keep_latest(old(items)@.push(final(items)@.last())),
        final(items)@.last().time@ == console_time_of(data.time@),
        final(items)@.last().message@ == data.message@,
{
    let line = console_line(data);
    let ghost pushed = old(items)@.push(line);
    push_console_output(items, line);
    assert(pushed.last() == line);
    assert(final(items)@.last() == line);
}

/// The keypad's ENTER: the keypad value, on `c/sch/input`.
pub fn keypad_enter_message(keypad_value: String) -> (m: MqttMessage)
    ensures
        m matches MqttMessage::Publish { topic, payload } && topic@ == "c/sch/input"@ && payload@
            == keypad_value@,
{
    MqttMessage::Publish { topic: "c/sch/input".to_string(), payload: keypad_value }
}

/// A command button: the command, on `c`.
pub fn command_message(command: String) -> (m: MqttMessage)
    ensures
        m matches MqttMessage::Publish { topic, payload } && topic@ == "c"@ && payload@ == command@,
{
    MqttMessage::Publish { topic: "c".to_string(), payload: command }
}

/// A command with a number: the command followed by the number in decimal,
/// on `test/sch/input`.
pub fn command_number_message(command: String, value: i32) -> (m: MqttMessage)
    ensures
        m matches MqttMessage::Publish { topic, payload } && topic@ == "test/sch/input"@ && payload@
            == command@ + decimal_i32(value),
{
    let mut payload = command;
    push_decimal_i32(&mut payload, value);
    MqttMessage::Publish { topic: "test/sch/input".to_string(), payload }
}

/// A command with a hexadecimal argument: the command followed by the
/// number in upper-case hexadecimal (two's complement for negative values),
/// on `test/sch/input`.
pub fn command_hex_message(command: String, value: i32) -> (m: MqttMessage)
    ensures
        m matches MqttMessage::Publish { topic, payload } && topic@ == "test/sch/input"@ && payload@
            == command@ + upper_hex_i32(value),
{
    let mut payload = command;
    push_upper_hex_i32(&mut payload, value);
    MqttMessage::Publish { topic: "test/sch/input".to_string(), payload }
}

} // verus!
