//! The record that the Schindler test rig publishes, one per console line.

use vstd::prelude::*;

use crate::text::{is_white_space, lemma_words_two_runs, second_word, words};

verus! {

/// One message of the Schindler test rig: a timestamp (`"<date> <time>"`),
/// a level and the message text.
pub struct SchindlerTestData {
    pub time: String,
    pub level: String,
    pub message: String,
}

/// The same three fields, as kept by the console.
pub struct _SchindlerData {
    pub time: String,
    pub level: String,
    pub message: String,
}

/// The part of a timestamp that the console shows: its second
/// whitespace-separated word (the clock time of `"<date> <time>"`), or the
/// whole timestamp where it has fewer than two words.
pub open spec fn console_time_of(time: Seq<char>) -> Seq<char> {
    if words(time).len() >= 2 {
        words(time)[1]
    } else {
        time
    }
}

/// A timestamp made of a date and a clock time joined by one space, neither
/// of them holding white space, shows its clock time, whatever punctuation
/// (`.`, `-`, `/`, `:`) the date and time use.
pub proof fn lemma_console_time_of_date_and_time(date: Seq<char>, clock: Seq<char>)
    requires
        date.len() > 0,
        clock.len() > 0,
        forall|i: int| 0 <= i < date.len() ==> !is_white_space(#[trigger] date[i]),
        forall|i: int| 0 <= i < clock.len() ==> !is_white_space(#[trigger] clock[i]),
    ensures
        console_time_of(date + seq![' '] + clock) == clock,
{
    lemma_words_two_runs(date, clock);
}

/// With printable ASCII dates and times (`!` to `~`, as in
/// `01.05.2024 08:15:00` or `2024-05-01 08:15:00`) the console shows the
/// time after the space.
pub proof fn lemma_console_time_of_ascii_stamp(date: Seq<char>, clock: Seq<char>)
    requires
        date.len() > 0,
        clock.len() > 0,
        forall|i: int| 0 <= i < date.len() ==> '!' <= #[trigger] date[i] && date[i] <= '~',
        forall|i: int| 0 <= i < clock.len() ==> '!' <= #[trigger] clock[i] && clock[i] <= '~',
    ensures
        console_time_of(date + seq![' '] + clock) == clock,
{
    assert forall|i: int| 0 <= i < date.len() implies !is_white_space(#[trigger] date[i]) by {
        crate::text::lemma_white_space_ascii(date[i]);
    }
    assert forall|i: int| 0 <= i < clock.len() implies !is_white_space(#[trigger] clock[i]) by {
        crate::text::lemma_white_space_ascii(clock[i]);
    }
    lemma_console_time_of_date_and_time(date, clock);
}

impl SchindlerTestData {
    /// The time column of the console line for this record.
    pub fn console_time(&self) -> (t: String)
        ensures
            t@ == console_time_of(self.time@),
    {
        match second_word(self.time.as_str()) {
            Some(w) => w,
            None => self.time.clone(),
        }
    }
}

} // verus!
