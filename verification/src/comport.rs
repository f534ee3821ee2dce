//! The decisions of the serial port's read loop. The loop itself, which
//! reads from the port and logs what came, runs outside the library and
//! hands each read's outcome to [`ReadLoop::step`].

use vstd::prelude::*;

use crate::text::{bytes_to_string_lossy, decodes_to};

verus! {

/// The outcome of one read from the port.
pub enum ReadOutcome {
    /// The read returned these bytes; none at all when nothing came.
    Read(Vec<u8>),
    /// The read timed out.
    TimedOut,
    /// The read failed otherwise.
    Failed,
}

/// The bytes of the line that ends the loop: `quit` and a newline.
pub open spec fn quit_line() -> Seq<u8> {
    seq![113u8, 117u8, 105u8, 116u8, 10u8]
}

/// Whether a chunk is exactly the quit line.
pub fn is_quit_line(bytes: &[u8]) -> (b: bool)
    ensures
        b == (bytes@ == quit_line()),
{
    let r = bytes.len() == 5 && bytes[0] == 113u8 && bytes[1] == 117u8 && bytes[2] == 105u8
        && bytes[3] == 116u8 && bytes[4] == 10u8;
    proof {
        if r {
            assert(bytes@ =~= quit_line());
        }
    }
    r
}

/// The state of the read loop: the text of the last chunk received, and
/// whether the loop has ended.
pub struct ReadLoop {
    pub output: String,
    pub done: bool,
}

impl ReadLoop {
    /// A loop that has received nothing yet.
    pub fn new() -> (r: ReadLoop)
        ensures
            r.output@.len() == 0,
            !r.done,
    {
        ReadLoop { output: String::new(), done: false }
    }

    /// Takes one read's outcome. A nonempty chunk replaces the output by its
    /// text (UTF-8, invalid sequences replaced) and ends the loop when it is
    /// the quit line; an empty read or a timeout changes nothing; any other
    /// failure ends the loop. An ended loop takes nothing more.
    pub fn step(&mut self, outcome: ReadOutcome)
        ensures
            old(self).done ==> final(self).done && final(self).output@ == old(self).output@,
            !old(self).done ==> match outcome {
                ReadOutcome::Read(bytes) => if bytes.len() > 0 {
                    &&& decodes_to(bytes@, final(self).output@)
                    &&& final(self).done == (bytes@ == quit_line())
                } else {
                    final(self).output@ == old(self).output@ && !final(self).done
                },
                ReadOutcome::TimedOut => final(self).output@ == old(self).output@ && !final(self).done,
                ReadOutcome::Failed => final(self).output@ == old(self).output@ && final(self).done,
            },
    {
        if self.done {
            return ;
        }
        match outcome {
            ReadOutcome::Read(bytes) => {
                if bytes.len() > 0 {
                    self.output = bytes_to_string_lossy(bytes.as_slice());
                    self.done = is_quit_line(bytes.as_slice());
                }
            },
            ReadOutcome::TimedOut => {},
            ReadOutcome::Failed => {
                self.done = true;
            },
        }
    }
}

} // verus!
