//! Producing a TAP stream one line at a time.
use vstd::prelude::*;
use vstd::string::StringExecFns;
use crate::decimal::decimal_string;
use crate::line::{
    bail_out_line, build_bail_out_line, build_diagnostic_line, build_numbered_line,
    build_plan_line, diagnostic_line, plan_line, status_line, texts,
};

verus! {

/// The banner that frames a stream's name: an empty diagnostic line, the
/// name as a diagnostic line, and an empty diagnostic line again.
pub open spec fn name_banner(name: Seq<char>) -> Seq<Seq<char>> {
    seq![diagnostic_line(Seq::empty()), diagnostic_line(name), diagnostic_line(Seq::empty())]
}

/// A named producer of TAP lines. Each call gives the text of exactly the
/// line that was asked for, at once and without its terminator, for the
/// caller to emit. The writer keeps no count and no history: numbers are the
/// caller's, no call depends on an earlier one, and nothing is checked
/// against the plan. After a bail-out line a stream is over; that, too, is
/// left to the caller.
pub struct TapWriter {
    /// The name of the stream.
    pub name: String,
}

impl TapWriter {
    /// A writer for the stream called `name`.
    pub fn new(name: &str) -> (writer: TapWriter)
        ensures
            writer.name@ == name@,
    {
        TapWriter { name: String::from_str(name) }
    }

    /// The plan line `start..finish`. It may stand before or after the
    /// result lines.
    pub fn plan(&self, start: i32, finish: i32) -> (line: String)
        ensures
            line@ == plan_line(start as int, finish as int),
    {
        build_plan_line(start as i64, finish as i64)
    }

    /// The stream's name as a banner of three diagnostic lines, the first
    /// and the last of them empty.
    pub fn name(&self) -> (lines: Vec<String>)
        ensures
            texts(lines@) == name_banner(self.name@),
    {
        let mut lines: Vec<String> = Vec::new();
        proof {
            reveal_strlit("");
        }
        lines.push(self.diagnostic(""));
        lines.push(self.diagnostic(self.name.as_str()));
        lines.push(self.diagnostic(""));
        lines
    }

    /// The line of a passing test: `ok`, the number and the message.
    pub fn ok(&self, test_number: i32, message: &str) -> (line: String)
        ensures
            line@ == status_line(true, test_number as int, message@),
    {
        let number = decimal_string(test_number as i64);
        build_numbered_line(true, number.as_str(), message)
    }

    /// The line of a failing test: `not ok`, the number and the message.
    pub fn not_ok(&self, test_number: i32, message: &str) -> (line: String)
        ensures
            line@ == status_line(false, test_number as int, message@),
    {
        let number = decimal_string(test_number as i64);
        build_numbered_line(false, number.as_str(), message)
    }

    /// A diagnostic line: the message after `# `.
    pub fn diagnostic(&self, message: &str) -> (line: String)
        ensures
            line@ == diagnostic_line(message@),
    {
        build_diagnostic_line(message)
    }

    /// A bail-out line without a message. It ends the stream.
    pub fn bail_out(&self) -> (line: String)
        ensures
            line@ == bail_out_line(Seq::empty()),
    {
        proof {
            reveal_strlit("");
        }
        self.bail_out_with_message("")
    }

    /// A bail-out line with a message. It ends the stream.
    pub fn bail_out_with_message(&self, message: &str) -> (line: String)
        ensures
            line@ == bail_out_line(message@),
    {
        build_bail_out_line(message)
    }
}

} // verus!
