//! The text of each kind of TAP line.
//!
//! The spec functions here say what a line is, as a sequence of characters
//! without its terminator. The batch renderer and the incremental writer both
//! state their contracts over them, so the two cannot drift apart.
use vstd::prelude::*;
use vstd::string::StringExecFns;
use crate::decimal::{decimal, lemma_decimal_tells_the_number, push_decimal, push_digits};

verus! {

/// The symbol that opens the result line of a passing test.
pub const OK_SYMBOL: &'static str = "ok";

/// The symbol that opens the result line of a failing test.
pub const NOT_OK_SYMBOL: &'static str = "not ok";

/// What every diagnostic line begins with.
pub const DIAGNOSTIC_PREFIX: &'static str = "# ";

/// What stands between the two numbers of a plan line.
pub const PLAN_SEPARATOR: &'static str = "..";

/// What every bail-out line begins with.
pub const BAIL_OUT_PREFIX: &'static str = "Bail out! ";

/// What stands between two lines of a stream that is written as one text.
pub const LINE_END: &'static str = "\n";

/// `ok` for a passing test, `not ok` for a failing one.
pub open spec fn status_symbol(passed: bool) -> Seq<char> {
    if passed {
        OK_SYMBOL@
    } else {
        NOT_OK_SYMBOL@
    }
}

/// A result line whose number is already text: the status symbol, the
/// number and the name, separated by single spaces.
pub open spec fn numbered_line(passed: bool, number: Seq<char>, name: Seq<char>) -> Seq<char> {
    status_symbol(passed) + seq![' '] + number + seq![' '] + name
}

/// A result line: the status symbol, the test's number in decimal and its
/// name, separated by single spaces. The name is taken as it is.
pub open spec fn status_line(passed: bool, number: int, name: Seq<char>) -> Seq<char> {
    numbered_line(passed, decimal(number), name)
}

/// A diagnostic line: `#`, one space, and the text as it is.
pub open spec fn diagnostic_line(text: Seq<char>) -> Seq<char> {
    DIAGNOSTIC_PREFIX@ + text
}

/// A plan line: the first and the last test number with `..` between them.
pub open spec fn plan_line(start: int, finish: int) -> Seq<char> {
    decimal(start) + PLAN_SEPARATOR@ + decimal(finish)
}

/// A bail-out line: `Bail out!`, one space, and the message as it is.
pub open spec fn bail_out_line(message: Seq<char>) -> Seq<char> {
    BAIL_OUT_PREFIX@ + message
}

/// The texts of a sequence of strings, in order.
pub open spec fn texts(lines: Seq<String>) -> Seq<Seq<char>> {
    Seq::new(lines.len(), |i: int| lines[i]@)
}

/// The diagnostic lines for a sequence of comments, one for each, in order.
pub open spec fn diagnostic_lines(comments: Seq<Seq<char>>) -> Seq<Seq<char>> {
    Seq::new(comments.len(), |i: int| diagnostic_line(comments[i]))
}

/// The lines of a stream as one text: the lines in order, joined by line
/// ends. A line end stands between two lines and nowhere else: none before
/// the first line and none after the last. No lines give the empty text.
pub open spec fn stream_text(lines: Seq<Seq<char>>) -> Seq<char>
    decreases lines.len(),
{
    if lines.len() == 0 {
        Seq::empty()
    } else if lines.len() == 1 {
        lines[0]
    } else {
        stream_text(lines.drop_last()) + LINE_END@ + lines.last()
    }
}

/// Joining one line more: the text of the first `i + 1` lines is the
/// line itself when it is the first, and otherwise the text of the first
/// `i` lines, a line end, and the line.
pub proof fn lemma_stream_text_step(lines: Seq<Seq<char>>, i: int)
    requires
        0 <= i < lines.len(),
    ensures
        i == 0 ==> stream_text(lines.take(i + 1)) == lines[i],
        i > 0 ==> stream_text(lines.take(i + 1)) == stream_text(lines.take(i)) + LINE_END@
            + lines[i],
{
    let done = lines.take(i + 1);
    assert(done.len() == i + 1);
    assert(done.last() == lines[i]);
    if i == 0 {
        assert(done[0] == lines[0]);
        assert(stream_text(done) == done[0]);
    } else {
        assert(done.drop_last() =~= lines.take(i));
        assert(stream_text(done) == stream_text(done.drop_last()) + LINE_END@ + done.last());
    }
}

/// The status symbol as a string slice.
pub(crate) fn symbol_of(passed: bool) -> (symbol: &'static str)
    ensures
        symbol@ == status_symbol(passed),
{
    if passed {
        OK_SYMBOL
    } else {
        NOT_OK_SYMBOL
    }
}

/// Builds a result line from a number that is already text.
pub(crate) fn build_numbered_line(passed: bool, number: &str, name: &str) -> (line: String)
    ensures
        line@ == numbered_line(passed, number@, name@),
{
    proof {
        reveal_strlit(" ");
    }
    let mut line = String::new();
    line.append(symbol_of(passed));
    line.append(" ");
    line.append(number);
    line.append(" ");
    line.append(name);
    line
}

/// Builds a diagnostic line.
pub(crate) fn build_diagnostic_line(text: &str) -> (line: String)
    ensures
        line@ == diagnostic_line(text@),
{
    let mut line = String::new();
    line.append(DIAGNOSTIC_PREFIX);
    line.append(text);
    line
}

/// Builds the plan line for any two numbers.
pub(crate) fn build_plan_line(start: i64, finish: i64) -> (line: String)
    ensures
        line@ == plan_line(start as int, finish as int),
{
    let mut line = String::new();
    push_decimal(&mut line, start);
    line.append(PLAN_SEPARATOR);
    push_decimal(&mut line, finish);
    line
}

/// Builds the plan line of a batch of `count` tests, numbered from 1.
pub(crate) fn build_count_plan_line(count: u64) -> (line: String)
    ensures
        line@ == plan_line(1, count as int),
{
    let mut line = String::new();
    push_digits(&mut line, 1);
    line.append(PLAN_SEPARATOR);
    push_digits(&mut line, count);
    line
}

/// Builds a bail-out line.
pub(crate) fn build_bail_out_line(message: &str) -> (line: String)
    ensures
        line@ == bail_out_line(message@),
{
    let mut line = String::new();
    line.append(BAIL_OUT_PREFIX);
    line.append(message);
    line
}

/// A result line opens with one of two symbols and no third: `ok` exactly
/// when the test passed, `not ok` exactly when it did not; and the two
/// differ, so the symbol tells the outcome.
pub proof fn lemma_status_symbol_two_valued(passed: bool)
    ensures
        passed ==> status_symbol(passed) == seq!['o', 'k'],
        !passed ==> status_symbol(passed) == seq!['n', 'o', 't', ' ', 'o', 'k'],
        status_symbol(true) != status_symbol(false),
{
    reveal_strlit("ok");
    reveal_strlit("not ok");
    assert(OK_SYMBOL@.len() != NOT_OK_SYMBOL@.len());
}

/// A result line tells its number: for one outcome and one name, lines
/// under different numbers are different lines.
pub proof fn lemma_status_line_tells_the_number(passed: bool, a: int, b: int, name: Seq<char>)
    requires
        status_line(passed, a, name) == status_line(passed, b, name),
    ensures
        a == b,
{
    let head = status_symbol(passed) + seq![' '];
    let line_a = status_line(passed, a, name);
    let line_b = status_line(passed, b, name);
    assert(line_a.len() == head.len() + decimal(a).len() + 1 + name.len());
    assert(line_b.len() == head.len() + decimal(b).len() + 1 + name.len());
    let from = head.len() as int;
    let to = from + decimal(a).len();
    assert(decimal(a) =~= line_a.subrange(from, to));
    assert(decimal(b) =~= line_b.subrange(from, to));
    lemma_decimal_tells_the_number(a, b);
}

} // verus!
