//! A batch of test results, rendered as one complete TAP stream.
use vstd::prelude::*;
use vstd::std_specs::cmp::PartialEqSpec;
use vstd::string::StringExecFns;
use crate::decimal::{decimal, natural_string};
use crate::line::{
    build_count_plan_line, lemma_stream_text_step, plan_line, stream_text, texts, LINE_END,
};
use crate::tap_test::{TapTest, TapTestView};

verus! {

/// The views of a sequence of test results, in order.
pub open spec fn test_views(tests: Seq<TapTest>) -> Seq<TapTestView> {
    Seq::new(tests.len(), |i: int| tests[i]@)
}

/// The lines of the first `n` results of `tests`, in order. The result at
/// position `i`, counted from 0, is rendered under the number `i + 1`.
pub open spec fn result_lines(tests: Seq<TapTestView>, n: nat) -> Seq<Seq<char>>
    decreases n,
{
    if n == 0 {
        Seq::empty()
    } else {
        result_lines(tests, (n - 1) as nat) + tests[n - 1].lines(n as int)
    }
}

/// What a [`TapSuite`] is, mathematically: the text of its name and the
/// views of its results in order.
pub struct TapSuiteView {
    pub name: Seq<char>,
    pub tests: Seq<TapTestView>,
}

impl TapSuiteView {
    /// The plan line of the suite: `1..` and the number of its results.
    pub open spec fn plan(self) -> Seq<char> {
        plan_line(1, self.tests.len() as int)
    }

    /// Every line of the suite's stream: the plan line, then the lines of
    /// each result in order, numbered from 1 by position. The suite's name
    /// is no part of it.
    pub open spec fn lines(self) -> Seq<Seq<char>> {
        seq![self.plan()] + result_lines(self.tests, self.tests.len())
    }

    /// The suite's stream as one text: its lines joined by line ends, with
    /// none after the last line.
    pub open spec fn text(self) -> Seq<char> {
        stream_text(self.lines())
    }
}

/// An ordered collection of test results that renders to a TAP stream.
#[derive(Debug)]
pub struct TapSuite {
    /// The name of the suite. It is a label only: no line of the stream
    /// carries it.
    pub name: String,
    /// The results, in the order in which they are numbered and rendered.
    pub tests: Vec<TapTest>,
}

impl View for TapSuite {
    type V = TapSuiteView;

    open spec fn view(&self) -> TapSuiteView {
        TapSuiteView { name: self.name@, tests: test_views(self.tests@) }
    }
}

/// A copy of each result, in order.
pub(crate) fn clone_tests(tests: &Vec<TapTest>) -> (copy: Vec<TapTest>)
    ensures
        test_views(copy@) == test_views(tests@),
{
    let mut copy: Vec<TapTest> = Vec::new();
    let mut i: usize = 0;
    while i < tests.len()
        invariant
            i <= tests.len(),
            copy@.len() == i,
            forall|k: int| 0 <= k < i ==> (#[trigger] copy@[k])@ == tests@[k]@,
        decreases tests.len() - i,
    {
        copy.push(tests[i].clone());
        i += 1;
    }
    assert(test_views(copy@) =~= test_views(tests@));
    copy
}

impl Clone for TapSuite {
    /// A copy with the same name and the same results in the same order.
    fn clone(&self) -> (copy: TapSuite)
        ensures
            copy@ == self@,
    {
        TapSuite { name: self.name.clone(), tests: clone_tests(&self.tests) }
    }
}

impl PartialEq for TapSuite {
    /// Two suites are equal when their names are equal and their results
    /// are equal one by one, in order.
    fn eq(&self, other: &TapSuite) -> (equal: bool) {
        if !(self.name == other.name) || self.tests.len() != other.tests.len() {
            assert(self@ != other@) by {
                if self.tests@.len() != other.tests@.len() {
                    assert(self@.tests.len() != other@.tests.len());
                }
            }
            return false;
        }
        let mut i: usize = 0;
        while i < self.tests.len()
            invariant
                i <= self.tests.len(),
                self.tests.len() == other.tests.len(),
                forall|k: int| 0 <= k < i ==> self.tests@[k]@ == other.tests@[k]@,
            decreases self.tests.len() - i,
        {
            if !(self.tests[i] == other.tests[i]) {
                assert(self@.tests[i as int] != other@.tests[i as int]);
                return false;
            }
            i += 1;
        }
        assert(self@.tests =~= other@.tests);
        true
    }
}

impl vstd::std_specs::cmp::PartialEqSpecImpl for TapSuite {
    open spec fn obeys_eq_spec() -> bool {
        true
    }

    open spec fn eq_spec(&self, other: &TapSuite) -> bool {
        self@ == other@
    }
}

impl TapSuite {
    /// All lines of the stream, in order: first the plan line, `1..` and
    /// the number of results, then the lines of each result, numbered from 1
    /// by position.
    pub fn lines(&self) -> (all_lines: Vec<String>)
        ensures
            texts(all_lines@) == self@.lines(),
            all_lines@.len() == first_line_of(self@.tests, self@.tests.len()),
            all_lines@[0]@ == plan_line(1, self.tests@.len() as int),
    {
        let count: usize = self.tests.len();
        let mut all_lines: Vec<String> = Vec::new();
        all_lines.push(build_count_plan_line(count as u64));
        let mut i: usize = 0;
        while i < count
            invariant
                count == self.tests.len(),
                i <= count,
                texts(all_lines@) == seq![self@.plan()] + result_lines(self@.tests, i as nat),
            decreases count - i,
        {
            // Numbers start at 1, not at 0.
            let number = natural_string((i + 1) as u64);
            let mut tap = self.tests[i].tap_numbered(number.as_str());
            let ghost before = all_lines@;
            let ghost added = tap@;
            all_lines.append(&mut tap);
            i += 1;
            assert(texts(all_lines@) =~= seq![self@.plan()] + result_lines(self@.tests, i as nat))
                by {
                assert(texts(before + added) =~= texts(before) + texts(added));
            }
        }
        proof {
            lemma_result_lines_len(self@.tests, self@.tests.len());
            assert(all_lines@.len() == texts(all_lines@).len());
            assert(all_lines@[0]@ == texts(all_lines@)[0]);
        }
        all_lines
    }

    /// The whole stream as one text: the lines of [`TapSuite::lines`] joined
    /// by line ends, with none after the last line.
    pub fn render(&self) -> (output: String)
        ensures
            output@ == self@.text(),
    {
        let all_lines = self.lines();
        let ghost lines = texts(all_lines@);
        let mut output = String::new();
        let mut i: usize = 0;
        assert(lines.take(0).len() == 0);
        while i < all_lines.len()
            invariant
                i <= all_lines.len(),
                lines == texts(all_lines@),
                output@ == stream_text(lines.take(i as int)),
            decreases all_lines.len() - i,
        {
            let ghost before = output@;
            if i > 0 {
                output.append(LINE_END);
            }
            output.append(all_lines[i].as_str());
            proof {
                lemma_stream_text_step(lines, i as int);
                assert(lines[i as int] == all_lines@[i as int]@);
                if i == 0 {
                    assert(before =~= Seq::<char>::empty());
                    assert(output@ =~= lines[0]);
                } else {
                    assert(output@ =~= before + LINE_END@ + lines[i as int]);
                }
                assert(output@ == stream_text(lines.take(i + 1)));
            }
            i += 1;
        }
        assert(lines.take(all_lines.len() as int) =~= lines);
        output
    }

    /// What a print reports once the sink has answered: the text that was
    /// written if the write succeeded, the sink's reason if it failed.
    pub fn print_outcome(output: String, written: Result<(), String>) -> (outcome: Result<
        String,
        String,
    >)
        ensures
            outcome == match written {
                Ok(_) => Ok::<String, String>(output),
                Err(reason) => Err::<String, String>(reason),
            },
    {
        match written {
            Ok(_) => Ok(output),
            Err(reason) => Err(reason),
        }
    }

    /// Renders the whole stream, then hands it to `write` in one call, and
    /// reports what `write` answered: `Ok` with the text that was written,
    /// or `Err` with the reason `write` gave. Nothing is written before the
    /// stream is complete, and a failed write is not tried again.
    pub fn print<F: FnOnce(&str) -> Result<(), String>>(&self, write: F) -> (outcome: Result<
        String,
        String,
    >)
        requires
            forall|text: &str| text@ == self@.text() ==> call_requires(write, (text,)),
        ensures
            match outcome {
                Ok(output) => output@ == self@.text() && exists|text: &str|
                    text@ == self@.text() && call_ensures(write, (text,), Ok::<(), String>(())),
                Err(reason) => exists|text: &str|
                    text@ == self@.text() && call_ensures(
                        write,
                        (text,),
                        Err::<(), String>(reason),
                    ),
            },
    {
        let output = self.render();
        let text: &str = output.as_str();
        let written = write(text);
        proof {
            // The unit type has one value, so a write that succeeded
            // answered `Ok(())`.
            if let Ok(unit) = written {
                assert(unit == ());
            }
        }
        TapSuite::print_outcome(output, written)
    }
}

/// Where in a suite's stream the result line of the result at position
/// `i` stands: after the plan line and after all lines of the results
/// before it. For `i` equal to the number of results it is the length of
/// the stream.
pub open spec fn first_line_of(tests: Seq<TapTestView>, i: nat) -> nat
    decreases i,
{
    if i == 0 {
        1
    } else {
        first_line_of(tests, (i - 1) as nat) + 1 + tests[i - 1].diagnostics.len()
    }
}

proof fn lemma_result_lines_len(tests: Seq<TapTestView>, n: nat)
    ensures
        result_lines(tests, n).len() + 1 == first_line_of(tests, n),
    decreases n,
{
    if n > 0 {
        lemma_result_lines_len(tests, (n - 1) as nat);
    }
}

proof fn lemma_first_line_of_grows(tests: Seq<TapTestView>, i: nat, n: nat)
    requires
        i < n,
    ensures
        first_line_of(tests, i) + 1 + tests[i as int].diagnostics.len() <= first_line_of(tests, n),
    decreases n,
{
    if i + 1 < n {
        lemma_first_line_of_grows(tests, i, (n - 1) as nat);
    }
}

proof fn lemma_result_lines_at(tests: Seq<TapTestView>, n: nat, i: nat, j: int)
    requires
        i < n,
        0 <= j <= tests[i as int].diagnostics.len(),
    ensures
        first_line_of(tests, i) - 1 + j < result_lines(tests, n).len(),
        result_lines(tests, n)[first_line_of(tests, i) - 1 + j] == tests[i as int].lines(
            i as int + 1,
        )[j],
    decreases n,
{
    lemma_result_lines_len(tests, n);
    lemma_result_lines_len(tests, (n - 1) as nat);
    lemma_first_line_of_grows(tests, i, n);
    if i + 1 < n {
        lemma_result_lines_at(tests, (n - 1) as nat, i, j);
    }
}

/// The first line of every suite's stream is its plan line: `1..` and then
/// the number of its results in decimal. A suite without results renders
/// to the one line `1..0`, and its text is `1..0` with nothing after it.
pub proof fn lemma_plan_line_first(suite: TapSuiteView)
    ensures
        suite.lines().len() >= 1,
        suite.lines()[0] == seq!['1', '.', '.'] + decimal(suite.tests.len() as int),
        suite.tests.len() == 0 ==> suite.lines() == seq![seq!['1', '.', '.', '0']],
        suite.tests.len() == 0 ==> suite.text() == seq!['1', '.', '.', '0'],
{
    reveal_strlit("..");
    if suite.tests.len() == 0 {
        assert(suite.plan() =~= seq!['1', '.', '.', '0']);
        assert(suite.lines() =~= seq![seq!['1', '.', '.', '0']]);
        assert(suite.lines().len() == 1);
        assert(stream_text(suite.lines()) == suite.lines()[0]);
    }
}

/// The number of characters in all of the lines together.
pub open spec fn total_len(lines: Seq<Seq<char>>) -> nat
    decreases lines.len(),
{
    if lines.len() == 0 {
        0
    } else {
        total_len(lines.drop_last()) + lines.last().len()
    }
}

/// Nothing follows the last line: the text of a stream ends with its last
/// line, and besides the characters of the lines it holds one line end for
/// each line but the first.
pub proof fn lemma_text_ends_with_last_line(lines: Seq<Seq<char>>)
    requires
        lines.len() >= 1,
    ensures
        stream_text(lines).len() >= lines.last().len(),
        stream_text(lines).subrange(
            stream_text(lines).len() - lines.last().len(),
            stream_text(lines).len() as int,
        ) == lines.last(),
        stream_text(lines).len() == total_len(lines) + (lines.len() - 1) * LINE_END@.len(),
    decreases lines.len(),
{
    let text = stream_text(lines);
    let last = lines.last();
    if lines.len() == 1 {
        assert(text == lines[0]);
        assert(text.subrange(0, text.len() as int) =~= last);
        assert(lines.drop_last().len() == 0);
        assert(total_len(lines) == total_len(lines.drop_last()) + last.len());
    } else {
        lemma_text_ends_with_last_line(lines.drop_last());
        assert(text == stream_text(lines.drop_last()) + LINE_END@ + last);
        assert(text.subrange(text.len() - last.len(), text.len() as int) =~= last);
        assert(total_len(lines) == total_len(lines.drop_last()) + last.len());
        assert((lines.len() - 1) * LINE_END@.len() == (lines.len() - 2) * LINE_END@.len()
            + LINE_END@.len()) by (nonlinear_arith);
    }
}

/// The result at position `i` of a suite, counted from 0, is rendered
/// under the number `i + 1`: its result line stands at
/// `first_line_of(tests, i)` and carries that number and no other, and its
/// diagnostic lines follow it directly, in order. Besides these lines the
/// stream holds the plan line only: its length is `first_line_of` at the
/// number of results.
pub proof fn lemma_numbered_by_position(suite: TapSuiteView, i: int)
    requires
        0 <= i < suite.tests.len(),
    ensures
        suite.lines().len() == first_line_of(suite.tests, suite.tests.len()),
        first_line_of(suite.tests, i as nat) + suite.tests[i].diagnostics.len()
            < suite.lines().len(),
        suite.lines()[first_line_of(suite.tests, i as nat) as int] == suite.tests[i].status_line(
            i + 1,
        ),
        forall|other: int|
            other != i + 1 ==> suite.lines()[first_line_of(suite.tests, i as nat) as int]
                != #[trigger] suite.tests[i].status_line(other),
        forall|k: int|
            0 <= k < suite.tests[i].diagnostics.len() ==> #[trigger] suite.lines()[first_line_of(
                suite.tests,
                i as nat,
            ) + 1 + k] == crate::line::diagnostic_line(suite.tests[i].diagnostics[k]),
{
    let tests = suite.tests;
    let first = first_line_of(tests, i as nat);
    lemma_result_lines_len(tests, tests.len());
    lemma_result_lines_at(tests, tests.len(), i as nat, 0);
    assert forall|k: int| 0 <= k < tests[i].diagnostics.len() implies #[trigger] suite.lines()[first
        + 1 + k] == crate::line::diagnostic_line(tests[i].diagnostics[k]) by {
        lemma_result_lines_at(tests, tests.len(), i as nat, 1 + k);
    }
    lemma_result_lines_at(tests, tests.len(), i as nat, tests[i].diagnostics.len() as int);
    assert forall|other: int| other != i + 1 implies suite.lines()[first as int]
        != #[trigger] tests[i].status_line(other) by {
        if tests[i].status_line(i + 1) == tests[i].status_line(other) {
            crate::line::lemma_status_line_tells_the_number(
                tests[i].passed,
                i + 1,
                other,
                tests[i].name,
            );
        }
    }
}

/// Rendering is repeatable: whatever lines a suite rendered to once, it
/// renders to again, and so does every suite with equal results. The
/// stream depends on nothing but the results; the name has no part in it.
pub proof fn lemma_rendering_repeatable(
    first_suite: TapSuite,
    second_suite: TapSuite,
    first: Vec<String>,
    second: Vec<String>,
)
    requires
        first_suite@.tests == second_suite@.tests,
        texts(first@) == first_suite@.lines(),
        texts(second@) == second_suite@.lines(),
    ensures
        texts(first@) == texts(second@),
        first_suite@.text() == second_suite@.text(),
{
}

/// Equality of suites is structural: two suites are equal exactly when
/// their names are equal and their results are equal one by one, in order,
/// however each of them was made.
pub proof fn lemma_suite_equality_is_structural(a: TapSuite, b: TapSuite)
    ensures
        a.eq_spec(&b) <==> (a.name@ == b.name@ && test_views(a.tests@) == test_views(b.tests@)),
        a.eq_spec(&b) <==> (a.name@ == b.name@ && a.tests@.len() == b.tests@.len() && forall|
            i: int,
        |
            0 <= i < a.tests@.len() ==> (#[trigger] a.tests@[i]).eq_spec(&b.tests@[i])),
        a.eq_spec(&a),
        a.eq_spec(&b) == b.eq_spec(&a),
{
    if a.name@ == b.name@ && a.tests@.len() == b.tests@.len() && forall|i: int|
        0 <= i < a.tests@.len() ==> (#[trigger] a.tests@[i]).eq_spec(&b.tests@[i]) {
        assert(test_views(a.tests@) =~= test_views(b.tests@));
    }
    if a.eq_spec(&b) {
        assert(test_views(a.tests@).len() == test_views(b.tests@).len());
        assert forall|i: int| 0 <= i < a.tests@.len() implies (#[trigger] a.tests@[i]).eq_spec(
            &b.tests@[i],
        ) by {
            assert(test_views(a.tests@)[i] == test_views(b.tests@)[i]);
        }
    }
}

} // verus!
