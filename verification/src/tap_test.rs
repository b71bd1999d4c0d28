//! One test result, and the lines it renders to.
use vstd::prelude::*;
use vstd::std_specs::cmp::PartialEqSpec;
use crate::decimal::decimal_string;
use crate::description::{debug_list, describe, description, format_debug_list};
use crate::line::{
    build_diagnostic_line, build_numbered_line, diagnostic_line, diagnostic_lines, numbered_line,
    status_line, status_symbol, symbol_of, texts,
};

verus! {

/// What a [`TapTest`] is, mathematically: the text of its name, its outcome,
/// and the texts of its diagnostics in order.
pub struct TapTestView {
    pub name: Seq<char>,
    pub passed: bool,
    pub diagnostics: Seq<Seq<char>>,
}

impl TapTestView {
    /// The result line of this test under the number `number`.
    pub open spec fn status_line(self, number: int) -> Seq<char> {
        status_line(self.passed, number, self.name)
    }

    /// All lines of this test under the number `number`: the result line,
    /// then one diagnostic line for each diagnostic, in order.
    pub open spec fn lines(self, number: int) -> Seq<Seq<char>> {
        seq![self.status_line(number)] + diagnostic_lines(self.diagnostics)
    }

    /// The lines of this test when the number is already text.
    pub open spec fn numbered_lines(self, number: Seq<char>) -> Seq<Seq<char>> {
        seq![numbered_line(self.passed, number, self.name)] + diagnostic_lines(self.diagnostics)
    }

    /// This test written out for a reader, fields and all; the
    /// diagnostics stand in it as [`debug_list`] writes them.
    pub open spec fn description(self) -> Seq<char> {
        description(self.name, self.passed, debug_list(self.diagnostics))
    }
}

/// A test result: a name, whether the test passed, and any number of
/// diagnostic comments. It knows how to render itself; the number it is
/// rendered under is the caller's.
#[derive(Debug, Eq)]
pub struct TapTest {
    /// The name of the test, the main text of its result line.
    pub name: String,
    /// Did the test pass?
    pub passed: bool,
    /// Comments that follow the result line, each on a `#` line of its own.
    pub diagnostics: Vec<String>,
}

impl View for TapTest {
    type V = TapTestView;

    open spec fn view(&self) -> TapTestView {
        TapTestView {
            name: self.name@,
            passed: self.passed,
            diagnostics: texts(self.diagnostics@),
        }
    }
}

impl Clone for TapTest {
    /// A copy with the same name, outcome and diagnostics.
    fn clone(&self) -> (copy: TapTest)
        ensures
            copy@ == self@,
    {
        let mut diagnostics: Vec<String> = Vec::new();
        let mut i: usize = 0;
        while i < self.diagnostics.len()
            invariant
                i <= self.diagnostics.len(),
                diagnostics@.len() == i,
                forall|k: int|
                    0 <= k < i ==> (#[trigger] diagnostics@[k])@ == self.diagnostics@[k]@,
            decreases self.diagnostics.len() - i,
        {
            diagnostics.push(self.diagnostics[i].clone());
            i += 1;
        }
        assert(texts(diagnostics@) =~= texts(self.diagnostics@));
        TapTest { name: self.name.clone(), passed: self.passed, diagnostics }
    }
}

impl PartialEq for TapTest {
    /// Two results are equal when their names, their outcomes and their
    /// diagnostics, in order, are equal.
    fn eq(&self, other: &TapTest) -> (equal: bool) {
        if !(self.name == other.name) || self.passed != other.passed
            || self.diagnostics.len() != other.diagnostics.len() {
            assert(self@ != other@) by {
                if self.diagnostics@.len() != other.diagnostics@.len() {
                    assert(texts(self.diagnostics@).len() != texts(other.diagnostics@).len());
                }
            }
            return false;
        }
        let mut i: usize = 0;
        while i < self.diagnostics.len()
            invariant
                i <= self.diagnostics.len(),
                self.diagnostics.len() == other.diagnostics.len(),
                forall|k: int| 0 <= k < i ==> self.diagnostics@[k]@ == other.diagnostics@[k]@,
            decreases self.diagnostics.len() - i,
        {
            if !(self.diagnostics[i] == other.diagnostics[i]) {
                assert(texts(self.diagnostics@)[i as int] != texts(other.diagnostics@)[i as int]);
                return false;
            }
            i += 1;
        }
        assert(texts(self.diagnostics@) =~= texts(other.diagnostics@));
        true
    }
}

impl vstd::std_specs::cmp::PartialEqSpecImpl for TapTest {
    open spec fn obeys_eq_spec() -> bool {
        true
    }

    open spec fn eq_spec(&self, other: &TapTest) -> bool {
        self@ == other@
    }
}

impl TapTest {
    /// `ok` if the test passed, `not ok` if it did not.
    pub fn ok_string(&self) -> (symbol: String)
        ensures
            symbol@ == status_symbol(self.passed),
    {
        symbol_of(self.passed).to_string()
    }

    /// The result line under the number `test_number`, without diagnostics.
    pub fn status_line(&self, test_number: i64) -> (line: String)
        ensures
            line@ == self@.status_line(test_number as int),
    {
        let number = decimal_string(test_number);
        build_numbered_line(self.passed, number.as_str(), self.name.as_str())
    }

    /// All lines of this test under the number `test_number`: the result
    /// line, then the diagnostics in the order they were given.
    pub fn tap(&self, test_number: i64) -> (lines: Vec<String>)
        ensures
            texts(lines@) == self@.lines(test_number as int),
            lines@.len() == 1 + self.diagnostics@.len(),
    {
        let number = decimal_string(test_number);
        self.tap_numbered(number.as_str())
    }

    /// The lines of this test under a number that is already text.
    pub(crate) fn tap_numbered(&self, number: &str) -> (lines: Vec<String>)
        ensures
            texts(lines@) == self@.numbered_lines(number@),
            lines@.len() == 1 + self.diagnostics@.len(),
    {
        let mut lines: Vec<String> = Vec::new();
        lines.push(build_numbered_line(self.passed, number, self.name.as_str()));
        let mut i: usize = 0;
        while i < self.diagnostics.len()
            invariant
                i <= self.diagnostics.len(),
                lines@.len() == 1 + i,
                lines@[0]@ == numbered_line(self.passed, number@, self.name@),
                forall|k: int|
                    0 <= k < i ==> (#[trigger] lines@[1 + k])@ == diagnostic_line(
                        self.diagnostics@[k]@,
                    ),
            decreases self.diagnostics.len() - i,
        {
            lines.push(self.format_diagnostics(self.diagnostics[i].as_str()));
            i += 1;
        }
        assert(texts(lines@) =~= self@.numbered_lines(number@)) by {
            assert forall|j: int| 0 <= j < lines@.len() implies texts(lines@)[j]
                == self@.numbered_lines(number@)[j] by {
                if j > 0 {
                    assert(lines@[1 + (j - 1)]@ == diagnostic_line(self.diagnostics@[j - 1]@));
                }
            }
        }
        lines
    }

    /// This test written out for a reader, fields and all:
    /// `TapTest(name: .., passed: .., diagnostics: [..])`.
    pub fn description(&self) -> (text: String)
        ensures
            text@ == self@.description(),
    {
        let diagnostics = format_debug_list(&self.diagnostics);
        describe(self.name.as_str(), self.passed, diagnostics.as_str())
    }

    /// The diagnostic line for `line`: the text after `# `.
    pub fn format_diagnostics(&self, line: &str) -> (formatted: String)
        ensures
            formatted@ == diagnostic_line(line@),
    {
        build_diagnostic_line(line)
    }
}

/// A test renders to its result line followed by exactly one diagnostic
/// line for each of its diagnostics, in the order of the diagnostics, each
/// of them the diagnostic's own text after `#` and one space.
pub proof fn lemma_diagnostics_follow_in_order(test: TapTestView, number: int)
    ensures
        test.lines(number).len() == 1 + test.diagnostics.len(),
        test.lines(number)[0] == test.status_line(number),
        forall|k: int|
            0 <= k < test.diagnostics.len() ==> #[trigger] test.lines(number)[1 + k] == seq![
                '#',
                ' ',
            ] + test.diagnostics[k],
{
    reveal_strlit("# ");
}

/// Equality of results is structural: two results are equal exactly when
/// their names, their outcomes and their diagnostics are equal, however
/// each of them was made.
pub proof fn lemma_test_equality_is_structural(a: TapTest, b: TapTest)
    ensures
        a.eq_spec(&b) <==> (a.name@ == b.name@ && a.passed == b.passed && texts(a.diagnostics@)
            == texts(b.diagnostics@)),
        a.eq_spec(&a),
        a.eq_spec(&b) == b.eq_spec(&a),
{
}

// A `String` is known to Verus by its text alone, so no spec function can
// name the string that a conversion returns. The two conversions below
// therefore state their result in the `ensures` of `from`, and declare that
// `from_spec` does not describe them.
impl From<TapTest> for String {
    /// The test written out for a reader, as [`TapTest::description`]
    /// writes it.
    fn from(tap_test: TapTest) -> (text: String)
        ensures
            text@ == tap_test@.description(),
    {
        tap_test.description()
    }
}

impl vstd::std_specs::convert::FromSpecImpl<TapTest> for String {
    open spec fn obeys_from_spec() -> bool {
        false
    }

    open spec fn from_spec(tap_test: TapTest) -> String {
        arbitrary()
    }
}

impl From<&TapTest> for String {
    /// The test written out for a reader, as [`TapTest::description`]
    /// writes it.
    fn from(tap_test: &TapTest) -> (text: String)
        ensures
            text@ == tap_test@.description(),
    {
        tap_test.description()
    }
}

impl vstd::std_specs::convert::FromSpecImpl<&TapTest> for String {
    open spec fn obeys_from_spec() -> bool {
        false
    }

    open spec fn from_spec(tap_test: &TapTest) -> String {
        arbitrary()
    }
}

} // verus!
