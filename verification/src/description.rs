//! A test result written out for a reader, as in a log or a failure
//! message. This is no TAP line.
use vstd::prelude::*;
use vstd::string::StringExecFns;
use crate::line::texts;

verus! {

/// What the standard debug formatting (`{:?}`) writes for a string with
/// this text: the text between double quotes, with quotes, backslashes and
/// unprintable characters escaped. Only this is claimed of it: it depends
/// on the text alone.
pub uninterp spec fn debug_str(text: Seq<char>) -> Seq<char>;

/// The items in order, with `, ` between them.
pub open spec fn comma_separated(items: Seq<Seq<char>>) -> Seq<char>
    decreases items.len(),
{
    if items.len() == 0 {
        Seq::empty()
    } else if items.len() == 1 {
        items[0]
    } else {
        comma_separated(items.drop_last()) + ", "@ + items.last()
    }
}

/// The items in order, with `, ` between them, in square brackets.
pub open spec fn bracketed(items: Seq<Seq<char>>) -> Seq<char> {
    "["@ + comma_separated(items) + "]"@
}

/// The debug text of each item, in order.
pub open spec fn debug_strs(items: Seq<Seq<char>>) -> Seq<Seq<char>> {
    Seq::new(items.len(), |i: int| debug_str(items[i]))
}

/// A list of strings as debug formatting writes it: the debug text of each
/// item, in order, with `, ` between them, in square brackets.
pub open spec fn debug_list(items: Seq<Seq<char>>) -> Seq<char> {
    bracketed(debug_strs(items))
}

/// A test written out for a reader: `TapTest(name: N, passed: P,
/// diagnostics: D)`, where `N` is the name as it is, `P` is `true` or
/// `false`, and `D` is the text given for the diagnostics.
pub open spec fn description(name: Seq<char>, passed: bool, diagnostics: Seq<char>) -> Seq<char> {
    "TapTest(name: "@ + name + ", passed: "@ + (if passed {
        "true"@
    } else {
        "false"@
    }) + ", diagnostics: "@ + diagnostics + ")"@
}

/// Formats one string with `format!("{:?}", ..)`, the standard library's
/// `Debug` for `str`. Not verified: the contract takes it on trust that the
/// text which comes back is a function of the string's text, and calls that
/// function [`debug_str`]. It claims nothing of what the text holds.
#[verifier::external_body]
fn format_debug_str(item: &str) -> (text: String)
    ensures
        text@ == debug_str(item@),
{
    format!("{:?}", item)
}

/// The items in order, with `, ` between them, in square brackets.
pub fn bracket(items: &Vec<String>) -> (text: String)
    ensures
        text@ == bracketed(texts(items@)),
{
    let mut text = String::new();
    text.append("[");
    let mut i: usize = 0;
    while i < items.len()
        invariant
            i <= items.len(),
            text@ == "["@ + comma_separated(texts(items@).take(i as int)),
        decreases items.len() - i,
    {
        if i > 0 {
            text.append(", ");
        }
        text.append(items[i].as_str());
        proof {
            let done = texts(items@).take(i + 1);
            assert(done.drop_last() =~= texts(items@).take(i as int));
        }
        i += 1;
    }
    assert(texts(items@).take(items.len() as int) =~= texts(items@));
    text.append("]");
    text
}

/// A list of strings as debug formatting writes it.
pub fn format_debug_list(items: &Vec<String>) -> (text: String)
    ensures
        text@ == debug_list(texts(items@)),
{
    let mut formatted: Vec<String> = Vec::new();
    let mut i: usize = 0;
    while i < items.len()
        invariant
            i <= items.len(),
            formatted@.len() == i,
            forall|k: int| 0 <= k < i ==> (#[trigger] formatted@[k])@ == debug_str(items@[k]@),
        decreases items.len() - i,
    {
        formatted.push(format_debug_str(items[i].as_str()));
        i += 1;
    }
    assert(texts(formatted@) =~= debug_strs(texts(items@)));
    bracket(&formatted)
}

/// A test written out for a reader from its parts, the diagnostics
/// already formatted.
pub fn describe(name: &str, passed: bool, diagnostics: &str) -> (text: String)
    ensures
        text@ == description(name@, passed, diagnostics@),
{
    let mut text = String::new();
    text.append("TapTest(name: ");
    text.append(name);
    text.append(", passed: ");
    text.append(if passed { "true" } else { "false" });
    text.append(", diagnostics: ");
    text.append(diagnostics);
    text.append(")");
    text
}

} // verus!
