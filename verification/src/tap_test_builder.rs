//! Assembling a test result field by field.
use vstd::prelude::*;
use vstd::std_specs::cmp::PartialEqSpec;
use vstd::string::StringExecFns;
use crate::line::texts;
use crate::tap_test::{TapTest, TapTestView};

verus! {

/// The name given to a result that was built without one.
pub const DEFAULT_NAME: &'static str = "A test has no name";

/// The texts of a sequence of string slices, in order.
pub open spec fn slice_texts(comments: Seq<&str>) -> Seq<Seq<char>> {
    Seq::new(comments.len(), |i: int| comments[i]@)
}

/// What a [`TapTestBuilder`] holds: for each field of the result, the value
/// that was set, if any.
pub struct TapTestBuilderView {
    pub name: Option<Seq<char>>,
    pub passed: Option<bool>,
    pub diagnostics: Option<Seq<Seq<char>>>,
}

impl TapTestBuilderView {
    /// A builder on which nothing is set.
    pub open spec fn blank() -> TapTestBuilderView {
        TapTestBuilderView { name: None, passed: None, diagnostics: None }
    }

    /// The result that this builder describes: the name that was set or
    /// [`DEFAULT_NAME`], the outcome that was set, and the diagnostics that
    /// were set or none. It is meaningful only once an outcome is set.
    pub open spec fn built(self) -> TapTestView
        recommends
            self.passed is Some,
    {
        TapTestView {
            name: match self.name {
                Some(name) => name,
                None => DEFAULT_NAME@,
            },
            passed: self.passed->0,
            diagnostics: match self.diagnostics {
                Some(diagnostics) => diagnostics,
                None => Seq::empty(),
            },
        }
    }
}

/// Builds a [`TapTest`] from optional parts. The outcome must be set before
/// the result is finalized; the name and the diagnostics have defaults.
#[derive(Debug)]
pub struct TapTestBuilder {
    name: Option<String>,
    passed: Option<bool>,
    diagnostics: Option<Vec<String>>,
}

impl View for TapTestBuilder {
    type V = TapTestBuilderView;

    closed spec fn view(&self) -> TapTestBuilderView {
        TapTestBuilderView {
            name: match self.name {
                Some(name) => Some(name@),
                None => None,
            },
            passed: self.passed,
            diagnostics: match self.diagnostics {
                Some(diagnostics) => Some(texts(diagnostics@)),
                None => None,
            },
        }
    }
}

impl TapTestBuilder {
    /// A builder on which nothing is set.
    pub fn new() -> (builder: TapTestBuilder)
        ensures
            builder@ == TapTestBuilderView::blank(),
    {
        TapTestBuilder { name: None, passed: None, diagnostics: None }
    }

    /// Sets the name of the test.
    pub fn name(&mut self, s: &str) -> (builder: &mut TapTestBuilder)
        ensures
            builder@ == (TapTestBuilderView { name: Some(s@), ..old(self)@ }),
            *final(self) == *final(builder),
    {
        self.name = Some(String::from_str(s));
        self
    }

    /// Sets whether the test passed.
    pub fn passed(&mut self, status: bool) -> (builder: &mut TapTestBuilder)
        ensures
            builder@ == (TapTestBuilderView { passed: Some(status), ..old(self)@ }),
            *final(self) == *final(builder),
    {
        self.passed = Some(status);
        self
    }

    /// Sets the diagnostics: any number of lines, kept in the order given.
    pub fn diagnostics(&mut self, comments: Vec<&str>) -> (builder: &mut TapTestBuilder)
        ensures
            builder@ == (TapTestBuilderView {
                diagnostics: Some(slice_texts(comments@)),
                ..old(self)@
            }),
            *final(self) == *final(builder),
    {
        let mut owned: Vec<String> = Vec::new();
        let mut i: usize = 0;
        while i < comments.len()
            invariant
                i <= comments.len(),
                owned@.len() == i,
                forall|k: int| 0 <= k < i ==> (#[trigger] owned@[k])@ == comments@[k]@,
            decreases comments.len() - i,
        {
            owned.push(String::from_str(comments[i]));
            i += 1;
        }
        assert(texts(owned@) =~= slice_texts(comments@));
        self.diagnostics = Some(owned);
        self
    }

    /// The result that was described, leaving the builder blank again. The
    /// name defaults to [`DEFAULT_NAME`] and the diagnostics to none. The
    /// outcome has no default: a result cannot be finalized before
    /// [`TapTestBuilder::passed`] was called.
    pub fn finalize(&mut self) -> (test: TapTest)
        requires
            old(self)@.passed is Some,
        ensures
            test@ == old(self)@.built(),
            final(self)@ == TapTestBuilderView::blank(),
    {
        let name = match self.name.take() {
            Some(name) => name,
            None => String::from_str(DEFAULT_NAME),
        };
        let passed = self.passed.take().expect("a test was built without an outcome");
        let diagnostics = match self.diagnostics.take() {
            Some(diagnostics) => diagnostics,
            None => Vec::new(),
        };
        let test = TapTest { name, passed, diagnostics };
        assert(test@.diagnostics =~= old(self)@.built().diagnostics);
        test
    }
}

/// A result made by a builder equals a result written down directly with
/// the same name, outcome and diagnostics: the way a result was made leaves
/// no trace in it.
pub proof fn lemma_built_test_equals_literal(
    builder: TapTestBuilderView,
    built: TapTest,
    literal: TapTest,
)
    requires
        builder.passed is Some,
        built@ == builder.built(),
        literal.name@ == builder.built().name,
        literal.passed == builder.built().passed,
        texts(literal.diagnostics@) == builder.built().diagnostics,
    ensures
        built.eq_spec(&literal),
        literal.eq_spec(&built),
{
}

} // verus!
