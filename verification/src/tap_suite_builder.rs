//! Assembling a suite field by field.
use vstd::prelude::*;
use vstd::std_specs::cmp::PartialEqSpec;
use vstd::string::StringExecFns;
use crate::tap_suite::{clone_tests, test_views, TapSuite, TapSuiteView};
use crate::tap_test::{TapTest, TapTestView};

verus! {

/// What a [`TapSuiteBuilder`] holds: for each field of the suite, the value
/// that was set, if any.
pub struct TapSuiteBuilderView {
    pub name: Option<Seq<char>>,
    pub tests: Option<Seq<TapTestView>>,
}

impl TapSuiteBuilderView {
    /// A builder on which nothing is set.
    pub open spec fn blank() -> TapSuiteBuilderView {
        TapSuiteBuilderView { name: None, tests: None }
    }

    /// The suite that this builder describes: the name that was set or the
    /// empty name, and the results that were set or none.
    pub open spec fn built(self) -> TapSuiteView {
        TapSuiteView {
            name: match self.name {
                Some(name) => name,
                None => Seq::empty(),
            },
            tests: match self.tests {
                Some(tests) => tests,
                None => Seq::empty(),
            },
        }
    }
}

/// Builds a [`TapSuite`] from optional parts, both of which have defaults.
#[derive(Debug)]
pub struct TapSuiteBuilder {
    /// The name of the suite, if one was set.
    pub name: Option<String>,
    /// The results of the suite, if they were set.
    pub tests: Option<Vec<TapTest>>,
}

impl View for TapSuiteBuilder {
    type V = TapSuiteBuilderView;

    open spec fn view(&self) -> TapSuiteBuilderView {
        TapSuiteBuilderView {
            name: match self.name {
                Some(name) => Some(name@),
                None => None,
            },
            tests: match self.tests {
                Some(tests) => Some(test_views(tests@)),
                None => None,
            },
        }
    }
}

impl Clone for TapSuiteBuilder {
    /// A copy on which the same values are set.
    fn clone(&self) -> (copy: TapSuiteBuilder)
        ensures
            copy@ == self@,
    {
        let name = match &self.name {
            Some(name) => Some(name.clone()),
            None => None,
        };
        let tests = match &self.tests {
            Some(tests) => Some(clone_tests(tests)),
            None => None,
        };
        TapSuiteBuilder { name, tests }
    }
}

impl Default for TapSuiteBuilder {
    /// A builder on which nothing is set.
    fn default() -> (builder: TapSuiteBuilder)
        ensures
            builder@ == TapSuiteBuilderView::blank(),
    {
        TapSuiteBuilder::new()
    }
}

impl TapSuiteBuilder {
    /// A builder on which nothing is set.
    pub fn new() -> (builder: TapSuiteBuilder)
        ensures
            builder@ == TapSuiteBuilderView::blank(),
    {
        TapSuiteBuilder { name: None, tests: None }
    }

    /// Sets the name of the suite.
    pub fn name(&mut self, s: &str) -> (builder: &mut TapSuiteBuilder)
        ensures
            builder@ == (TapSuiteBuilderView { name: Some(s@), ..old(self)@ }),
            *final(self) == *final(builder),
    {
        self.name = Some(String::from_str(s));
        self
    }

    /// Sets the results of the suite, in the order in which they will be
    /// numbered.
    pub fn tests(&mut self, test_vec: Vec<TapTest>) -> (builder: &mut TapSuiteBuilder)
        ensures
            builder@ == (TapSuiteBuilderView {
                tests: Some(test_views(test_vec@)),
                ..old(self)@
            }),
            *final(self) == *final(builder),
    {
        self.tests = Some(test_vec);
        self
    }

    /// The suite that was described, leaving the builder blank again. The
    /// name defaults to the empty string and the results to none.
    pub fn finalize(&mut self) -> (suite: TapSuite)
        ensures
            suite@ == old(self)@.built(),
            final(self)@ == TapSuiteBuilderView::blank(),
    {
        let name = match self.name.take() {
            Some(name) => name,
            None => String::new(),
        };
        let tests = match self.tests.take() {
            Some(tests) => tests,
            None => Vec::new(),
        };
        let suite = TapSuite { name, tests };
        assert(suite@.tests =~= old(self)@.built().tests);
        suite
    }
}

/// A suite made by a builder equals a suite written down directly with the
/// same name and the same results: the way a suite was made leaves no trace
/// in it.
pub proof fn lemma_built_suite_equals_literal(
    builder: TapSuiteBuilderView,
    built: TapSuite,
    literal: TapSuite,
)
    requires
        built@ == builder.built(),
        literal.name@ == builder.built().name,
        test_views(literal.tests@) == builder.built().tests,
    ensures
        built.eq_spec(&literal),
        literal.eq_spec(&built),
{
}

} // verus!
