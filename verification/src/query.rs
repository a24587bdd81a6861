//! Goals for the engine.

use vstd::prelude::*;
use vstd::string::*;

verus! {

/// Predicate that ingests one source file.
pub const CONSULT: &'static str = "consult";

/// Predicate that ingests every ontology under a directory.
pub const LOAD_ALL_ONTOLOGIES: &'static str = "load_all_ontologies";

/// Predicate that ingests one scenario.
pub const LOAD_SCENARIO: &'static str = "load_scenario";

/// Predicate that runs every suite.
pub const RUN_ALL_TESTS: &'static str = "run_all_tests";

/// Predicate that runs one named suite.
pub const RUN_TEST_SUITE: &'static str = "run_test_suite";

/// The views of a sequence of strings.
pub open spec fn texts(strings: Seq<String>) -> Seq<Seq<char>> {
    strings.map_values(|s: String| s@)
}

/// Mathematical value of a [`QueryInvocation`].
pub struct QueryView {
    pub predicate: Seq<char>,
    pub arguments: Seq<Seq<char>>,
}

impl QueryView {
    /// Number of arguments that the predicate is called with.
    pub open spec fn arity(self) -> nat {
        self.arguments.len()
    }

    /// A call of a predicate that takes nothing.
    pub open spec fn nullary(predicate: Seq<char>) -> QueryView {
        QueryView { predicate, arguments: seq![] }
    }

    /// A call of a predicate on one argument.
    pub open spec fn unary(predicate: Seq<char>, argument: Seq<char>) -> QueryView {
        QueryView { predicate, arguments: seq![argument] }
    }

    /// Ingest the file at `path`.
    pub open spec fn consult(path: Seq<char>) -> QueryView {
        QueryView::unary(CONSULT@, path)
    }

    /// Ingest every ontology under `directory`.
    pub open spec fn load_all_ontologies(directory: Seq<char>) -> QueryView {
        QueryView::unary(LOAD_ALL_ONTOLOGIES@, directory)
    }

    /// Ingest the scenario `source_id`.
    pub open spec fn load_scenario(source_id: Seq<char>) -> QueryView {
        QueryView::unary(LOAD_SCENARIO@, source_id)
    }

    /// Run every suite.
    pub open spec fn run_all_tests() -> QueryView {
        QueryView::nullary(RUN_ALL_TESTS@)
    }

    /// Run the suite `name`.
    pub open spec fn run_test_suite(name: Seq<char>) -> QueryView {
        QueryView::unary(RUN_TEST_SUITE@, name)
    }
}

/// A goal for the engine: a predicate and the arguments bound to it. The
/// engine runs it at most once and reports success or failure; further
/// solutions are discarded.
#[derive(Debug, PartialEq, Eq)]
pub struct QueryInvocation {
    pub predicate: String,
    pub arguments: Vec<String>,
}

impl View for QueryInvocation {
    type V = QueryView;

    open spec fn view(&self) -> QueryView {
        QueryView { predicate: self.predicate@, arguments: texts(self.arguments@) }
    }
}

impl QueryInvocation {
    /// Number of arguments that the predicate is called with.
    pub fn arity(&self) -> (n: usize)
        ensures
            n == self@.arity(),
    {
        self.arguments.len()
    }

    /// A call of a predicate that takes nothing.
    pub fn nullary(predicate: &str) -> (query: QueryInvocation)
        ensures
            query@ == QueryView::nullary(predicate@),
    {
        let query = QueryInvocation { predicate: String::from_str(predicate), arguments: Vec::new() };
        assert(query@.arguments =~= seq![]);
        query
    }

    /// A call of a predicate on one argument.
    pub fn unary(predicate: &str, argument: String) -> (query: QueryInvocation)
        ensures
            query@ == QueryView::unary(predicate@, argument@),
    {
        let mut arguments: Vec<String> = Vec::new();
        arguments.push(argument);
        let query = QueryInvocation { predicate: String::from_str(predicate), arguments };
        assert(query@.arguments =~= seq![argument@]);
        query
    }

    /// Ingest the file at `path`.
    pub fn consult(path: String) -> (query: QueryInvocation)
        ensures
            query@ == QueryView::consult(path@),
    {
        QueryInvocation::unary(CONSULT, path)
    }

    /// Ingest every ontology under `directory`.
    pub fn load_all_ontologies(directory: String) -> (query: QueryInvocation)
        ensures
            query@ == QueryView::load_all_ontologies(directory@),
    {
        QueryInvocation::unary(LOAD_ALL_ONTOLOGIES, directory)
    }

    /// Ingest the scenario `source_id`.
    pub fn load_scenario(source_id: String) -> (query: QueryInvocation)
        ensures
            query@ == QueryView::load_scenario(source_id@),
    {
        QueryInvocation::unary(LOAD_SCENARIO, source_id)
    }

    /// Run every suite.
    pub fn run_all_tests() -> (query: QueryInvocation)
        ensures
            query@ == QueryView::run_all_tests(),
    {
        QueryInvocation::nullary(RUN_ALL_TESTS)
    }

    /// Run the suite `name`.
    pub fn run_test_suite(name: String) -> (query: QueryInvocation)
        ensures
            query@ == QueryView::run_test_suite(name@),
    {
        QueryInvocation::unary(RUN_TEST_SUITE, name)
    }
}

} // verus!
