//! The units of work that a job is made of.

use crate::error::{EngineError, ErrorView};
use crate::path::{join, join_path};
use crate::query::{QueryInvocation, QueryView};
use crate::source::{KnowledgeSource, SourceView, Tier};
use vstd::prelude::*;
use vstd::string::*;

verus! {

/// The view of a string that may be absent.
pub open spec fn option_text(text: Option<String>) -> Option<Seq<char>> {
    match text {
        Some(text) => Some(text@),
        None => None,
    }
}

/// The view of an error that may be absent.
pub open spec fn option_error(error: Option<EngineError>) -> Option<ErrorView> {
    match error {
        Some(error) => Some(error@),
        None => None,
    }
}

/// Mathematical value of a [`Step`].
pub enum StepView {
    Load { source: SourceView },
    RunSuite { name: Seq<char> },
    RunAll,
}

impl StepView {
    /// Whether the step ingests a file of the loader's own: a load of a
    /// file-based tier.
    pub open spec fn has_file(self) -> bool {
        self matches StepView::Load { source } && source.tier.is_file_based()
    }

    /// The file that the step checks for existence and then ingests: the
    /// source identifier resolved against the knowledge-base root. Only
    /// loads of a file-based tier have one.
    pub open spec fn target(self, root: Seq<char>) -> Option<Seq<char>> {
        if self.has_file() {
            Some(join_path(root, self->source.id))
        } else {
            None
        }
    }

    /// The goal that the step submits to the engine.
    pub open spec fn query(self, root: Seq<char>) -> QueryView {
        match self {
            StepView::Load { source } => match source.tier {
                Tier::Bootstrap | Tier::CoreModule => QueryView::consult(
                    join_path(root, source.id),
                ),
                Tier::Ontology => QueryView::load_all_ontologies(source.id),
                Tier::Scenario => QueryView::load_scenario(source.id),
            },
            StepView::RunSuite { name } => QueryView::run_test_suite(name),
            StepView::RunAll => QueryView::run_all_tests(),
        }
    }

    /// The error of a step whose file does not exist, for the steps that
    /// have one.
    pub open spec fn missing(self, root: Seq<char>) -> Option<ErrorView> {
        if self.has_file() {
            Some(
                ErrorView::NotFound {
                    source_id: self->source.id,
                    path: join_path(root, self->source.id),
                },
            )
        } else {
            None
        }
    }

    /// The error of a step whose goal the engine reported as failed, for the
    /// reason `cause`.
    pub open spec fn rejected(self, cause: Seq<char>) -> ErrorView {
        match self {
            StepView::Load { source } => ErrorView::LoadFailed { source_id: source.id, cause },
            StepView::RunSuite { name } => ErrorView::TestFailure { suite: Some(name), cause },
            StepView::RunAll => ErrorView::TestFailure { suite: None, cause },
        }
    }
}

/// One unit of work against the engine.
#[derive(Debug, PartialEq, Eq)]
pub enum Step {
    /// Ingest a knowledge source.
    Load { source: KnowledgeSource },
    /// Run the suite `name`.
    RunSuite { name: String },
    /// Run every suite.
    RunAll,
}

impl View for Step {
    type V = StepView;

    open spec fn view(&self) -> StepView {
        match self {
            Step::Load { source } => StepView::Load { source: source@ },
            Step::RunSuite { name } => StepView::RunSuite { name: name@ },
            Step::RunAll => StepView::RunAll,
        }
    }
}

impl Step {
    /// Whether the step ingests a file of the loader's own.
    pub fn has_file(&self) -> (answer: bool)
        ensures
            answer == self@.has_file(),
    {
        match self {
            Step::Load { source } => source.tier.file_based(),
            _ => false,
        }
    }

    /// The file that the step checks for existence and then ingests, for
    /// the steps that have one.
    pub fn target(&self, root: &str) -> (path: Option<String>)
        ensures
            option_text(path) == self@.target(root@),
    {
        match self {
            Step::Load { source } => if source.tier.file_based() {
                Some(join(root, source.id.as_str()))
            } else {
                None
            },
            _ => None,
        }
    }

    /// The goal that the step submits to the engine.
    pub fn query(&self, root: &str) -> (query: QueryInvocation)
        ensures
            query@ == self@.query(root@),
    {
        match self {
            Step::Load { source } => match source.tier {
                Tier::Bootstrap | Tier::CoreModule => QueryInvocation::consult(
                    join(root, source.id.as_str()),
                ),
                Tier::Ontology => QueryInvocation::load_all_ontologies(source.id.clone()),
                Tier::Scenario => QueryInvocation::load_scenario(source.id.clone()),
            },
            Step::RunSuite { name } => QueryInvocation::run_test_suite(name.clone()),
            Step::RunAll => QueryInvocation::run_all_tests(),
        }
    }

    /// The error of a step whose file does not exist, for the steps that
    /// have one.
    pub fn missing(&self, root: &str) -> (error: Option<EngineError>)
        ensures
            option_error(error) == self@.missing(root@),
    {
        match self {
            Step::Load { source } => if source.tier.file_based() {
                Some(
                    EngineError::NotFound {
                        source_id: source.id.clone(),
                        path: join(root, source.id.as_str()),
                    },
                )
            } else {
                None
            },
            _ => None,
        }
    }

    /// The error of a step whose goal the engine reported as failed.
    pub fn rejected(&self, cause: String) -> (error: EngineError)
        ensures
            error@ == self@.rejected(cause@),
    {
        match self {
            Step::Load { source } => EngineError::LoadFailed {
                source_id: source.id.clone(),
                cause,
            },
            Step::RunSuite { name } => EngineError::TestFailure {
                suite: Some(name.clone()),
                cause,
            },
            Step::RunAll => EngineError::TestFailure { suite: None, cause },
        }
    }
}

/// The views of a sequence of steps.
pub open spec fn steps_view(steps: Seq<Step>) -> Seq<StepView> {
    steps.map_values(|step: Step| step@)
}

} // verus!
