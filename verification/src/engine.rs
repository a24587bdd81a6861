//! The operations on the engine: what each of them loads or runs, and in
//! which order.

use crate::activation::Context;
use crate::job::{Job, JobView};
use crate::path::{join, join_path};
use crate::source::{CoreModule, KnowledgeSource, SourceView, Tier};
use crate::step::{steps_view, Step, StepView};
use vstd::prelude::*;
use vstd::string::*;

verus! {

/// The step that loads the bootstrap source.
pub open spec fn bootstrap_step() -> StepView {
    StepView::Load { source: SourceView::bootstrap() }
}

/// The step that loads the source file `relative_path`.
pub open spec fn file_step(relative_path: Seq<char>) -> StepView {
    StepView::Load { source: SourceView { tier: Tier::CoreModule, id: relative_path } }
}

/// The steps that load the core modules, in load order.
pub open spec fn core_module_steps() -> Seq<StepView> {
    CoreModule::load_order().map_values(
        |module: CoreModule| StepView::Load { source: module.source_view() },
    )
}

/// The step that loads every ontology under `directory`.
pub open spec fn ontology_step(directory: Seq<char>) -> StepView {
    StepView::Load { source: SourceView { tier: Tier::Ontology, id: directory } }
}

/// The step that loads the scenario `source_id`.
pub open spec fn scenario_step(source_id: Seq<char>) -> StepView {
    StepView::Load { source: SourceView { tier: Tier::Scenario, id: source_id } }
}

/// The steps that load `scenarios`, in the order given.
pub open spec fn scenario_steps(scenarios: Seq<Seq<char>>) -> Seq<StepView> {
    scenarios.map_values(|source_id: Seq<char>| scenario_step(source_id))
}

/// The steps that bring the knowledge base up: the bootstrap source, the
/// core modules in load order, then the ontologies under `directory`.
pub open spec fn startup_steps(directory: Seq<char>) -> Seq<StepView> {
    seq![bootstrap_step()] + core_module_steps() + seq![ontology_step(directory)]
}

/// The views of a sequence of string slices.
pub open spec fn slice_texts(strings: Seq<&str>) -> Seq<Seq<char>> {
    strings.map_values(|s: &str| s@)
}

/// Adds the loads of the core modules to `steps`, in load order.
fn plan_core_modules(steps: &mut Vec<Step>)
    ensures
        steps_view(final(steps)@) == steps_view(old(steps)@) + core_module_steps(),
{
    let modules = CoreModule::in_load_order();
    let ghost planned = steps_view(steps@);
    let mut i: usize = 0;
    while i < 4
        invariant
            i <= 4,
            modules@ == CoreModule::load_order(),
            steps_view(steps@) =~= planned + core_module_steps().take(i as int),
        decreases 4 - i,
    {
        let ghost before = steps_view(steps@);
        steps.push(Step::Load { source: modules[i].source() });
        proof {
            let step = core_module_steps()[i as int];
            assert(steps_view(steps@) =~= before.push(step));
            assert(core_module_steps().take(i + 1) =~= core_module_steps().take(i as int).push(
                step,
            ));
        }
        i = i + 1;
    }
    assert(core_module_steps().take(4) =~= core_module_steps());
}

/// The operations of the orchestration layer. Each one plans the work and
/// hands back the job that carries it out.
pub struct PrologEngine;

impl PrologEngine {
    /// Loads the bootstrap source, which sets the engine's environment up.
    pub fn initialize(context: &Context) -> (job: Job)
        ensures
            job@ == JobView::start(context.root_view(), seq![bootstrap_step()]),
    {
        let mut steps: Vec<Step> = Vec::new();
        steps.push(Step::Load { source: KnowledgeSource::bootstrap() });
        assert(steps_view(steps@) =~= seq![bootstrap_step()]);
        Job::new(context.root(), steps)
    }

    /// Loads the core modules, each after the ones it depends on.
    pub fn load_core_modules(context: &Context) -> (job: Job)
        ensures
            job@ == JobView::start(context.root_view(), core_module_steps()),
    {
        let mut steps: Vec<Step> = Vec::new();
        plan_core_modules(&mut steps);
        assert(steps_view(steps@) =~= core_module_steps());
        Job::new(context.root(), steps)
    }

    /// Loads every ontology under `ontology_dir` as one unit: the engine
    /// walks the directory, and reports one success or one failure for all
    /// of it.
    pub fn load_ontologies(context: &Context, ontology_dir: &str) -> (job: Job)
        ensures
            job@ == JobView::start(context.root_view(), seq![ontology_step(ontology_dir@)]),
    {
        let mut steps: Vec<Step> = Vec::new();
        steps.push(Step::Load { source: KnowledgeSource::new(Tier::Ontology, ontology_dir) });
        assert(steps_view(steps@) =~= seq![ontology_step(ontology_dir@)]);
        Job::new(context.root(), steps)
    }

    /// Loads one scenario.
    pub fn load_scenario(context: &Context, scenario_path: &str) -> (job: Job)
        ensures
            job@ == JobView::start(context.root_view(), seq![scenario_step(scenario_path@)]),
    {
        let mut steps: Vec<Step> = Vec::new();
        steps.push(Step::Load { source: KnowledgeSource::new(Tier::Scenario, scenario_path) });
        assert(steps_view(steps@) =~= seq![scenario_step(scenario_path@)]);
        Job::new(context.root(), steps)
    }

    /// Loads `scenarios` one after the other, in the order given.
    pub fn load_scenarios(context: &Context, scenarios: &[&str]) -> (job: Job)
        ensures
            job@ == JobView::start(context.root_view(), scenario_steps(slice_texts(scenarios@))),
    {
        let mut steps: Vec<Step> = Vec::new();
        let mut i: usize = 0;
        while i < scenarios.len()
            invariant
                i <= scenarios.len(),
                steps_view(steps@) =~= scenario_steps(slice_texts(scenarios@)).take(i as int),
            decreases scenarios.len() - i,
        {
            let ghost loaded = steps_view(steps@);
            let ghost planned = scenario_steps(slice_texts(scenarios@));
            steps.push(Step::Load { source: KnowledgeSource::new(Tier::Scenario, scenarios[i]) });
            proof {
                let step = planned[i as int];
                assert(steps_view(steps@) =~= loaded.push(step));
                assert(planned.take(i + 1) =~= planned.take(i as int).push(step));
            }
            i = i + 1;
        }
        assert(steps_view(steps@) =~= scenario_steps(slice_texts(scenarios@)));
        Job::new(context.root(), steps)
    }

    /// Brings the knowledge base up: the bootstrap source, the core modules
    /// in load order, then the ontologies under `ontology_dir`.
    pub fn startup(context: &Context, ontology_dir: &str) -> (job: Job)
        ensures
            job@ == JobView::start(context.root_view(), startup_steps(ontology_dir@)),
    {
        let mut steps: Vec<Step> = Vec::new();
        steps.push(Step::Load { source: KnowledgeSource::bootstrap() });
        assert(steps_view(steps@) =~= seq![bootstrap_step()]);
        plan_core_modules(&mut steps);
        let ghost planned = steps_view(steps@);
        steps.push(Step::Load { source: KnowledgeSource::new(Tier::Ontology, ontology_dir) });
        assert(steps_view(steps@) =~= planned.push(ontology_step(ontology_dir@)));
        assert(steps_view(steps@) =~= startup_steps(ontology_dir@));
        Job::new(context.root(), steps)
    }

    /// Loads the source file `relative_path`: the job resolves it against
    /// the knowledge-base root, has the host check that the file exists,
    /// and only then hands it to the engine.
    pub fn load_prolog_file(context: &Context, relative_path: &str) -> (job: Job)
        ensures
            job@ == JobView::start(context.root_view(), seq![file_step(relative_path@)]),
    {
        let mut steps: Vec<Step> = Vec::new();
        steps.push(Step::Load { source: KnowledgeSource::new(Tier::CoreModule, relative_path) });
        assert(steps_view(steps@) =~= seq![file_step(relative_path@)]);
        Job::new(context.root(), steps)
    }

    /// Where the source file `relative_path` lies: below the knowledge-base
    /// root, unless the path is absolute.
    pub fn prolog_file_path(context: &Context, relative_path: &str) -> (path: String)
        ensures
            path@ == join_path(context.root_view(), relative_path@),
    {
        join(context.root(), relative_path)
    }

    /// Runs every suite.
    pub fn run_all_tests(context: &Context) -> (job: Job)
        ensures
            job@ == JobView::start(context.root_view(), seq![StepView::RunAll]),
    {
        let mut steps: Vec<Step> = Vec::new();
        steps.push(Step::RunAll);
        assert(steps_view(steps@) =~= seq![StepView::RunAll]);
        Job::new(context.root(), steps)
    }

    /// Runs the suite `suite_name`.
    pub fn run_test_suite(context: &Context, suite_name: &str) -> (job: Job)
        ensures
            job@ == JobView::start(
                context.root_view(),
                seq![StepView::RunSuite { name: suite_name@ }],
            ),
    {
        let mut steps: Vec<Step> = Vec::new();
        steps.push(Step::RunSuite { name: String::from_str(suite_name) });
        assert(steps_view(steps@) =~= seq![StepView::RunSuite { name: suite_name@ }]);
        Job::new(context.root(), steps)
    }
}

} // verus!
