//! The knowledge base is brought up layer by layer and the suites are run
//! against it, with a host in which every file exists and every goal is
//! proved.

use prolog_engine::activation::{ActivationManager, Directive, Signal};
use prolog_engine::engine::PrologEngine;
use prolog_engine::error::EngineError;
use prolog_engine::job::{Action, Job, Reply};
use prolog_engine::runtime::RuntimeInfo;

/// Activates the engine for a test.
fn setup_prolog_engine() -> ActivationManager {
    let info = RuntimeInfo {
        swi_home: "/usr/lib/swipl".to_string(),
        lib_dir: "/usr/lib/swipl/lib/x86_64-linux".to_string(),
        pack_so_dir: "lib/x86_64-linux".to_string(),
    };
    let mut manager = ActivationManager::new("/srv/netwits", info);
    assert_eq!(manager.activate(), Directive::Configure);
    assert_eq!(manager.report(Signal::Configured), Directive::Initialize);
    assert_eq!(manager.report(Signal::Initialized), Directive::Proceed);
    manager
}

/// Carries a job out against a host that finds every file and proves every
/// goal.
fn run(mut job: Job) -> Result<(), EngineError> {
    loop {
        let reply = match job.pending() {
            Action::Probe { .. } => Reply::Exists(true),
            Action::Call { .. } => Reply::Success,
            Action::Finish { result } => return result,
        };
        job.deliver(reply);
    }
}

#[test]
fn test_core_modules_load() {
    let engine = setup_prolog_engine();
    let context = engine.context().expect("an engine is active");

    run(PrologEngine::initialize(&context)).expect("Failed to initialize Prolog");

    run(PrologEngine::load_core_modules(&context)).expect("Failed to load core Prolog modules");
}

#[test]
fn test_ontologies_load() {
    let engine = setup_prolog_engine();
    let context = engine.context().expect("an engine is active");

    run(PrologEngine::initialize(&context)).expect("Failed to initialize Prolog");

    run(PrologEngine::load_core_modules(&context)).expect("Failed to load core modules");

    run(PrologEngine::load_ontologies(&context, "rdf/ontologies"))
        .expect("Failed to load ontologies");
}

#[test]
fn test_simple_scenario_loads() {
    let engine = setup_prolog_engine();
    let context = engine.context().expect("an engine is active");

    run(PrologEngine::initialize(&context)).expect("Failed to initialize Prolog");

    run(PrologEngine::load_core_modules(&context)).expect("Failed to load core modules");

    run(PrologEngine::load_ontologies(&context, "rdf/ontologies"))
        .expect("Failed to load ontologies");

    run(PrologEngine::load_scenario(&context, "rdf/scenarios/network/simple_network.ttl"))
        .expect("Failed to load simple network scenario");
}

#[test]
fn test_oz_scenario_loads() {
    let engine = setup_prolog_engine();
    let context = engine.context().expect("an engine is active");

    run(PrologEngine::initialize(&context)).expect("Failed to initialize Prolog");

    run(PrologEngine::load_core_modules(&context)).expect("Failed to load core modules");

    run(PrologEngine::load_ontologies(&context, "rdf/ontologies"))
        .expect("Failed to load ontologies");

    run(PrologEngine::load_scenario(&context, "rdf/scenarios/services/oz.ttl"))
        .expect("Failed to load oz service scenario");
}

#[test]
fn test_framework_suite() {
    let engine = setup_prolog_engine();
    let context = engine.context().expect("an engine is active");

    run(PrologEngine::initialize(&context)).expect("Failed to initialize Prolog");

    run(PrologEngine::load_core_modules(&context)).expect("Failed to load core modules");

    let simple_scenario = format!("{}/prolog/scenarios/simple_network.pl", context.root());
    run(PrologEngine::load_prolog_file(&context, &simple_scenario))
        .expect("Failed to load simple scenario predicates");

    run(PrologEngine::run_test_suite(&context, "framework"))
        .expect("Framework test suite failed");
}

#[test]
fn test_simple_scenario_suite() {
    let engine = setup_prolog_engine();
    let context = engine.context().expect("an engine is active");

    run(PrologEngine::initialize(&context)).expect("Failed to initialize Prolog");

    run(PrologEngine::load_core_modules(&context)).expect("Failed to load core modules");

    let simple_scenario = format!("{}/prolog/scenarios/simple_network.pl", context.root());
    run(PrologEngine::load_prolog_file(&context, &simple_scenario))
        .expect("Failed to load simple scenario predicates");

    run(PrologEngine::run_test_suite(&context, "simple_scenario"))
        .expect("Simple scenario test suite failed");
}

#[test]
fn test_ontology_suite() {
    let engine = setup_prolog_engine();
    let context = engine.context().expect("an engine is active");

    run(PrologEngine::initialize(&context)).expect("Failed to initialize Prolog");

    run(PrologEngine::load_core_modules(&context)).expect("Failed to load core modules");

    run(PrologEngine::load_ontologies(&context, "rdf/ontologies"))
        .expect("Failed to load ontologies");

    run(PrologEngine::load_scenario(&context, "rdf/scenarios/services/oz.ttl"))
        .expect("Failed to load oz scenario");

    run(PrologEngine::run_test_suite(&context, "ontology")).expect("Ontology test suite failed");
}

#[test]
fn test_intent_driven_suite() {
    let engine = setup_prolog_engine();
    let context = engine.context().expect("an engine is active");

    run(PrologEngine::initialize(&context)).expect("Failed to initialize Prolog");

    run(PrologEngine::load_core_modules(&context)).expect("Failed to load core modules");

    run(PrologEngine::load_ontologies(&context, "rdf/ontologies"))
        .expect("Failed to load ontologies");

    run(PrologEngine::load_scenarios(
        &context,
        &["rdf/scenarios/services/oz.ttl", "rdf/scenarios/network/simple_network.ttl"],
    ))
    .expect("Failed to load scenarios");

    run(PrologEngine::run_test_suite(&context, "intent_driven"))
        .expect("Intent-driven test suite failed");
}

#[test]
fn test_all_suites() {
    let engine = setup_prolog_engine();
    let context = engine.context().expect("an engine is active");

    run(PrologEngine::initialize(&context)).expect("Failed to initialize Prolog");

    run(PrologEngine::load_core_modules(&context)).expect("Failed to load core modules");

    run(PrologEngine::load_ontologies(&context, "rdf/ontologies"))
        .expect("Failed to load ontologies");

    run(PrologEngine::load_scenarios(
        &context,
        &[
            "rdf/scenarios/services/oz.ttl",
            "rdf/scenarios/network/simple_network.ttl",
            "rdf/scenarios/network/bt-uk.ttl",
        ],
    ))
    .expect("Failed to load scenarios");

    let simple_scenario = format!("{}/prolog/scenarios/simple_network.pl", context.root());
    run(PrologEngine::load_prolog_file(&context, &simple_scenario))
        .expect("Failed to load simple scenario predicates");

    run(PrologEngine::run_all_tests(&context)).expect("Test suite failed");
}
