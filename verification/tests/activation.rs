//! The activation manager: the environment first, one initialisation,
//! reuse afterwards, and no context without an active engine.

use prolog_engine::activation::{ActivationManager, Directive, Lifecycle, Signal};
use prolog_engine::error::EngineError;
use prolog_engine::runtime::RuntimeInfo;

fn manager(root: &str) -> ActivationManager {
    let info = RuntimeInfo {
        swi_home: "/usr/lib/swipl".to_string(),
        lib_dir: "/usr/lib/swipl/lib/x86_64-linux".to_string(),
        pack_so_dir: "lib/x86_64-linux".to_string(),
    };
    ActivationManager::new(root, info)
}

fn configured(root: &str) -> ActivationManager {
    let mut manager = manager(root);
    assert_eq!(manager.report(Signal::Configured), Directive::Initialize);
    manager
}

fn pair(name: &str, value: &str) -> (String, String) {
    (name.to_string(), value.to_string())
}

#[test]
fn environment_is_configured_before_the_runtime_is_initialised() {
    let mut manager = manager("/srv/netwits");
    assert_eq!(manager.state(), Lifecycle::Dormant);
    assert_eq!(manager.activate(), Directive::Configure);
    assert_eq!(manager.report(Signal::Initialized), Directive::Configure);
    assert_eq!(manager.state(), Lifecycle::Dormant);
    assert_eq!(manager.report(Signal::Configured), Directive::Initialize);
    assert_eq!(manager.state(), Lifecycle::Configured);
}

#[test]
fn manager_gives_the_environment_of_its_runtime() {
    let manager = manager("/srv/netwits");
    assert_eq!(
        manager.environment(),
        vec![
            pair("SWI_HOME_DIR", "/usr/lib/swipl"),
            pair("PLBASE", "/usr/lib/swipl"),
            pair("SWI_LIB_DIR", "/usr/lib/swipl/lib/x86_64-linux"),
            pair("PLLIBDIR", "/usr/lib/swipl/lib/x86_64-linux"),
            pair("SWI_PACK_SO_DIR", "lib/x86_64-linux"),
            pair("SWIPL_BOOT_FILE", "/usr/lib/swipl/boot.prc"),
        ]
    );
}

#[test]
fn fresh_runtime_is_initialised_and_then_active() {
    let mut manager = configured("/srv/netwits");
    assert_eq!(manager.activate(), Directive::Initialize);
    assert_eq!(manager.report(Signal::Initialized), Directive::Proceed);
    assert_eq!(manager.state(), Lifecycle::Active);
    let context = manager.context().expect("an engine is active");
    assert_eq!(context.root(), "/srv/netwits");
}

#[test]
fn runtime_initialised_elsewhere_is_reused() {
    let mut manager = configured("/srv/netwits");
    assert_eq!(manager.report(Signal::AlreadyInitialized), Directive::Attach);
    assert_eq!(manager.state(), Lifecycle::Attaching);
    assert_eq!(manager.activate(), Directive::Attach);
    assert_eq!(manager.report(Signal::Attached), Directive::Proceed);
    assert!(manager.context().is_ok());
}

#[test]
fn activating_twice_is_the_same_as_activating_once() {
    let mut manager = configured("/srv/netwits");
    assert_eq!(manager.activate(), Directive::Initialize);
    assert_eq!(manager.report(Signal::Initialized), Directive::Proceed);
    let first = manager.context().expect("an engine is active").root().to_string();

    assert_eq!(manager.activate(), Directive::Proceed);
    assert_eq!(manager.activate(), Directive::Proceed);
    assert_eq!(manager.state(), Lifecycle::Active);
    let second = manager.context().expect("an engine is active").root().to_string();
    assert_eq!(first, second);
    assert_eq!(first, "/srv/netwits");
}

#[test]
fn active_engine_is_not_disturbed_by_late_signals() {
    let mut manager = configured("/kb");
    manager.report(Signal::Initialized);
    assert_eq!(manager.report(Signal::Configured), Directive::Proceed);
    assert_eq!(manager.report(Signal::Initialized), Directive::Proceed);
    assert_eq!(manager.report(Signal::AlreadyInitialized), Directive::Proceed);
    assert_eq!(manager.report(Signal::Unavailable), Directive::Proceed);
    assert_eq!(manager.report(Signal::Attached), Directive::Proceed);
    assert_eq!(manager.state(), Lifecycle::Active);
}

#[test]
fn no_context_before_activation_completes() {
    let mut manager = manager("/kb");
    assert_eq!(manager.context().err(), Some(EngineError::ActivationFailure));
    manager.report(Signal::Configured);
    assert_eq!(manager.context().err(), Some(EngineError::ActivationFailure));
    manager.report(Signal::AlreadyInitialized);
    assert_eq!(manager.context().err(), Some(EngineError::ActivationFailure));
}

#[test]
fn runtime_that_cannot_start_is_an_activation_failure() {
    let mut manager = configured("/kb");
    assert_eq!(manager.report(Signal::Unavailable), Directive::Abort);
    assert_eq!(manager.state(), Lifecycle::Failed);
    assert_eq!(manager.activate(), Directive::Abort);
    assert_eq!(manager.context().err(), Some(EngineError::ActivationFailure));
}

#[test]
fn engine_that_cannot_be_attached_is_an_activation_failure() {
    let mut manager = configured("/kb");
    manager.report(Signal::AlreadyInitialized);
    assert_eq!(manager.report(Signal::Unavailable), Directive::Abort);
    assert_eq!(manager.report(Signal::Attached), Directive::Abort);
    assert_eq!(manager.report(Signal::Initialized), Directive::Abort);
    assert_eq!(manager.state(), Lifecycle::Failed);
}

#[test]
fn signal_that_answers_nothing_is_ignored() {
    let mut manager = manager("/kb");
    assert_eq!(manager.report(Signal::Attached), Directive::Configure);
    assert_eq!(manager.report(Signal::Unavailable), Directive::Configure);
    assert_eq!(manager.state(), Lifecycle::Dormant);
    manager.report(Signal::Configured);
    assert_eq!(manager.report(Signal::Attached), Directive::Initialize);
    assert_eq!(manager.report(Signal::Configured), Directive::Initialize);
    manager.report(Signal::AlreadyInitialized);
    assert_eq!(manager.report(Signal::Initialized), Directive::Attach);
    assert_eq!(manager.report(Signal::AlreadyInitialized), Directive::Attach);
    assert_eq!(manager.state(), Lifecycle::Attaching);
}

#[test]
fn shutdown_ends_the_activation_for_good() {
    let mut manager = configured("/kb");
    manager.report(Signal::Initialized);
    manager.shutdown();
    assert_eq!(manager.state(), Lifecycle::Closed);
    assert_eq!(manager.activate(), Directive::Abort);
    assert_eq!(manager.report(Signal::Configured), Directive::Abort);
    assert_eq!(manager.report(Signal::Initialized), Directive::Abort);
    assert_eq!(manager.context().err(), Some(EngineError::ActivationFailure));
}
