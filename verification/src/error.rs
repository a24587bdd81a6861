//! Errors of the orchestration layer.

use vstd::prelude::*;
use vstd::string::*;

verus! {

/// Mathematical value of an [`EngineError`].
pub enum ErrorView {
    ActivationFailure,
    NotFound { source_id: Seq<char>, path: Seq<char> },
    LoadFailed { source_id: Seq<char>, cause: Seq<char> },
    TestFailure { suite: Option<Seq<char>>, cause: Seq<char> },
}

impl ErrorView {
    /// The one-line text shown for this error: what was being attempted,
    /// then what went wrong.
    pub open spec fn message(self) -> Seq<char> {
        match self {
            ErrorView::ActivationFailure => "Failed to activate the Prolog engine"@,
            ErrorView::NotFound { source_id, path } => "Prolog file does not exist: "@ + path
                + " (source "@ + source_id + ")"@,
            ErrorView::LoadFailed { source_id, cause } => "Failed to load "@ + source_id + ": "@
                + cause,
            ErrorView::TestFailure { suite: Some(name), cause } => "Test suite '"@ + name
                + "' failed: "@ + cause,
            ErrorView::TestFailure { suite: None, cause } => "Test suite failed: "@ + cause,
        }
    }
}

/// What can go wrong while bringing the engine up, loading knowledge into it
/// and running suites against it.
#[derive(Debug, PartialEq, Eq)]
pub enum EngineError {
    /// The runtime could not be activated by any path.
    ActivationFailure,
    /// The knowledge source `source_id` resolved to `path`, where nothing exists.
    NotFound { source_id: String, path: String },
    /// The engine rejected the knowledge source `source_id`.
    LoadFailed { source_id: String, cause: String },
    /// The named suite, or the run of all suites when `suite` is `None`,
    /// reported failure.
    TestFailure { suite: Option<String>, cause: String },
}

impl View for EngineError {
    type V = ErrorView;

    open spec fn view(&self) -> ErrorView {
        match self {
            EngineError::ActivationFailure => ErrorView::ActivationFailure,
            EngineError::NotFound { source_id, path } => ErrorView::NotFound {
                source_id: source_id@,
                path: path@,
            },
            EngineError::LoadFailed { source_id, cause } => ErrorView::LoadFailed {
                source_id: source_id@,
                cause: cause@,
            },
            EngineError::TestFailure { suite, cause } => ErrorView::TestFailure {
                suite: match suite {
                    Some(name) => Some(name@),
                    None => None,
                },
                cause: cause@,
            },
        }
    }
}

impl Clone for EngineError {
    fn clone(&self) -> (copy: Self)
        ensures
            copy@ == self@,
    {
        match self {
            EngineError::ActivationFailure => EngineError::ActivationFailure,
            EngineError::NotFound { source_id, path } => EngineError::NotFound {
                source_id: source_id.clone(),
                path: path.clone(),
            },
            EngineError::LoadFailed { source_id, cause } => EngineError::LoadFailed {
                source_id: source_id.clone(),
                cause: cause.clone(),
            },
            EngineError::TestFailure { suite, cause } => EngineError::TestFailure {
                suite: match suite {
                    Some(name) => Some(name.clone()),
                    None => None,
                },
                cause: cause.clone(),
            },
        }
    }
}

impl EngineError {
    /// The one-line text to show for this error.
    pub fn message(&self) -> (text: String)
        ensures
            text@ == self@.message(),
    {
        match self {
            EngineError::ActivationFailure => String::from_str(
                "Failed to activate the Prolog engine",
            ),
            EngineError::NotFound { source_id, path } => {
                let mut text = String::from_str("Prolog file does not exist: ");
                text.append(path.as_str());
                text.append(" (source ");
                text.append(source_id.as_str());
                text.append(")");
                text
            },
            EngineError::LoadFailed { source_id, cause } => {
                let mut text = String::from_str("Failed to load ");
                text.append(source_id.as_str());
                text.append(": ");
                text.append(cause.as_str());
                text
            },
            EngineError::TestFailure { suite: Some(name), cause } => {
                let mut text = String::from_str("Test suite '");
                text.append(name.as_str());
                text.append("' failed: ");
                text.append(cause.as_str());
                text
            },
            EngineError::TestFailure { suite: None, cause } => {
                let mut text = String::from_str("Test suite failed: ");
                text.append(cause.as_str());
                text
            },
        }
    }
}

} // verus!
