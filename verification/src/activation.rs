//! The activation manager: brings the embedded runtime up once for the
//! process, reuses a runtime that is already running, and lends out the
//! context through which work is issued.

use crate::error::EngineError;
use crate::runtime::{configure_runtime, runtime_environment, settings_view, RuntimeInfo, RuntimeInfoView};
use vstd::prelude::*;
use vstd::string::*;

verus! {

/// Where the process stands with the embedded runtime.
#[derive(Clone, Copy, Debug, PartialEq, Eq, Structural)]
pub enum Lifecycle {
    /// Nothing has been done for the runtime yet.
    Dormant,
    /// The environment that the runtime reads is in place.
    Configured,
    /// The runtime was found initialised by another part of the process;
    /// its main engine is still to be attached.
    Attaching,
    /// An engine is bound to the process and may be given work.
    Active,
    /// No way of activating the runtime succeeded.
    Failed,
    /// The activation has been torn down.
    Closed,
}

/// What the host learned when it did as directed.
#[derive(Clone, Copy, Debug, PartialEq, Eq, Structural)]
pub enum Signal {
    /// The runtime's environment has been set.
    Configured,
    /// The runtime was initialised just now and its main engine is active.
    Initialized,
    /// The runtime had been initialised before; nothing was done.
    AlreadyInitialized,
    /// The main engine of the running runtime was attached.
    Attached,
    /// The runtime could not do what was asked.
    Unavailable,
}

/// What the host has to do next to get an active engine.
#[derive(Clone, Copy, Debug, PartialEq, Eq, Structural)]
pub enum Directive {
    /// Set the runtime's environment, as [`ActivationManager::environment`]
    /// gives it.
    Configure,
    /// Initialise the runtime.
    Initialize,
    /// Attach to the main engine of the runtime that is already running.
    Attach,
    /// Nothing: an engine is active and its context may be used.
    Proceed,
    /// Nothing: there is no engine to work with, and there will be none.
    Abort,
}

impl Lifecycle {
    /// What the host has to do in this state.
    pub open spec fn directive(self) -> Directive {
        match self {
            Lifecycle::Dormant => Directive::Configure,
            Lifecycle::Configured => Directive::Initialize,
            Lifecycle::Attaching => Directive::Attach,
            Lifecycle::Active => Directive::Proceed,
            Lifecycle::Failed => Directive::Abort,
            Lifecycle::Closed => Directive::Abort,
        }
    }

    /// The state after the host has reported `signal`. A signal that does
    /// not answer the directive of the state changes nothing.
    pub open spec fn after(self, signal: Signal) -> Lifecycle {
        match (self, signal) {
            (Lifecycle::Dormant, Signal::Configured) => Lifecycle::Configured,
            (Lifecycle::Configured, Signal::Initialized) => Lifecycle::Active,
            (Lifecycle::Configured, Signal::AlreadyInitialized) => Lifecycle::Attaching,
            (Lifecycle::Configured, Signal::Unavailable) => Lifecycle::Failed,
            (Lifecycle::Attaching, Signal::Attached) => Lifecycle::Active,
            (Lifecycle::Attaching, Signal::Unavailable) => Lifecycle::Failed,
            _ => self,
        }
    }

    /// The state after the host has reported `signals`, one after the other.
    pub open spec fn after_all(self, signals: Seq<Signal>) -> Lifecycle
        decreases signals.len(),
    {
        if signals.len() == 0 {
            self
        } else {
            self.after_all(signals.drop_last()).after(signals.last())
        }
    }

    /// Whether the runtime has been asked to start: every state from the
    /// first attempt to initialise it onwards.
    pub open spec fn started(self) -> bool {
        self != Lifecycle::Dormant && self != Lifecycle::Configured
    }
}

/// The handle through which work is issued to the active engine. The
/// activation manager lends one out only while an engine is active, so to
/// hold a context is to know that activation has completed, and the manager
/// cannot be torn down while one is held.
pub struct Context<'a> {
    root: &'a str,
}

impl<'a> Context<'a> {
    /// The knowledge-base root directory of the process.
    pub closed spec fn root_view(&self) -> Seq<char> {
        self.root@
    }

    /// The knowledge-base root directory of the process.
    pub fn root(&self) -> (root: &'a str)
        ensures
            root@ == self.root_view(),
    {
        self.root
    }
}

/// Brings the embedded runtime up once for the process and owns the state
/// of that activation.
pub struct ActivationManager {
    root: String,
    info: RuntimeInfo,
    state: Lifecycle,
}

impl ActivationManager {
    /// The knowledge-base root directory that contexts will carry.
    pub closed spec fn root_view(&self) -> Seq<char> {
        self.root@
    }

    /// Where the installed runtime lives.
    pub closed spec fn info_view(&self) -> RuntimeInfoView {
        self.info@
    }

    /// Where the activation stands.
    pub closed spec fn lifecycle(&self) -> Lifecycle {
        self.state
    }

    /// A manager for the runtime that `info` describes, with nothing done
    /// yet, and with the knowledge base under `root`.
    pub fn new(root: &str, info: RuntimeInfo) -> (manager: ActivationManager)
        ensures
            manager.lifecycle() == Lifecycle::Dormant,
            manager.root_view() == root@,
            manager.info_view() == info@,
    {
        ActivationManager { root: String::from_str(root), info, state: Lifecycle::Dormant }
    }

    /// Where the activation stands.
    pub fn state(&self) -> (state: Lifecycle)
        ensures
            state == self.lifecycle(),
    {
        self.state
    }

    /// The variables to set when the directive is to configure: each with
    /// its value, in the order in which they are to be set.
    pub fn environment(&self) -> (settings: Vec<(String, String)>)
        ensures
            settings_view(settings@) == runtime_environment(self.info_view()),
    {
        configure_runtime(&self.info)
    }

    /// What the host has to do to get an active engine. Asking changes
    /// nothing, so it may be done at every call site that needs the
    /// engine: once the engine is active the answer is to proceed.
    pub fn activate(&self) -> (directive: Directive)
        ensures
            directive == self.lifecycle().directive(),
    {
        match self.state {
            Lifecycle::Dormant => Directive::Configure,
            Lifecycle::Configured => Directive::Initialize,
            Lifecycle::Attaching => Directive::Attach,
            Lifecycle::Active => Directive::Proceed,
            Lifecycle::Failed => Directive::Abort,
            Lifecycle::Closed => Directive::Abort,
        }
    }

    /// Takes what the host learned when it did as directed, and tells what
    /// to do next.
    pub fn report(&mut self, signal: Signal) -> (directive: Directive)
        ensures
            final(self).lifecycle() == old(self).lifecycle().after(signal),
            final(self).root_view() == old(self).root_view(),
            final(self).info_view() == old(self).info_view(),
            directive == final(self).lifecycle().directive(),
    {
        let next = match (self.state, signal) {
            (Lifecycle::Dormant, Signal::Configured) => Lifecycle::Configured,
            (Lifecycle::Configured, Signal::Initialized) => Lifecycle::Active,
            (Lifecycle::Configured, Signal::AlreadyInitialized) => Lifecycle::Attaching,
            (Lifecycle::Configured, Signal::Unavailable) => Lifecycle::Failed,
            (Lifecycle::Attaching, Signal::Attached) => Lifecycle::Active,
            (Lifecycle::Attaching, Signal::Unavailable) => Lifecycle::Failed,
            (state, _) => state,
        };
        self.state = next;
        self.activate()
    }

    /// The context of the active engine. There is one exactly while an
    /// engine is active; before activation has completed, after it has
    /// failed and after teardown the answer is an activation failure.
    pub fn context(&self) -> (context: Result<Context<'_>, EngineError>)
        ensures
            context is Ok <==> self.lifecycle() == Lifecycle::Active,
            context matches Ok(context) ==> context.root_view() == self.root_view(),
            context matches Err(error) ==> error == EngineError::ActivationFailure,
    {
        match self.state {
            Lifecycle::Active => Ok(Context { root: self.root.as_str() }),
            _ => Err(EngineError::ActivationFailure),
        }
    }

    /// Tears the activation down. No context is lent out afterwards, and
    /// the runtime is not brought up again.
    pub fn shutdown(&mut self)
        ensures
            final(self).lifecycle() == Lifecycle::Closed,
            final(self).root_view() == old(self).root_view(),
            final(self).info_view() == old(self).info_view(),
    {
        self.state = Lifecycle::Closed;
    }
}

} // verus!
