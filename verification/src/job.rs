//! Jobs: runs of steps against the engine that stop at the first failure.

use crate::error::{EngineError, ErrorView};
use crate::query::{QueryInvocation, QueryView};
use crate::step::{option_error, steps_view, Step, StepView};
use vstd::prelude::*;
use vstd::string::*;

verus! {

/// Mathematical value of an [`Action`].
pub enum ActionView {
    Probe { path: Seq<char> },
    Call { query: QueryView },
    Finish { result: Result<(), ErrorView> },
}

/// Mathematical value of a [`Reply`].
pub enum ReplyView {
    Exists(bool),
    Success,
    Failure { cause: Seq<char> },
}

/// Mathematical value of a [`Job`]: the steps to run in order, how many of
/// them the engine has completed, whether the file of the step in progress
/// has been found, and the error that ended the job, if one did.
pub struct JobView {
    pub root: Seq<char>,
    pub steps: Seq<StepView>,
    pub cursor: nat,
    pub probed: bool,
    pub failure: Option<ErrorView>,
}

impl JobView {
    /// A job that has not begun.
    pub open spec fn start(root: Seq<char>, steps: Seq<StepView>) -> JobView {
        JobView { root, steps, cursor: 0, probed: false, failure: None }
    }

    /// How the job ended, once it has: with the error of the step that
    /// failed, or well after the last step.
    pub open spec fn result(self) -> Option<Result<(), ErrorView>> {
        match self.failure {
            Some(error) => Some(Err(error)),
            None => if self.cursor >= self.steps.len() {
                Some(Ok(()))
            } else {
                None
            },
        }
    }

    /// Whether the job has ended.
    pub open spec fn finished(self) -> bool {
        self.result() is Some
    }

    /// The step in progress.
    pub open spec fn current(self) -> StepView
        recommends
            !self.finished(),
    {
        self.steps[self.cursor as int]
    }

    /// Whether the job waits to learn if the file of the step in progress
    /// exists.
    pub open spec fn probing(self) -> bool {
        !self.finished() && !self.probed && self.current().has_file()
    }

    /// The steps that the engine has completed.
    pub open spec fn completed(self) -> Seq<StepView> {
        if self.cursor >= self.steps.len() {
            self.steps
        } else {
            self.steps.take(self.cursor as int)
        }
    }

    /// What the host has to do next.
    pub open spec fn pending(self) -> ActionView {
        match self.result() {
            Some(result) => ActionView::Finish { result },
            None => if self.probing() {
                ActionView::Probe { path: self.current().target(self.root)->0 }
            } else {
                ActionView::Call { query: self.current().query(self.root) }
            },
        }
    }

    /// The job after the host has answered the pending action with `reply`.
    /// A job that has ended stays as it is, and so does one that is given a
    /// reply of the wrong kind.
    pub open spec fn deliver(self, reply: ReplyView) -> JobView {
        if self.finished() {
            self
        } else if self.probing() {
            match reply {
                ReplyView::Exists(true) => JobView { probed: true, ..self },
                ReplyView::Exists(false) => JobView {
                    failure: self.current().missing(self.root),
                    ..self
                },
                _ => self,
            }
        } else {
            match reply {
                ReplyView::Success => JobView {
                    cursor: self.cursor + 1,
                    probed: false,
                    ..self
                },
                ReplyView::Failure { cause } => JobView {
                    failure: Some(self.current().rejected(cause)),
                    ..self
                },
                _ => self,
            }
        }
    }

    /// The job after the host has given `replies`, one after the other.
    pub open spec fn drive(self, replies: Seq<ReplyView>) -> JobView
        decreases replies.len(),
    {
        if replies.len() == 0 {
            self
        } else {
            self.drive(replies.drop_last()).deliver(replies.last())
        }
    }

    /// Whether each of `replies` answers the action that was pending when
    /// it was given.
    pub open spec fn answered_by(self, replies: Seq<ReplyView>) -> bool {
        forall|i: int|
            0 <= i < replies.len() ==> replies[i].answers(
                (#[trigger] self.drive(replies.take(i))).pending(),
            )
    }

    /// Whether each of `replies` answers the action that was pending when
    /// it was given, and in the affirmative.
    pub open spec fn affirmed_by(self, replies: Seq<ReplyView>) -> bool {
        forall|i: int|
            0 <= i < replies.len() ==> replies[i] == (#[trigger] self.drive(
                replies.take(i),
            )).pending().affirmation()
    }
}

impl ActionView {
    /// The reply that answers the action in the affirmative: the file is
    /// there, the goal was proved.
    pub open spec fn affirmation(self) -> ReplyView {
        match self {
            ActionView::Probe { .. } => ReplyView::Exists(true),
            _ => ReplyView::Success,
        }
    }
}

impl ReplyView {
    /// Whether the reply is of the kind that `action` asks for.
    pub open spec fn answers(self, action: ActionView) -> bool {
        match action {
            ActionView::Probe { .. } => self is Exists,
            ActionView::Call { .. } => self is Success || self is Failure,
            ActionView::Finish { .. } => false,
        }
    }
}

/// What the host has to do for a job.
#[derive(Debug, PartialEq, Eq)]
pub enum Action {
    /// Find out whether a file exists at `path` and answer with
    /// [`Reply::Exists`].
    Probe { path: String },
    /// Submit `query` to the engine and answer with [`Reply::Success`] or
    /// [`Reply::Failure`].
    Call { query: QueryInvocation },
    /// Nothing more: the job has ended with `result`.
    Finish { result: Result<(), EngineError> },
}

impl View for Action {
    type V = ActionView;

    open spec fn view(&self) -> ActionView {
        match self {
            Action::Probe { path } => ActionView::Probe { path: path@ },
            Action::Call { query } => ActionView::Call { query: query@ },
            Action::Finish { result } => ActionView::Finish {
                result: match result {
                    Ok(_) => Ok(()),
                    Err(error) => Err(error@),
                },
            },
        }
    }
}

/// What the host found when it did what a job asked for.
#[derive(Debug, PartialEq, Eq)]
pub enum Reply {
    /// Whether the probed file exists.
    Exists(bool),
    /// The engine proved the goal.
    Success,
    /// The engine failed the goal or raised an exception, as `cause` tells.
    Failure { cause: String },
}

impl View for Reply {
    type V = ReplyView;

    open spec fn view(&self) -> ReplyView {
        match self {
            Reply::Exists(found) => ReplyView::Exists(*found),
            Reply::Success => ReplyView::Success,
            Reply::Failure { cause } => ReplyView::Failure { cause: cause@ },
        }
    }
}

/// A run of steps against the engine, in order, that stops at the first
/// step that fails. The job decides; the host acts. The host asks for the
/// pending action, performs it, hands the reply to [`Job::step`], and goes
/// on until the action is [`Action::Finish`].
pub struct Job {
    root: String,
    steps: Vec<Step>,
    cursor: usize,
    probed: bool,
    failure: Option<EngineError>,
}

impl View for Job {
    type V = JobView;

    closed spec fn view(&self) -> JobView {
        JobView {
            root: self.root@,
            steps: steps_view(self.steps@),
            cursor: self.cursor as nat,
            probed: self.probed,
            failure: option_error(self.failure),
        }
    }
}

impl Job {
    /// A job that runs `steps` in order, with files resolved against `root`.
    pub fn new(root: &str, steps: Vec<Step>) -> (job: Job)
        ensures
            job@ == JobView::start(root@, steps_view(steps@)),
    {
        Job { root: String::from_str(root), steps, cursor: 0, probed: false, failure: None }
    }

    /// Whether the job has ended.
    pub fn is_finished(&self) -> (answer: bool)
        ensures
            answer == self@.finished(),
    {
        !self.in_progress()
    }

    /// Whether a step is in progress.
    fn in_progress(&self) -> (answer: bool)
        ensures
            answer == !self@.finished(),
            answer ==> self.cursor < self.steps.len(),
    {
        self.failure.is_none() && self.cursor < self.steps.len()
    }

    /// Number of steps that the engine has completed.
    pub fn completed(&self) -> (count: usize)
        ensures
            count == self@.completed().len(),
    {
        if self.cursor >= self.steps.len() {
            self.steps.len()
        } else {
            self.cursor
        }
    }

    /// What the host has to do next.
    pub fn pending(&self) -> (action: Action)
        ensures
            action@ == self@.pending(),
    {
        match &self.failure {
            Some(error) => Action::Finish { result: Err(error.clone()) },
            None => if self.cursor >= self.steps.len() {
                Action::Finish { result: Ok(()) }
            } else {
                let step = &self.steps[self.cursor];
                match step.target(self.root.as_str()) {
                    Some(path) if !self.probed => Action::Probe { path },
                    _ => Action::Call { query: step.query(self.root.as_str()) },
                }
            },
        }
    }

    /// Whether the job waits to learn if the file of the step in progress
    /// exists.
    fn probing(&self) -> (answer: bool)
        ensures
            answer == self@.probing(),
    {
        self.in_progress() && !self.probed && self.steps[self.cursor].has_file()
    }

    /// Takes the host's reply to the pending action.
    pub fn deliver(&mut self, reply: Reply)
        ensures
            final(self)@ == old(self)@.deliver(reply@),
    {
        if !self.in_progress() {
            // A job that has ended takes no more replies.
        } else if self.probing() {
            match reply {
                Reply::Exists(true) => {
                    self.probed = true;
                },
                Reply::Exists(false) => {
                    self.failure = self.steps[self.cursor].missing(self.root.as_str());
                },
                _ => {},
            }
        } else {
            match reply {
                Reply::Success => {
                    self.cursor = self.cursor + 1;
                    self.probed = false;
                },
                Reply::Failure { cause } => {
                    self.failure = Some(self.steps[self.cursor].rejected(cause));
                },
                _ => {},
            }
        }
    }

    /// Takes the host's reply to the pending action and tells what to do
    /// next.
    pub fn step(&mut self, reply: Reply) -> (action: Action)
        ensures
            final(self)@ == old(self)@.deliver(reply@),
            action@ == old(self)@.deliver(reply@).pending(),
    {
        self.deliver(reply);
        self.pending()
    }
}

} // verus!
