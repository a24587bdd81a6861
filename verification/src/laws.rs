//! What holds of every job and of every activation, proved over their
//! mathematical values.

use crate::activation::{Directive, Lifecycle, Signal};
use crate::engine::{core_module_steps, scenario_step, scenario_steps, startup_steps};
use crate::error::ErrorView;
use crate::job::{ActionView, JobView, ReplyView};
use crate::path::{is_absolute, join_path};
use crate::query::QueryView;
use crate::source::CoreModule;
use crate::step::StepView;
use vstd::prelude::*;

verus! {

/// A job that has ended stays ended: whatever the host replies afterwards,
/// the job does not change, keeps its result, and asks for nothing more.
/// No step is retried and none after a failed one is begun.
pub proof fn ended_job_stays_ended(job: JobView, replies: Seq<ReplyView>)
    requires
        job.finished(),
    ensures
        job.drive(replies) == job,
        job.drive(replies).pending() == (ActionView::Finish { result: job.result()->0 }),
    decreases replies.len(),
{
    if replies.len() > 0 {
        ended_job_stays_ended(job, replies.drop_last());
    }
}

/// Whatever the host replies, a job keeps its root and its steps, the
/// completed steps are the first ones of the plan in their order, and an
/// error is that of the first step that was not completed: its file was
/// missing or the engine rejected it.
pub proof fn job_follows_its_plan(root: Seq<char>, steps: Seq<StepView>, replies: Seq<ReplyView>)
    ensures
        ({
            let job = JobView::start(root, steps).drive(replies);
            &&& job.root == root
            &&& job.steps == steps
            &&& job.cursor <= steps.len()
            &&& job.completed() == steps.take(job.cursor as int)
            &&& job.failure matches Some(error) ==> {
                &&& job.cursor < steps.len()
                &&& (job.current().missing(root) == Some(error) || exists|cause: Seq<char>|
                    #[trigger] job.current().rejected(cause) == error)
            }
        }),
    decreases replies.len(),
{
    let start = JobView::start(root, steps);
    if replies.len() == 0 {
        assert(steps.take(0) =~= start.completed());
    } else {
        job_follows_its_plan(root, steps, replies.drop_last());
        let before = start.drive(replies.drop_last());
        let job = before.deliver(replies.last());
        assert(job.completed() =~= steps.take(job.cursor as int));
        if before.failure is None && job.failure is Some && !before.probing() {
            let cause = replies.last()->cause;
            assert(before.current().rejected(cause) == job.failure->0);
        }
    }
}

/// Knowledge only grows: the steps that the engine had completed before
/// the host gave `replies` are still the first of those completed after.
pub proof fn completed_steps_stay(job: JobView, replies: Seq<ReplyView>)
    ensures
        job.completed().is_prefix_of(job.drive(replies).completed()),
    decreases replies.len(),
{
    if replies.len() > 0 {
        completed_steps_stay(job, replies.drop_last());
        let before = job.drive(replies.drop_last());
        let after = before.deliver(replies.last());
        assert(before.completed() =~= after.completed().subrange(
            0,
            before.completed().len() as int,
        ));
    }
}

/// A job ends with `NotFound` exactly when the host answers its probe by
/// saying that the file does not exist. The error then names the source
/// that was being loaded and the path that it resolved to.
pub proof fn not_found_iff_file_is_absent(job: JobView, reply: ReplyView)
    requires
        !job.finished(),
    ensures
        (job.deliver(reply).failure matches Some(error) && error is NotFound) <==> (
        job.pending() is Probe && reply == ReplyView::Exists(false)),
        job.pending() is Probe && reply == ReplyView::Exists(false) ==> {
            &&& job.current() matches StepView::Load { source }
            &&& job.pending() == (ActionView::Probe { path: join_path(job.root, source.id) })
            &&& job.deliver(reply).result() == Some(
                Err::<(), ErrorView>(
                    ErrorView::NotFound {
                        source_id: source.id,
                        path: join_path(job.root, source.id),
                    },
                ),
            )
        },
{
}

/// Batch loading stops at the first scenario that fails. When the engine
/// accepts the first `k` scenarios and rejects the next one, the job has
/// asked for those `k + 1` scenarios one by one in the order given, the
/// first `k` are loaded and stay so, the error names the rejected scenario
/// with the engine's cause, and no later scenario is ever asked for.
pub proof fn batch_stops_at_first_failure(
    root: Seq<char>,
    scenarios: Seq<Seq<char>>,
    replies: Seq<ReplyView>,
    k: int,
    cause: Seq<char>,
)
    requires
        0 <= k < scenarios.len(),
        k < replies.len(),
        forall|i: int| 0 <= i < k ==> replies[i] == ReplyView::Success,
        replies[k] == (ReplyView::Failure { cause }),
    ensures
        forall|i: int|
            #![trigger replies.take(i)]
            0 <= i <= k ==> {
                let job = JobView::start(root, scenario_steps(scenarios)).drive(replies.take(i));
                &&& job.pending() == (ActionView::Call {
                    query: QueryView::load_scenario(scenarios[i]),
                })
                &&& job.completed() == scenario_steps(scenarios).take(i)
            },
        forall|i: int|
            #![trigger replies.take(i)]
            k < i <= replies.len() ==> {
                let job = JobView::start(root, scenario_steps(scenarios)).drive(replies.take(i));
                &&& job.pending() == (ActionView::Finish {
                    result: Err(ErrorView::LoadFailed { source_id: scenarios[k], cause }),
                })
                &&& job.completed() == scenario_steps(scenarios).take(k)
            },
{
    let steps = scenario_steps(scenarios);
    let start = JobView::start(root, steps);
    assert forall|i: int| #![trigger replies.take(i)] 0 <= i <= k implies {
        let job = start.drive(replies.take(i));
        &&& job.pending() == (ActionView::Call { query: QueryView::load_scenario(scenarios[i]) })
        &&& job.completed() == steps.take(i)
    } by {
        accepted_scenarios_advance(root, scenarios, replies, i);
    }
    assert forall|i: int| #![trigger replies.take(i)] k < i <= replies.len() implies {
        let job = start.drive(replies.take(i));
        &&& job.pending() == (ActionView::Finish {
            result: Err(ErrorView::LoadFailed { source_id: scenarios[k], cause }),
        })
        &&& job.completed() == steps.take(k)
    } by {
        accepted_scenarios_advance(root, scenarios, replies, k);
        let failed = start.drive(replies.take(k + 1));
        assert(replies.take(k + 1).drop_last() =~= replies.take(k));
        assert(failed == start.drive(replies.take(k)).deliver(replies[k]));
        let later = replies.subrange(k + 1, i);
        drive_in_two(start, replies.take(k + 1), later);
        assert(replies.take(k + 1) + later =~= replies.take(i));
        ended_job_stays_ended(failed, later);
    }
}

/// While the engine accepts every scenario, a batch job moves on by one
/// scenario with each reply.
proof fn accepted_scenarios_advance(
    root: Seq<char>,
    scenarios: Seq<Seq<char>>,
    replies: Seq<ReplyView>,
    i: int,
)
    requires
        0 <= i < scenarios.len(),
        i <= replies.len(),
        forall|j: int| 0 <= j < i ==> replies[j] == ReplyView::Success,
    ensures
        ({
            let steps = scenario_steps(scenarios);
            let job = JobView::start(root, steps).drive(replies.take(i));
            &&& job == (JobView { cursor: i as nat, ..JobView::start(root, steps) })
            &&& job.pending() == (ActionView::Call {
                query: QueryView::load_scenario(scenarios[i]),
            })
            &&& job.completed() == steps.take(i)
        }),
    decreases i,
{
    let steps = scenario_steps(scenarios);
    let start = JobView::start(root, steps);
    if i == 0 {
        assert(replies.take(0) =~= Seq::<ReplyView>::empty());
    } else {
        accepted_scenarios_advance(root, scenarios, replies, i - 1);
        assert(replies.take(i).drop_last() =~= replies.take(i - 1));
        assert(replies.take(i).last() == replies[i - 1]);
    }
    assert(steps[i] == scenario_step(scenarios[i]));
}

/// Giving a job two runs of replies, one after the other, is the same as
/// giving it both as one run.
pub proof fn drive_in_two(job: JobView, first: Seq<ReplyView>, second: Seq<ReplyView>)
    ensures
        job.drive(first + second) == job.drive(first).drive(second),
    decreases second.len(),
{
    if second.len() == 0 {
        assert(first + second =~= first);
    } else {
        drive_in_two(job, first, second.drop_last());
        assert((first + second).drop_last() =~= first + second.drop_last());
        assert((first + second).last() == second.last());
    }
}

/// Answers still owed to a job: two for each step left, less the one that
/// the step in progress has had.
spec fn owed(job: JobView) -> int {
    2 * (job.steps.len() - job.cursor) - if job.probed {
        1int
    } else {
        0int
    }
}

/// The replies but the last answer the job as all of them do.
proof fn answers_hold_for_earlier_replies(job: JobView, replies: Seq<ReplyView>)
    requires
        replies.len() > 0,
    ensures
        job.answered_by(replies) ==> job.answered_by(replies.drop_last()),
        job.affirmed_by(replies) ==> job.affirmed_by(replies.drop_last()),
        job.answered_by(replies) ==> replies.last().answers(
            job.drive(replies.drop_last()).pending(),
        ),
        job.affirmed_by(replies) ==> replies.last() == job.drive(
            replies.drop_last(),
        ).pending().affirmation(),
{
    let earlier = replies.drop_last();
    assert forall|i: int| 0 <= i < earlier.len() implies earlier.take(i) == replies.take(i) by {
        assert(earlier.take(i) =~= replies.take(i));
    }
    assert(replies.take(replies.len() - 1) =~= earlier);
    if job.answered_by(replies) {
        assert forall|i: int| 0 <= i < earlier.len() implies earlier[i].answers(
            (#[trigger] job.drive(earlier.take(i))).pending(),
        ) by {
            assert(replies[i].answers(job.drive(replies.take(i)).pending()));
        }
        assert(replies[replies.len() - 1].answers(
            job.drive(replies.take(replies.len() - 1)).pending(),
        ));
    }
    if job.affirmed_by(replies) {
        assert forall|i: int| 0 <= i < earlier.len() implies earlier[i] == (#[trigger] job.drive(
            earlier.take(i),
        )).pending().affirmation() by {
            assert(replies[i] == job.drive(replies.take(i)).pending().affirmation());
        }
        assert(replies[replies.len() - 1] == job.drive(
            replies.take(replies.len() - 1),
        ).pending().affirmation());
    }
}

/// Each reply that answers the pending action brings the job nearer to
/// its end.
proof fn answers_bring_the_end_nearer(root: Seq<char>, steps: Seq<StepView>, replies: Seq<ReplyView>)
    requires
        JobView::start(root, steps).answered_by(replies),
    ensures
        ({
            let job = JobView::start(root, steps).drive(replies);
            &&& job.steps == steps
            &&& job.cursor <= steps.len()
            &&& job.finished() || owed(job) <= 2 * steps.len() - replies.len()
        }),
    decreases replies.len(),
{
    if replies.len() > 0 {
        answers_hold_for_earlier_replies(JobView::start(root, steps), replies);
        answers_bring_the_end_nearer(root, steps, replies.drop_last());
    }
}

/// A job does not go on for ever: when the host answers every action that
/// the job asks for, whatever the answers are, the job has ended by the
/// time each step has had the two answers that it may need.
pub proof fn answered_job_ends(root: Seq<char>, steps: Seq<StepView>, replies: Seq<ReplyView>)
    requires
        JobView::start(root, steps).answered_by(replies),
        replies.len() >= 2 * steps.len(),
    ensures
        JobView::start(root, steps).drive(replies).finished(),
{
    answers_bring_the_end_nearer(root, steps, replies);
}

/// A job whose every action is answered in the affirmative ends well, with
/// all its steps completed: at the latest when each step has had the two
/// answers that it may need.
pub proof fn affirmed_job_ends_well(root: Seq<char>, steps: Seq<StepView>, replies: Seq<ReplyView>)
    requires
        JobView::start(root, steps).affirmed_by(replies),
        replies.len() >= 2 * steps.len(),
    ensures
        JobView::start(root, steps).drive(replies).result() == Some(Ok::<(), ErrorView>(())),
        JobView::start(root, steps).drive(replies).completed() == steps,
{
    affirmations_never_fail(root, steps, replies);
}

/// A job that is only given affirmations does not fail, and comes nearer
/// to its end with each of them.
proof fn affirmations_never_fail(root: Seq<char>, steps: Seq<StepView>, replies: Seq<ReplyView>)
    requires
        JobView::start(root, steps).affirmed_by(replies),
    ensures
        ({
            let job = JobView::start(root, steps).drive(replies);
            &&& job.steps == steps
            &&& job.failure is None
            &&& job.cursor <= steps.len()
            &&& job.cursor == steps.len() || owed(job) <= 2 * steps.len() - replies.len()
        }),
    decreases replies.len(),
{
    if replies.len() > 0 {
        answers_hold_for_earlier_replies(JobView::start(root, steps), replies);
        affirmations_never_fail(root, steps, replies.drop_last());
    }
}

/// The engine's verdict on a suite is the job's result. A suite that the
/// engine fails, whether it is absent or one of its assertions does not
/// hold, ends the job with a `TestFailure` that names the suite and hands
/// the engine's cause on; a suite that the engine passes ends it well.
pub proof fn suite_verdict_is_reported(root: Seq<char>, name: Seq<char>, cause: Seq<char>)
    ensures
        ({
            let job = JobView::start(root, seq![StepView::RunSuite { name }]);
            &&& job.pending() == (ActionView::Call { query: QueryView::run_test_suite(name) })
            &&& job.deliver(ReplyView::Failure { cause }).pending() == (ActionView::Finish {
                result: Err(ErrorView::TestFailure { suite: Some(name), cause }),
            })
            &&& job.deliver(ReplyView::Success).pending() == (ActionView::Finish {
                result: Ok(()),
            })
        }),
{
}

/// In the job that loads the core modules, a module is in progress only
/// when exactly the modules declared before it have been completed, in
/// their order.
pub proof fn core_module_waits_for_its_dependencies(root: Seq<char>, replies: Seq<ReplyView>)
    ensures
        ({
            let job = JobView::start(root, core_module_steps()).drive(replies);
            !job.finished() ==> {
                let module = CoreModule::load_order()[job.cursor as int];
                &&& job.cursor == module.position()
                &&& job.current() == (StepView::Load { source: module.source_view() })
                &&& job.completed() == core_module_steps().take(module.position())
            }
        }),
{
    job_follows_its_plan(root, core_module_steps(), replies);
}

/// The steps that bring the knowledge base up are loads, and their tiers
/// never step back: bootstrap, then core modules, then ontologies.
pub proof fn startup_follows_tier_order(directory: Seq<char>)
    ensures
        forall|i: int|
            0 <= i < startup_steps(directory).len() ==> #[trigger] startup_steps(
                directory,
            )[i] is Load,
        forall|i: int, j: int|
            0 <= i <= j < startup_steps(directory).len() ==> (#[trigger] startup_steps(
                directory,
            )[i])->source.tier.rank() <= (#[trigger] startup_steps(
                directory,
            )[j])->source.tier.rank(),
{
    let steps = startup_steps(directory);
    assert(steps.len() == 6);
    assert forall|i: int| 0 <= i < 6 implies #[trigger] steps[i] is Load && steps[i]->source.tier.rank()
        == (if i == 0 {
        0nat
    } else if i < 5 {
        1nat
    } else {
        2nat
    }) by {
        if 1 <= i < 5 {
            assert(steps[i] == core_module_steps()[i - 1]);
        }
    }
}

/// A resolved path ends with the source identifier that it was resolved
/// from.
pub proof fn resolved_path_ends_with_source(base: Seq<char>, relative: Seq<char>)
    ensures
        relative.is_suffix_of(join_path(base, relative)),
{
    let path = join_path(base, relative);
    assert(relative =~= path.subrange(path.len() - relative.len(), path.len() as int));
}

/// A source that is named by a relative path lies below the base that it
/// is resolved against.
pub proof fn relative_source_lies_below_base(base: Seq<char>, relative: Seq<char>)
    requires
        !is_absolute(relative),
    ensures
        base.is_prefix_of(join_path(base, relative)),
{
    let path = join_path(base, relative);
    assert(base =~= path.subrange(0, base.len() as int));
}

/// Once an engine is active, asking for activation again changes nothing
/// and directs the host to proceed: whatever the host reports, the engine
/// stays active and the runtime is not initialised a second time.
pub proof fn activation_is_idempotent(signals: Seq<Signal>)
    ensures
        Lifecycle::Active.after_all(signals) == Lifecycle::Active,
        Lifecycle::Active.after_all(signals).directive() == Directive::Proceed,
    decreases signals.len(),
{
    if signals.len() > 0 {
        activation_is_idempotent(signals.drop_last());
    }
}

/// The runtime is initialised at most once: after the first attempt the
/// manager never directs the host to configure or to initialise again,
/// whatever the host reports.
pub proof fn runtime_is_initialised_once(state: Lifecycle, signals: Seq<Signal>)
    requires
        state.started(),
    ensures
        state.after_all(signals).started(),
        state.after_all(signals).directive() != Directive::Configure,
        state.after_all(signals).directive() != Directive::Initialize,
    decreases signals.len(),
{
    if signals.len() > 0 {
        runtime_is_initialised_once(state, signals.drop_last());
    }
}

/// The environment comes first: a manager leaves the dormant state only
/// when the host reports that the runtime's environment is set, so the
/// runtime is never initialised before.
pub proof fn environment_is_set_before_the_runtime_starts(signals: Seq<Signal>)
    requires
        Lifecycle::Dormant.after_all(signals) != Lifecycle::Dormant,
    ensures
        signals.contains(Signal::Configured),
    decreases signals.len(),
{
    if signals.len() > 0 {
        if Lifecycle::Dormant.after_all(signals.drop_last()) != Lifecycle::Dormant {
            environment_is_set_before_the_runtime_starts(signals.drop_last());
            let i = choose|i: int|
                0 <= i < signals.drop_last().len() && signals.drop_last()[i] == Signal::Configured;
            assert(signals[i] == Signal::Configured);
        } else {
            assert(signals[signals.len() - 1] == Signal::Configured);
        }
    }
}

} // verus!
