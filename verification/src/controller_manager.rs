//! The decisions of the controller manager: which registered controllers are
//! built, and how the failure of one is reported.

use vstd::prelude::*;

use crate::config::{controller_selected, GenericControllerManagerConfig};
use crate::controller::{fault_message, unknown_runtime_failure, ControllerError, ControllerFault};
use crate::controller_descriptor::{
    build_allowed, descriptor_names, descriptor_views, ControllerRegistry,
};
use crate::feature::FeatureGate;
use crate::table::{keyed_table, lemma_keyed_lookup};
use crate::text::string_views;

verus! {

/// Whether the registered controller `name` is built: it is selected by the
/// configuration, all its required feature gates are on, and it is not a
/// cloud provider controller.
pub open spec fn to_be_built<G: FeatureGate>(
    registry: ControllerRegistry,
    config: GenericControllerManagerConfig,
    feature_gate: G,
    name: Seq<char>,
) -> bool {
    &&& registry@.controllers.contains_key(name)
    &&& controller_selected(
        config.controllers@,
        string_views(config.controllers_enabled@),
        string_views(config.controllers_disabled@),
        name,
    )
    &&& build_allowed(registry@.controllers[name], feature_gate.gate_view())
}

/// The names of the registered controllers to build, each once.
pub fn controllers_to_build<G: FeatureGate>(
    registry: &ControllerRegistry,
    config: &GenericControllerManagerConfig,
    feature_gate: &G,
) -> (r: Vec<String>)
    ensures
        string_views(r@).no_duplicates(),
        string_views(r@).to_set() == Set::new(
            |n: Seq<char>| to_be_built(*registry, *config, *feature_gate, n),
        ),
{
    let all = registry.controllers();
    let ghost names = descriptor_names(all@);
    let ghost views = descriptor_views(all@);
    let mut r: Vec<String> = Vec::new();
    let mut i: usize = 0;
    while i < all.len()
        invariant
            0 <= i <= all@.len(),
            names == descriptor_names(all@),
            views == descriptor_views(all@),
            names.no_duplicates(),
            keyed_table(names, views) == registry@.controllers,
            string_views(r@).no_duplicates(),
            forall|k: Seq<char>|
                #![trigger string_views(r@).contains(k)]
                string_views(r@).contains(k) <==> exists|j: int|
                    0 <= j < i && #[trigger] names[j] == k && to_be_built(
                        *registry,
                        *config,
                        *feature_gate,
                        k,
                    ),
        decreases all@.len() - i,
    {
        let d = &all[i];
        let name = d.name();
        proof {
            lemma_keyed_lookup(names, views, i as int);
            assert(names[i as int] == name@);
        }
        if config.is_controller_enabled(name) && d.should_build(feature_gate) {
            let ghost old_r = string_views(r@);
            let owned = name.to_owned();
            proof {
                if old_r.contains(owned@) {
                    let j = choose|j: int|
                        0 <= j < i && #[trigger] names[j] == owned@ && to_be_built(
                            *registry,
                            *config,
                            *feature_gate,
                            owned@,
                        );
                    assert(names[j] == names[i as int]);
                }
            }
            r.push(owned);
            proof {
                let nr = string_views(r@);
                assert(nr =~= old_r.push(name@));
                assert forall|x: int, y: int| 0 <= x < nr.len() && 0 <= y < nr.len() && x != y implies nr[x] != nr[y] by {
                    if x < old_r.len() && y < old_r.len() {
                    } else if x < old_r.len() {
                        assert(old_r.contains(nr[x]));
                    } else {
                        assert(old_r.contains(nr[y]));
                    }
                }
                assert forall|k: Seq<char>| #![trigger nr.contains(k)] nr.contains(k) <==> exists|j: int|
                    0 <= j < i + 1 && #[trigger] names[j] == k && to_be_built(*registry, *config, *feature_gate, k) by {
                    if nr.contains(k) && k != name@ {
                        let x = choose|x: int| 0 <= x < nr.len() && nr[x] == k;
                        assert(x < old_r.len());
                        assert(old_r.contains(k));
                    }
                    if k == name@ {
                        assert(nr[old_r.len() as int] == k);
                    }
                    if !nr.contains(k) && exists|j: int| 0 <= j < i + 1 && #[trigger] names[j] == k && to_be_built(*registry, *config, *feature_gate, k) {
                        let j = choose|j: int| 0 <= j < i + 1 && #[trigger] names[j] == k && to_be_built(*registry, *config, *feature_gate, k);
                        if j < i {
                            assert(old_r.contains(k));
                            let x = choose|x: int| 0 <= x < old_r.len() && old_r[x] == k;
                            assert(nr[x] == k);
                        }
                    }
                }
            }
        } else {
            proof {
                assert(!to_be_built(*registry, *config, *feature_gate, name@));
                assert forall|k: Seq<char>| #![trigger string_views(r@).contains(k)] string_views(r@).contains(k) <==> exists|j: int|
                    0 <= j < i + 1 && #[trigger] names[j] == k && to_be_built(*registry, *config, *feature_gate, k) by {
                    if exists|j: int| 0 <= j < i + 1 && #[trigger] names[j] == k && to_be_built(*registry, *config, *feature_gate, k) {
                        let j = choose|j: int| 0 <= j < i + 1 && #[trigger] names[j] == k && to_be_built(*registry, *config, *feature_gate, k);
                        if j == i {
                            assert(k == name@);
                        }
                    }
                }
            }
        }
        i = i + 1;
    }
    proof {
        let a = string_views(r@).to_set();
        let b = Set::new(|n: Seq<char>| to_be_built(*registry, *config, *feature_gate, n));
        assert forall|n: Seq<char>| a.contains(n) <==> b.contains(n) by {
            if b.contains(n) {
                let j = names.index_of(n);
                assert(names[j] == n);
            }
        }
        assert(a =~= b);
    }
    r
}

/// The error that reports a controller which failed to build with `error`.
pub fn start_failure(name: String, error: &ControllerError) -> (e: ControllerError)
    ensures
        e@ == (ControllerFault::StartFailed { name: name@, source: fault_message(error@) }),
{
    ControllerError::StartFailed { name, source: error.message() }
}

/// The error that reports a controller which stopped with `error`.
pub fn exit_failure(name: String, error: &ControllerError) -> (e: ControllerError)
    ensures
        e@ == (ControllerFault::Runtime { name: name@, source: fault_message(error@) }),
{
    ControllerError::Runtime { name, source: error.message() }
}

/// Whether the running controllers are watched for failure or drained after
/// shutdown was requested.
#[derive(Clone, Copy, Debug, PartialEq, Eq, Structural)]
pub enum RunPhase {
    /// Controllers run; the first failure ends the run.
    Running,
    /// Shutdown was requested; controllers are given time to stop.
    Draining,
}

/// What the manager learned while its controllers run.
#[derive(Debug)]
pub enum RunEvent {
    /// The controller `name` stopped with `outcome`.
    Stopped { name: String, outcome: Result<(), ControllerError> },
    /// A controller task was lost (it panicked or was cancelled), described
    /// by the text.
    TaskLost(String),
    /// Shutdown was requested.
    ShutdownRequested,
    /// The shutdown timeout passed.
    DeadlineReached,
    /// No controller is left running.
    NoneLeft,
}

/// What a [`RunEvent`] says, over text values.
pub enum RunEventView {
    /// The controller stopped with this outcome.
    Stopped { name: Seq<char>, outcome: Result<(), ControllerFault> },
    /// A controller task was lost.
    TaskLost(Seq<char>),
    /// Shutdown was requested.
    ShutdownRequested,
    /// The shutdown timeout passed.
    DeadlineReached,
    /// No controller is left running.
    NoneLeft,
}

impl View for RunEvent {
    type V = RunEventView;

    open spec fn view(&self) -> RunEventView {
        match self {
            RunEvent::Stopped { name, outcome } => RunEventView::Stopped {
                name: name@,
                outcome: match outcome {
                    Ok(()) => Ok(()),
                    Err(e) => Err(e@),
                },
            },
            RunEvent::TaskLost(t) => RunEventView::TaskLost(t@),
            RunEvent::ShutdownRequested => RunEventView::ShutdownRequested,
            RunEvent::DeadlineReached => RunEventView::DeadlineReached,
            RunEvent::NoneLeft => RunEventView::NoneLeft,
        }
    }
}

/// What the manager does next.
#[derive(Debug)]
pub enum RunAction {
    /// Wait for the next event.
    KeepWaiting,
    /// End the run with this error.
    Fail(ControllerError),
    /// Start draining: wait for the controllers to stop, at most the
    /// shutdown timeout.
    Drain,
    /// End the run successfully.
    Finish,
}

/// What a [`RunAction`] says, over text values.
pub enum RunActionView {
    /// Wait for the next event.
    KeepWaiting,
    /// End the run with this error.
    Fail(ControllerFault),
    /// Start draining.
    Drain,
    /// End the run successfully.
    Finish,
}

impl View for RunAction {
    type V = RunActionView;

    open spec fn view(&self) -> RunActionView {
        match self {
            RunAction::KeepWaiting => RunActionView::KeepWaiting,
            RunAction::Fail(e) => RunActionView::Fail(e@),
            RunAction::Drain => RunActionView::Drain,
            RunAction::Finish => RunActionView::Finish,
        }
    }
}

/// The next phase and action of the manager in phase `p` after event `e`.
/// While running, the first controller failure or lost task ends the run
/// with a runtime error, a shutdown request starts the drain, and the run
/// ends when no controller is left. While draining, stops and failures are
/// only waited out; the drain ends when no controller is left or the
/// shutdown timeout passes.
pub open spec fn run_transition(p: RunPhase, e: RunEventView) -> (RunPhase, RunActionView) {
    match p {
        RunPhase::Running => match e {
            RunEventView::Stopped { name, outcome } => match outcome {
                Ok(()) => (RunPhase::Running, RunActionView::KeepWaiting),
                Err(f) => (
                    RunPhase::Running,
                    RunActionView::Fail(
                        ControllerFault::Runtime { name, source: fault_message(f) },
                    ),
                ),
            },
            RunEventView::TaskLost(t) => (
                RunPhase::Running,
                RunActionView::Fail(ControllerFault::Runtime { name: "unknown"@, source: t }),
            ),
            RunEventView::ShutdownRequested => (RunPhase::Draining, RunActionView::Drain),
            RunEventView::DeadlineReached => (RunPhase::Running, RunActionView::KeepWaiting),
            RunEventView::NoneLeft => (RunPhase::Running, RunActionView::Finish),
        },
        RunPhase::Draining => match e {
            RunEventView::DeadlineReached => (RunPhase::Draining, RunActionView::Finish),
            RunEventView::NoneLeft => (RunPhase::Draining, RunActionView::Finish),
            _ => (RunPhase::Draining, RunActionView::KeepWaiting),
        },
    }
}

/// The next phase and action of the manager in phase `p` after event `e`.
pub fn run_step(p: RunPhase, e: RunEvent) -> (r: (RunPhase, RunAction))
    ensures
        (r.0, r.1@) == run_transition(p, e@),
{
    match p {
        RunPhase::Running => match e {
            RunEvent::Stopped { name, outcome } => match outcome {
                Ok(()) => (RunPhase::Running, RunAction::KeepWaiting),
                Err(err) => (RunPhase::Running, RunAction::Fail(exit_failure(name, &err))),
            },
            RunEvent::TaskLost(t) => (RunPhase::Running, RunAction::Fail(unknown_runtime_failure(t))),
            RunEvent::ShutdownRequested => (RunPhase::Draining, RunAction::Drain),
            RunEvent::DeadlineReached => (RunPhase::Running, RunAction::KeepWaiting),
            RunEvent::NoneLeft => (RunPhase::Running, RunAction::Finish),
        },
        RunPhase::Draining => match e {
            RunEvent::DeadlineReached => (RunPhase::Draining, RunAction::Finish),
            RunEvent::NoneLeft => (RunPhase::Draining, RunAction::Finish),
            _ => (RunPhase::Draining, RunAction::KeepWaiting),
        },
    }
}

/// Once draining, the manager never fails and never leaves the drain: every
/// event either keeps it waiting or finishes the run.
pub proof fn law_draining_never_fails(e: RunEventView)
    ensures
        run_transition(RunPhase::Draining, e).0 == RunPhase::Draining,
        run_transition(RunPhase::Draining, e).1 is KeepWaiting || run_transition(RunPhase::Draining, e).1 is Finish,
{
}

/// While running, the run fails exactly on a controller failure or a lost
/// task, and only a shutdown request starts the drain.
pub proof fn law_running_fails_on_first_failure(e: RunEventView)
    ensures
        run_transition(RunPhase::Running, e).1 is Fail <==> (e is TaskLost || (e matches RunEventView::Stopped { outcome, .. } && outcome is Err)),
        run_transition(RunPhase::Running, e).0 == RunPhase::Draining <==> e is ShutdownRequested,
{
}


/// While draining, the run finishes exactly when the shutdown deadline is
/// reached or no controller is left; a controller stopping, cleanly or with
/// an error, a lost task or another shutdown request keeps the manager
/// waiting, and the phase stays draining.
pub proof fn law_drain_ends_only_when_done_or_timed_out(e: RunEventView)
    ensures
        run_transition(RunPhase::Draining, e).1 is Finish <==> (e is DeadlineReached
            || e is NoneLeft),
        !(e is DeadlineReached || e is NoneLeft) ==> run_transition(RunPhase::Draining, e).1 is KeepWaiting,
        run_transition(RunPhase::Draining, e).0 == RunPhase::Draining,
{
}

/// While running, a clean stop keeps the manager waiting, the run finishes
/// exactly when no controller is left, and a failure names the controller
/// and carries the message of its error.
pub proof fn law_running_reacts_to_each_event(e: RunEventView)
    ensures
        (e matches RunEventView::Stopped { outcome, .. } && outcome is Ok) ==> run_transition(
            RunPhase::Running,
            e,
        ) == (RunPhase::Running, RunActionView::KeepWaiting),
        run_transition(RunPhase::Running, e).1 is Finish <==> e is NoneLeft,
        run_transition(RunPhase::Running, e).1 is Drain <==> e is ShutdownRequested,
        (e matches RunEventView::Stopped { name, outcome } && outcome is Err) ==> run_transition(
            RunPhase::Running,
            e,
        ).1 == RunActionView::Fail(
            ControllerFault::Runtime { name: e->name, source: fault_message(e->outcome->Err_0) },
        ),
{
}


/// A registered controller is built exactly when the configuration selects
/// it, each of its required feature gates is a known gate that is on, and it
/// is not a cloud provider controller; a name that is not registered is never
/// built.
pub proof fn law_built_exactly_when_selected_and_allowed<G: FeatureGate>(
    registry: ControllerRegistry,
    config: GenericControllerManagerConfig,
    feature_gate: G,
    name: Seq<char>,
)
    ensures
        !registry@.controllers.contains_key(name) ==> !to_be_built(registry, config, feature_gate, name),
        registry@.controllers.contains_key(name) ==> (to_be_built(registry, config, feature_gate, name) <==> {
            &&& controller_selected(
                config.controllers@,
                string_views(config.controllers_enabled@),
                string_views(config.controllers_disabled@),
                name,
            )
            &&& !registry@.controllers[name].is_cloud_provider_controller
            &&& forall|j: int|
                0 <= j < registry@.controllers[name].required_feature_gates.len()
                    ==> feature_gate.gate_view().contains_key(
                    #[trigger] registry@.controllers[name].required_feature_gates[j],
                ) && feature_gate.gate_view()[registry@.controllers[name].required_feature_gates[j]]
        }),
{
}

} // verus!
