//! What holds of every capture session, proved over the transitions that
//! [`crate::session`] defines.

use crate::config::ConfigView;
use crate::device::{lemma_position, position};
use crate::session::{
    Action, Progress, Resource, SessionError, SessionState, SessionView, SetupError, SetupStep,
};
use vstd::prelude::*;

verus! {

/// Every transition takes a valid session to a valid session.
pub proof fn lemma_transitions_keep_validity(
    v: SessionView,
    config: ConfigView,
    names: Seq<Seq<char>>,
)
    requires
        v.valid(),
    ensures
        SessionView::idle().valid(),
        v.start(config, names).0.valid(),
        v.stop().0.valid(),
        v.completed().0.valid(),
        v.failed().0.valid(),
        v.fault().0.valid(),
        v.worker_exited().valid(),
        v.send_failed().0.valid(),
{
}

/// While a run exists, a second start is refused and changes nothing: the
/// request is not queued.
pub proof fn lemma_one_run_at_a_time(v: SessionView, config: ConfigView, names: Seq<Seq<char>>)
    requires
        v.state != SessionState::Idle,
    ensures
        v.start(config, names) == (v, Err::<Action, SessionError>(SessionError::Busy)),
{
}

/// A start that names a device which is not on offer reports a setup error
/// and leaves the session idle.
pub proof fn lemma_unknown_device_leaves_idle(
    v: SessionView,
    config: ConfigView,
    names: Seq<Seq<char>>,
)
    requires
        v.valid(),
        v.state == SessionState::Idle,
        forall|i: int| 0 <= i < names.len() ==> names[i] != config.device,
    ensures
        v.start(config, names) == (
            v,
            Err::<Action, SessionError>(SessionError::Setup(SetupError::UnknownDevice)),
        ),
        v.start(config, names).0.state == SessionState::Idle,
{
    lemma_position(names, config.device);
}

/// A start that names a device on offer is obeyed when idle: setup begins
/// with nothing acquired, for the first device of that name.
pub proof fn lemma_known_device_starts(v: SessionView, config: ConfigView, names: Seq<Seq<char>>, i: int)
    requires
        v.state == SessionState::Idle,
        0 <= i < names.len(),
        names[i] == config.device,
    ensures
        v.start(config, names).1 == Ok::<Action, SessionError>(
            Action::Perform(SetupStep::NegotiateStream),
        ),
        v.start(config, names).0.state == SessionState::Starting,
        v.start(config, names).0.progress == Progress::nothing(),
        v.start(config, names).0.config == Some(config),
        v.start(config, names).0.device <= i,
        names[v.start(config, names).0.device as int] == config.device,
{
    lemma_position(names, config.device);
}

/// A stop is obeyed exactly when running, and begins with the stream, so
/// that no further chunk is produced.
pub proof fn lemma_stop_begins_with_stream(v: SessionView)
    requires
        v.valid(),
    ensures
        v.state != SessionState::Running ==> v.stop() == (
            v,
            Err::<Action, SessionError>(SessionError::NotRunning),
        ),
        v.state == SessionState::Running ==> v.stop().1 == Ok::<Action, SessionError>(
            Action::Release(Resource::Stream),
        ) && v.stop().0.state == SessionState::Stopping && v.stop().0.progress == v.progress,
{
}

/// A session becomes running in one way only: the last setup step, the
/// spawning of the worker, is reported as done after all the steps before
/// it. A running session therefore holds everything that setup acquires.
pub proof fn lemma_running_only_after_full_setup(
    v: SessionView,
    config: ConfigView,
    names: Seq<Seq<char>>,
)
    requires
        v.valid(),
        v.state != SessionState::Running,
    ensures
        v.start(config, names).0.state != SessionState::Running,
        v.stop().0.state != SessionState::Running,
        v.failed().0.state != SessionState::Running,
        v.fault().0.state != SessionState::Running,
        v.worker_exited().state != SessionState::Running,
        v.send_failed().0.state != SessionState::Running,
        v.completed().0.state == SessionState::Running <==> v.state == SessionState::Starting
            && v.progress.next_step() == Some(SetupStep::SpawnWorker),
        v.completed().0.state == SessionState::Running ==> {
            &&& v.completed().0.progress.negotiated
            &&& v.completed().0.progress.queue
            &&& v.completed().0.progress.endpoint
            &&& v.completed().0.progress.connected
            &&& v.completed().0.progress.stream
            &&& v.completed().0.progress.worker
            &&& v.completed().0.config == v.config
        },
{
}

/// During setup each step reported as done leads to the next step in
/// order, and a step reported as failed ends setup: the session gives back
/// what it holds and names the failed step as the cause, at once if it
/// holds nothing.
pub proof fn lemma_setup_advances(v: SessionView)
    requires
        v.valid(),
        v.state == SessionState::Starting,
    ensures
        v.progress.next_step() is Some,
        v.pending() == Action::Perform(v.progress.next_step()->Some_0),
        v.completed().0.progress == v.progress.with(v.progress.next_step()->Some_0),
        v.completed().0.state == SessionState::Starting || v.completed().0.state
            == SessionState::Running,
        v.completed().0.state == SessionState::Starting ==> v.completed().1 is Perform,
        v.failed().0.state == SessionState::Failed || v.failed().0 == SessionView::idle(),
        v.failed().0.state == SessionState::Failed ==> v.failed().0.cause == Some(
            SetupError::Step(v.progress.next_step()->Some_0),
        ) && v.failed().0.progress == v.progress && v.failed().1 is Release,
        v.failed().0 == SessionView::idle() ==> v.progress.held() == 0 && v.failed().1
            == Action::Report(SetupError::Step(v.progress.next_step()->Some_0)),
{
}

/// While a run is taken down or an abandoned setup is undone, every report
/// gives back exactly one resource, in the fixed order stream, worker,
/// endpoint, queue. When the last one is given back the session is idle,
/// and an abandoned setup reports its cause.
pub proof fn lemma_release_advances(v: SessionView)
    requires
        v.valid(),
        v.state == SessionState::Stopping || v.state == SessionState::Failed,
    ensures
        v.progress.next_release() is Some,
        v.pending() == Action::Release(v.progress.next_release()->Some_0),
        v.progress.next_release() == Some(Resource::Worker) ==> !v.progress.stream,
        v.progress.next_release() == Some(Resource::Endpoint) ==> !v.progress.stream
            && !v.progress.worker,
        v.progress.next_release() == Some(Resource::Queue) ==> !v.progress.stream
            && !v.progress.worker && !v.progress.endpoint,
        v.failed() == v.completed(),
        v.progress.held() > 1 ==> {
            &&& v.completed().0.state == v.state
            &&& v.completed().0.progress.held() == v.progress.held() - 1
            &&& v.completed().0.cause == v.cause
            &&& v.completed().1 is Release
        },
        v.progress.held() == 1 ==> {
            &&& v.completed().0 == SessionView::idle()
            &&& v.state == SessionState::Stopping ==> v.completed().1 == Action::Settled
            &&& v.state == SessionState::Failed ==> v.completed().1 == Action::Report(
                v.cause->Some_0,
            )
        },
{
}

/// The configuration of a run is fixed when the run starts: no transition
/// changes it, and it is forgotten when the session becomes idle.
pub proof fn lemma_config_fixed_for_run(v: SessionView, config: ConfigView, names: Seq<Seq<char>>)
    requires
        v.valid(),
        v.state != SessionState::Idle,
    ensures
        v.start(config, names).0 == v,
        v.stop().0.config == v.config || v.stop().0 == SessionView::idle(),
        v.completed().0.config == v.config || v.completed().0 == SessionView::idle(),
        v.failed().0.config == v.config || v.failed().0 == SessionView::idle(),
        v.fault().0.config == v.config || v.fault().0 == SessionView::idle(),
        v.worker_exited().config == v.config,
        v.send_failed().0 == v,
{
}

/// An idle session remembers nothing of the runs before it: it holds no
/// configuration and no resource, and a run started from it has the
/// configuration given to that start and no other.
pub proof fn lemma_idle_forgets(v: SessionView, config: ConfigView, names: Seq<Seq<char>>)
    requires
        v.valid(),
        v.state == SessionState::Idle,
    ensures
        v == SessionView::idle(),
        v.config is None,
        v.progress.held() == 0,
        v.start(config, names).1 is Ok ==> v.start(config, names).0.config == Some(config),
{
}

/// Setup that meets no failure takes six reports from start to running, one
/// for each step, in order.
pub proof fn lemma_setup_runs_to_running(config: ConfigView, names: Seq<Seq<char>>)
    requires
        position(names, config.device) is Some,
    ensures
        ({
            let s0 = SessionView::idle().start(config, names);
            let s1 = s0.0.completed();
            let s2 = s1.0.completed();
            let s3 = s2.0.completed();
            let s4 = s3.0.completed();
            let s5 = s4.0.completed();
            let s6 = s5.0.completed();
            &&& s0.1 == Ok::<Action, SessionError>(Action::Perform(SetupStep::NegotiateStream))
            &&& s1.1 == Action::Perform(SetupStep::AllocateQueue)
            &&& s2.1 == Action::Perform(SetupStep::OpenEndpoint)
            &&& s3.1 == Action::Perform(SetupStep::ConnectEndpoint)
            &&& s4.1 == Action::Perform(SetupStep::StartStream)
            &&& s5.1 == Action::Perform(SetupStep::SpawnWorker)
            &&& s5.0.state == SessionState::Starting
            &&& s6.1 == Action::Settled
            &&& s6.0.state == SessionState::Running
            &&& s6.0.config == Some(config)
        }),
{
}

/// A stop of a running session gives back the stream, then the worker if
/// it is still there, then the endpoint, then the queue, and ends idle.
pub proof fn lemma_stop_runs_to_idle(v: SessionView)
    requires
        v.valid(),
        v.state == SessionState::Running,
    ensures
        ({
            let s0 = v.stop();
            let s1 = s0.0.completed();
            let s2 = if v.progress.worker {
                s1.0.completed()
            } else {
                s1
            };
            let s3 = s2.0.completed();
            let s4 = s3.0.completed();
            &&& s0.1 == Ok::<Action, SessionError>(Action::Release(Resource::Stream))
            &&& v.progress.worker ==> s1.1 == Action::Release(Resource::Worker)
            &&& s2.1 == Action::Release(Resource::Endpoint)
            &&& s3.1 == Action::Release(Resource::Queue)
            &&& s4.1 == Action::Settled
            &&& s4.0 == SessionView::idle()
        }),
{
}

/// What can happen to a session: a command of the operator or a report of
/// the driver.
pub enum Event {
    /// A start is asked for with `config` while `names` are on offer.
    Start { config: ConfigView, names: Seq<Seq<char>> },
    /// A stop is asked for.
    Stop,
    /// The driver did what it was told.
    Completed,
    /// The driver could not do what it was told.
    Failed,
    /// The stream or the transport broke beyond repair.
    Fault,
    /// The worker ended by itself.
    WorkerExited,
    /// Sending one band failed.
    SendFailed,
}

/// The session after `event`.
pub open spec fn after(v: SessionView, event: Event) -> SessionView {
    match event {
        Event::Start { config, names } => v.start(config, names).0,
        Event::Stop => v.stop().0,
        Event::Completed => v.completed().0,
        Event::Failed => v.failed().0,
        Event::Fault => v.fault().0,
        Event::WorkerExited => v.worker_exited(),
        Event::SendFailed => v.send_failed().0,
    }
}

/// The session that a new session becomes when `events` happen to it one
/// after the other.
pub open spec fn replay(events: Seq<Event>) -> SessionView
    decreases events.len(),
{
    if events.len() == 0 {
        SessionView::idle()
    } else {
        after(replay(events.drop_last()), events.last())
    }
}

/// The configuration of the latest start among `events` that was obeyed.
pub open spec fn latest_obeyed(events: Seq<Event>) -> Option<ConfigView>
    decreases events.len(),
{
    if events.len() == 0 {
        None
    } else {
        match events.last() {
            Event::Start { config, names } => if replay(events.drop_last()).start(
                config,
                names,
            ).1 is Ok {
                Some(config)
            } else {
                latest_obeyed(events.drop_last())
            },
            _ => latest_obeyed(events.drop_last()),
        }
    }
}

/// Whatever happens to a session, in whatever order, it stays valid: a
/// running session holds its stream, its endpoint and its queue, and an
/// idle one holds nothing.
pub proof fn lemma_every_history_is_valid(events: Seq<Event>)
    ensures
        replay(events).valid(),
    decreases events.len(),
{
    if events.len() > 0 {
        lemma_every_history_is_valid(events.drop_last());
    }
}

/// Whatever happened before, the configuration that a session holds is
/// the one of the latest start that was obeyed: nothing of an earlier run,
/// its target least of all, is carried into a later one.
pub proof fn lemma_config_is_of_latest_start(events: Seq<Event>)
    ensures
        replay(events).config is Some ==> replay(events).config == latest_obeyed(events),
    decreases events.len(),
{
    if events.len() > 0 {
        lemma_every_history_is_valid(events.drop_last());
        lemma_config_is_of_latest_start(events.drop_last());
    }
}

} // verus!
