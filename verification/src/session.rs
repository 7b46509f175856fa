//! The life cycle of a capture session.
//!
//! A session is driven from outside: the driver asks the session what to do
//! next, does it (opens a device, binds a socket, spawns a task), and tells
//! the session how it went. The session decides; it performs nothing
//! itself. At most one run is live at a time.

use crate::config::{ConfigView, SessionConfig};
use crate::device::{find_device, names_of, position};
use vstd::prelude::*;

verus! {

/// Where a session stands in its life cycle.
#[derive(Clone, Copy, Debug, PartialEq, Eq, Structural)]
pub enum SessionState {
    /// No run: nothing is held.
    Idle,
    /// A run is being set up, step by step.
    Starting,
    /// Setup is complete and samples flow.
    Running,
    /// The run is being taken down after a stop or a fault.
    Stopping,
    /// Setup was abandoned; what it had acquired is being given back.
    Failed,
}

/// The steps of setup, in the order in which they are performed.
#[derive(Clone, Copy, Debug, PartialEq, Eq, Structural)]
pub enum SetupStep {
    /// Agree with the device on a stream configuration.
    NegotiateStream,
    /// Allocate the bounded queue between callback and worker.
    AllocateQueue,
    /// Open the transport endpoint.
    OpenEndpoint,
    /// Fix the endpoint's destination.
    ConnectEndpoint,
    /// Install the capture callback and start the hardware stream.
    StartStream,
    /// Spawn the worker that analyses and sends.
    SpawnWorker,
}

/// What a run holds and has to give back, in the order in which it is
/// given back.
#[derive(Clone, Copy, Debug, PartialEq, Eq, Structural)]
pub enum Resource {
    /// The hardware stream: stopped first, so that no chunk is produced any
    /// more.
    Stream,
    /// The worker: left to drain the queue and end.
    Worker,
    /// The transport endpoint.
    Endpoint,
    /// The queue between callback and worker.
    Queue,
}

/// Why setup was abandoned.
#[derive(Clone, Copy, Debug, PartialEq, Eq, Structural)]
pub enum SetupError {
    /// No device on offer has the configured name.
    UnknownDevice,
    /// The given step could not be carried out.
    Step(SetupStep),
}

impl SetupError {
    /// What the operator is told: which resource could not be had.
    pub open spec fn description(self) -> Seq<char> {
        match self {
            SetupError::UnknownDevice => "no capture device has the selected name"@,
            SetupError::Step(SetupStep::NegotiateStream) =>
                "the capture device offers no usable stream configuration"@,
            SetupError::Step(SetupStep::AllocateQueue) => "the sample queue could not be allocated"@,
            SetupError::Step(SetupStep::OpenEndpoint) => "the network endpoint could not be opened"@,
            SetupError::Step(SetupStep::ConnectEndpoint) =>
                "the network endpoint could not be connected to the target"@,
            SetupError::Step(SetupStep::StartStream) => "the capture stream could not be started"@,
            SetupError::Step(SetupStep::SpawnWorker) => "the analysis worker could not be spawned"@,
        }
    }

    /// The message for the operator.
    pub fn describe(&self) -> (message: String)
        ensures
            message@ == self.description(),
    {
        match self {
            SetupError::UnknownDevice => String::from_str("no capture device has the selected name"),
            SetupError::Step(SetupStep::NegotiateStream) => String::from_str(
                "the capture device offers no usable stream configuration",
            ),
            SetupError::Step(SetupStep::AllocateQueue) => String::from_str(
                "the sample queue could not be allocated",
            ),
            SetupError::Step(SetupStep::OpenEndpoint) => String::from_str(
                "the network endpoint could not be opened",
            ),
            SetupError::Step(SetupStep::ConnectEndpoint) => String::from_str(
                "the network endpoint could not be connected to the target",
            ),
            SetupError::Step(SetupStep::StartStream) => String::from_str(
                "the capture stream could not be started",
            ),
            SetupError::Step(SetupStep::SpawnWorker) => String::from_str(
                "the analysis worker could not be spawned",
            ),
        }
    }
}

/// Why a command was not obeyed.
#[derive(Clone, Copy, Debug, PartialEq, Eq, Structural)]
pub enum SessionError {
    /// `start` was called while a run was live or being set up or taken
    /// down.
    Busy,
    /// `stop` was called while no run was in progress.
    NotRunning,
    /// Setup could not even begin.
    Setup(SetupError),
}

/// What the driver has to do next.
#[derive(Clone, Copy, Debug, PartialEq, Eq, Structural)]
pub enum Action {
    /// Carry out the step, then report `completed` or `failed`.
    Perform(SetupStep),
    /// Give the resource back, then report `completed`.
    Release(Resource),
    /// Setup was abandoned and everything is given back: tell the
    /// operator why. The session is idle.
    Report(SetupError),
    /// Nothing to do.
    Settled,
}

/// Which setup steps have been carried out and not undone.
#[derive(Clone, Copy, Debug, PartialEq, Eq, Structural)]
pub struct Progress {
    pub negotiated: bool,
    pub queue: bool,
    pub endpoint: bool,
    pub connected: bool,
    pub stream: bool,
    pub worker: bool,
}

impl Progress {
    /// No step carried out.
    pub open spec fn nothing() -> Progress {
        Progress {
            negotiated: false,
            queue: false,
            endpoint: false,
            connected: false,
            stream: false,
            worker: false,
        }
    }

    /// The first step, in setup order, that is not carried out.
    pub open spec fn next_step(self) -> Option<SetupStep> {
        if !self.negotiated {
            Some(SetupStep::NegotiateStream)
        } else if !self.queue {
            Some(SetupStep::AllocateQueue)
        } else if !self.endpoint {
            Some(SetupStep::OpenEndpoint)
        } else if !self.connected {
            Some(SetupStep::ConnectEndpoint)
        } else if !self.stream {
            Some(SetupStep::StartStream)
        } else if !self.worker {
            Some(SetupStep::SpawnWorker)
        } else {
            None
        }
    }

    /// The progress after `step` was carried out.
    pub open spec fn with(self, step: SetupStep) -> Progress {
        match step {
            SetupStep::NegotiateStream => Progress { negotiated: true, ..self },
            SetupStep::AllocateQueue => Progress { queue: true, ..self },
            SetupStep::OpenEndpoint => Progress { endpoint: true, ..self },
            SetupStep::ConnectEndpoint => Progress { connected: true, ..self },
            SetupStep::StartStream => Progress { stream: true, ..self },
            SetupStep::SpawnWorker => Progress { worker: true, ..self },
        }
    }

    /// Whether `resource` is held.
    pub open spec fn holds(self, resource: Resource) -> bool {
        match resource {
            Resource::Stream => self.stream,
            Resource::Worker => self.worker,
            Resource::Endpoint => self.endpoint,
            Resource::Queue => self.queue,
        }
    }

    /// The resource to give back first: the stream before the worker, the
    /// worker before the endpoint, the endpoint before the queue.
    pub open spec fn next_release(self) -> Option<Resource> {
        if self.stream {
            Some(Resource::Stream)
        } else if self.worker {
            Some(Resource::Worker)
        } else if self.endpoint {
            Some(Resource::Endpoint)
        } else if self.queue {
            Some(Resource::Queue)
        } else {
            None
        }
    }

    /// The progress after `resource` was given back. An endpoint that is
    /// gone is no longer connected.
    pub open spec fn without(self, resource: Resource) -> Progress {
        match resource {
            Resource::Stream => Progress { stream: false, ..self },
            Resource::Worker => Progress { worker: false, ..self },
            Resource::Endpoint => Progress { endpoint: false, connected: false, ..self },
            Resource::Queue => Progress { queue: false, ..self },
        }
    }

    /// How many resources are held.
    pub open spec fn held(self) -> nat {
        (if self.stream { 1nat } else { 0 }) + (if self.worker { 1nat } else { 0 })
            + (if self.endpoint { 1nat } else { 0 }) + (if self.queue { 1nat } else { 0 })
    }

    /// Whether the steps carried out are the first ones of setup, with none
    /// skipped.
    pub open spec fn in_order(self) -> bool {
        &&& self.queue ==> self.negotiated
        &&& self.endpoint ==> self.queue
        &&& self.connected ==> self.endpoint
        &&& self.stream ==> self.connected
        &&& self.worker ==> self.stream
    }

    fn empty() -> (p: Progress)
        ensures
            p == Progress::nothing(),
    {
        Progress {
            negotiated: false,
            queue: false,
            endpoint: false,
            connected: false,
            stream: false,
            worker: false,
        }
    }

    fn step_to_perform(&self) -> (step: Option<SetupStep>)
        ensures
            step == self.next_step(),
    {
        if !self.negotiated {
            Some(SetupStep::NegotiateStream)
        } else if !self.queue {
            Some(SetupStep::AllocateQueue)
        } else if !self.endpoint {
            Some(SetupStep::OpenEndpoint)
        } else if !self.connected {
            Some(SetupStep::ConnectEndpoint)
        } else if !self.stream {
            Some(SetupStep::StartStream)
        } else if !self.worker {
            Some(SetupStep::SpawnWorker)
        } else {
            None
        }
    }

    fn resource_to_release(&self) -> (resource: Option<Resource>)
        ensures
            resource == self.next_release(),
    {
        if self.stream {
            Some(Resource::Stream)
        } else if self.worker {
            Some(Resource::Worker)
        } else if self.endpoint {
            Some(Resource::Endpoint)
        } else if self.queue {
            Some(Resource::Queue)
        } else {
            None
        }
    }

    fn mark(&mut self, step: SetupStep)
        ensures
            *final(self) == old(self).with(step),
    {
        match step {
            SetupStep::NegotiateStream => {
                self.negotiated = true;
            },
            SetupStep::AllocateQueue => {
                self.queue = true;
            },
            SetupStep::OpenEndpoint => {
                self.endpoint = true;
            },
            SetupStep::ConnectEndpoint => {
                self.connected = true;
            },
            SetupStep::StartStream => {
                self.stream = true;
            },
            SetupStep::SpawnWorker => {
                self.worker = true;
            },
        }
    }

    fn clear(&mut self, resource: Resource)
        ensures
            *final(self) == old(self).without(resource),
    {
        match resource {
            Resource::Stream => {
                self.stream = false;
            },
            Resource::Worker => {
                self.worker = false;
            },
            Resource::Endpoint => {
                self.endpoint = false;
                self.connected = false;
            },
            Resource::Queue => {
                self.queue = false;
            },
        }
    }
}

/// A session as plain values.
pub struct SessionView {
    /// Where the session stands.
    pub state: SessionState,
    /// What the current run has carried out and still holds.
    pub progress: Progress,
    /// Why setup was abandoned, while that is being undone.
    pub cause: Option<SetupError>,
    /// The configuration of the current run.
    pub config: Option<ConfigView>,
    /// Where the run's device stood among the devices on offer.
    pub device: nat,
}

impl SessionView {
    /// The session without a run.
    pub open spec fn idle() -> SessionView {
        SessionView {
            state: SessionState::Idle,
            progress: Progress::nothing(),
            cause: None,
            config: None,
            device: 0,
        }
    }

    /// What holds of every session that was made by `CaptureSession::new`
    /// and driven through the methods of `CaptureSession`.
    pub open spec fn valid(self) -> bool {
        &&& self.progress.connected ==> self.progress.endpoint
        &&& match self.state {
            SessionState::Idle => self == SessionView::idle(),
            SessionState::Starting => {
                &&& self.progress.in_order()
                &&& !self.progress.worker
                &&& self.cause is None
                &&& self.config is Some
            },
            SessionState::Running => {
                &&& self.progress.negotiated
                &&& self.progress.queue
                &&& self.progress.endpoint
                &&& self.progress.connected
                &&& self.progress.stream
                &&& self.cause is None
                &&& self.config is Some
            },
            SessionState::Stopping => {
                &&& self.progress.held() > 0
                &&& self.cause is None
                &&& self.config is Some
            },
            SessionState::Failed => {
                &&& self.progress.held() > 0
                &&& self.cause is Some
                &&& self.config is Some
            },
        }
    }

    /// Brings a session whose progress has just changed to rest, and says
    /// what to do next. Setup with no step left is running. Taking down or
    /// undoing with nothing left to give back is idle; the cause of an
    /// abandoned setup is then reported.
    pub open spec fn settle(self) -> (SessionView, Action) {
        match self.state {
            SessionState::Starting => match self.progress.next_step() {
                Some(step) => (self, Action::Perform(step)),
                None => (SessionView { state: SessionState::Running, ..self }, Action::Settled),
            },
            SessionState::Stopping | SessionState::Failed => match self.progress.next_release() {
                Some(resource) => (self, Action::Release(resource)),
                None => (
                    SessionView::idle(),
                    match self.cause {
                        Some(cause) => Action::Report(cause),
                        None => Action::Settled,
                    },
                ),
            },
            SessionState::Idle | SessionState::Running => (self, Action::Settled),
        }
    }

    /// What the driver is expected to do in this state.
    pub open spec fn pending(self) -> Action {
        match self.state {
            SessionState::Starting => match self.progress.next_step() {
                Some(step) => Action::Perform(step),
                None => Action::Settled,
            },
            SessionState::Stopping | SessionState::Failed => match self.progress.next_release() {
                Some(resource) => Action::Release(resource),
                None => Action::Settled,
            },
            SessionState::Idle | SessionState::Running => Action::Settled,
        }
    }

    /// A request to start a run with `config` while `names` are the devices
    /// on offer. Obeyed only when idle and when the configured device is on
    /// offer; otherwise the session stays as it is.
    pub open spec fn start(self, config: ConfigView, names: Seq<Seq<char>>) -> (
        SessionView,
        Result<Action, SessionError>,
    ) {
        if self.state != SessionState::Idle {
            (self, Err(SessionError::Busy))
        } else {
            match position(names, config.device) {
                None => (self, Err(SessionError::Setup(SetupError::UnknownDevice))),
                Some(index) => (
                    SessionView {
                        state: SessionState::Starting,
                        progress: Progress::nothing(),
                        cause: None,
                        config: Some(config),
                        device: index,
                    },
                    Ok(Action::Perform(SetupStep::NegotiateStream)),
                ),
            }
        }
    }

    /// A request to stop the run. Obeyed only when running; otherwise the
    /// session stays as it is.
    pub open spec fn stop(self) -> (SessionView, Result<Action, SessionError>) {
        if self.state != SessionState::Running {
            (self, Err(SessionError::NotRunning))
        } else {
            let next = SessionView { state: SessionState::Stopping, ..self }.settle();
            (next.0, Ok(next.1))
        }
    }

    /// The driver did what it was last told to do.
    pub open spec fn completed(self) -> (SessionView, Action) {
        match self.state {
            SessionState::Starting => match self.progress.next_step() {
                Some(step) => SessionView { progress: self.progress.with(step), ..self }.settle(),
                None => self.settle(),
            },
            SessionState::Stopping | SessionState::Failed => match self.progress.next_release() {
                Some(resource) => SessionView {
                    progress: self.progress.without(resource),
                    ..self
                }.settle(),
                None => self.settle(),
            },
            SessionState::Idle | SessionState::Running => (self, Action::Settled),
        }
    }

    /// The driver could not do what it was last told to do. A setup step
    /// that fails ends setup: what was acquired is given back and the
    /// failed step is the cause. A release that fails leaves nothing to
    /// hold on to and counts as done.
    pub open spec fn failed(self) -> (SessionView, Action) {
        match self.state {
            SessionState::Starting => match self.progress.next_step() {
                Some(step) => SessionView {
                    state: SessionState::Failed,
                    cause: Some(SetupError::Step(step)),
                    ..self
                }.settle(),
                None => self.settle(),
            },
            SessionState::Stopping | SessionState::Failed => self.completed(),
            SessionState::Idle | SessionState::Running => (self, Action::Settled),
        }
    }

    /// The stream or the transport broke beyond repair. A running session
    /// is taken down as by a stop; in any other state nothing changes.
    pub open spec fn fault(self) -> (SessionView, Action) {
        if self.state == SessionState::Running {
            SessionView { state: SessionState::Stopping, ..self }.settle()
        } else {
            (self, self.pending())
        }
    }

    /// The worker ended by itself. A running session goes on without it and
    /// can still be stopped; in any other state nothing changes.
    pub open spec fn worker_exited(self) -> SessionView {
        if self.state == SessionState::Running {
            SessionView { progress: self.progress.without(Resource::Worker), ..self }
        } else {
            self
        }
    }

    /// Sending one band failed. The band is lost and the session goes on
    /// unchanged: the next frame supersedes it.
    pub open spec fn send_failed(self) -> (SessionView, Action) {
        (self, self.pending())
    }
}

/// The capture session: the one authority over start and stop.
#[derive(Debug)]
pub struct CaptureSession {
    state: SessionState,
    progress: Progress,
    cause: Option<SetupError>,
    config: Option<SessionConfig>,
    device: usize,
}

impl View for CaptureSession {
    type V = SessionView;

    closed spec fn view(&self) -> SessionView {
        SessionView {
            state: self.state,
            progress: self.progress,
            cause: self.cause,
            config: match self.config {
                Some(config) => Some(config@),
                None => None,
            },
            device: self.device as nat,
        }
    }
}

impl CaptureSession {
    /// A session without a run.
    pub fn new() -> (session: Self)
        ensures
            session@ == SessionView::idle(),
            session@.valid(),
    {
        CaptureSession {
            state: SessionState::Idle,
            progress: Progress::empty(),
            cause: None,
            config: None,
            device: 0,
        }
    }

    /// Where the session stands.
    pub fn state(&self) -> (state: SessionState)
        ensures
            state == self@.state,
    {
        self.state
    }

    /// Whether a run is live.
    pub fn is_running(&self) -> (running: bool)
        ensures
            running == (self@.state == SessionState::Running),
    {
        match self.state {
            SessionState::Running => true,
            _ => false,
        }
    }

    /// The configuration of the current run, if there is a run.
    pub fn config(&self) -> (config: Option<&SessionConfig>)
        ensures
            match config {
                Some(c) => self@.config == Some(c@),
                None => self@.config is None,
            },
    {
        self.config.as_ref()
    }

    /// Where the device of the current run stood among the devices on
    /// offer when the run was started.
    pub fn device_index(&self) -> (index: usize)
        ensures
            index == self@.device,
    {
        self.device
    }

    /// What the current run has carried out and still holds.
    pub fn progress(&self) -> (progress: Progress)
        ensures
            progress == self@.progress,
    {
        self.progress
    }

    /// What the driver is expected to do now.
    pub fn pending(&self) -> (action: Action)
        ensures
            action == self@.pending(),
    {
        match self.state {
            SessionState::Starting => match self.progress.step_to_perform() {
                Some(step) => Action::Perform(step),
                None => Action::Settled,
            },
            SessionState::Stopping | SessionState::Failed => match self.progress.resource_to_release() {
                Some(resource) => Action::Release(resource),
                None => Action::Settled,
            },
            SessionState::Idle | SessionState::Running => Action::Settled,
        }
    }

    fn settle(&mut self) -> (action: Action)
        ensures
            (final(self)@, action) == old(self)@.settle(),
    {
        match self.state {
            SessionState::Starting => match self.progress.step_to_perform() {
                Some(step) => Action::Perform(step),
                None => {
                    self.state = SessionState::Running;
                    Action::Settled
                },
            },
            SessionState::Stopping | SessionState::Failed => match self.progress.resource_to_release() {
                Some(resource) => Action::Release(resource),
                None => {
                    let action = match self.cause {
                        Some(cause) => Action::Report(cause),
                        None => Action::Settled,
                    };
                    self.state = SessionState::Idle;
                    self.progress = Progress::empty();
                    self.cause = None;
                    self.config = None;
                    self.device = 0;
                    action
                },
            },
            SessionState::Idle | SessionState::Running => Action::Settled,
        }
    }

    /// Asks for a run with `config`, `devices` being the names of the
    /// devices on offer.
    ///
    /// Refused with `Busy` unless the session is idle, and with
    /// `Setup(UnknownDevice)` if no device on offer has the configured
    /// name; the session then stays as it was. Otherwise setup begins and
    /// its first step is returned.
    pub fn start(&mut self, config: SessionConfig, devices: &Vec<String>) -> (result: Result<
        Action,
        SessionError,
    >)
        ensures
            (final(self)@, result) == old(self)@.start(config@, names_of(devices@)),
            old(self)@.valid() ==> final(self)@.valid(),
    {
        match self.state {
            SessionState::Idle => {},
            _ => {
                return Err(SessionError::Busy);
            },
        }
        match find_device(devices, &config.device) {
            None => Err(SessionError::Setup(SetupError::UnknownDevice)),
            Some(index) => {
                self.state = SessionState::Starting;
                self.progress = Progress::empty();
                self.cause = None;
                self.config = Some(config);
                self.device = index;
                Ok(Action::Perform(SetupStep::NegotiateStream))
            },
        }
    }

    /// Asks for the run to end.
    ///
    /// Refused with `NotRunning` unless the session is running; the
    /// session then stays as it was. Otherwise taking down begins and the
    /// first resource to give back is returned.
    pub fn stop(&mut self) -> (result: Result<Action, SessionError>)
        ensures
            (final(self)@, result) == old(self)@.stop(),
            old(self)@.valid() ==> final(self)@.valid(),
    {
        match self.state {
            SessionState::Running => {},
            _ => {
                return Err(SessionError::NotRunning);
            },
        }
        self.state = SessionState::Stopping;
        let action = self.settle();
        Ok(action)
    }

    /// Reports that the driver did what it was last told to do, and
    /// returns what to do next.
    pub fn completed(&mut self) -> (action: Action)
        ensures
            (final(self)@, action) == old(self)@.completed(),
            old(self)@.valid() ==> final(self)@.valid(),
    {
        match self.state {
            SessionState::Starting => {
                match self.progress.step_to_perform() {
                    Some(step) => {
                        self.progress.mark(step);
                    },
                    None => {},
                }
                self.settle()
            },
            SessionState::Stopping | SessionState::Failed => {
                match self.progress.resource_to_release() {
                    Some(resource) => {
                        self.progress.clear(resource);
                    },
                    None => {},
                }
                self.settle()
            },
            SessionState::Idle | SessionState::Running => Action::Settled,
        }
    }

    /// Reports that the driver could not do what it was last told to do,
    /// and returns what to do next.
    pub fn failed(&mut self) -> (action: Action)
        ensures
            (final(self)@, action) == old(self)@.failed(),
            old(self)@.valid() ==> final(self)@.valid(),
    {
        match self.state {
            SessionState::Starting => {
                match self.progress.step_to_perform() {
                    Some(step) => {
                        self.state = SessionState::Failed;
                        self.cause = Some(SetupError::Step(step));
                    },
                    None => {},
                }
                self.settle()
            },
            SessionState::Stopping | SessionState::Failed => self.completed(),
            SessionState::Idle | SessionState::Running => Action::Settled,
        }
    }

    /// Reports that the stream or the transport broke beyond repair, and
    /// returns what to do next.
    pub fn fault(&mut self) -> (action: Action)
        ensures
            (final(self)@, action) == old(self)@.fault(),
            old(self)@.valid() ==> final(self)@.valid(),
    {
        match self.state {
            SessionState::Running => {
                self.state = SessionState::Stopping;
                self.settle()
            },
            _ => self.pending(),
        }
    }

    /// Reports that the worker ended by itself.
    pub fn worker_exited(&mut self)
        ensures
            final(self)@ == old(self)@.worker_exited(),
            old(self)@.valid() ==> final(self)@.valid(),
    {
        match self.state {
            SessionState::Running => {
                self.progress.clear(Resource::Worker);
            },
            _ => {},
        }
    }

    /// Reports that sending one band failed, and returns what to do next.
    /// The session is left as it was.
    pub fn send_failed(&self) -> (action: Action)
        ensures
            (self@, action) == self@.send_failed(),
    {
        self.pending()
    }
}

} // verus!
