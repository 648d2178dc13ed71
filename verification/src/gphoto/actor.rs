use vstd::prelude::*;
use crate::gphoto::types::CaptureError;
use crate::protocol::CameraStatus;

verus! {

/// Why the driver could not connect to the camera.
#[derive(Debug, Clone, Copy, PartialEq, Eq, Structural)]
pub enum ConnectionError {
    /// The application is quitting.
    AppQuitting,
    /// The hardware did not respond after every attempt.
    HardwareUnresponsive,
}

/// How often the driver tries to reach the camera: the first
/// `max_soft_retries` attempts only detect it, the next one also power-cycles
/// the USB port, and it gives up after `max_total_retries` attempts.
#[derive(Clone, Copy, Debug)]
pub struct ConnectionConfig {
    pub max_soft_retries: u32,
    pub max_total_retries: u32,
}

impl Default for ConnectionConfig {
    fn default() -> (config: Self)
        ensures
            config.max_soft_retries == 3,
            config.max_total_retries == 6,
    {
        ConnectionConfig { max_soft_retries: 3, max_total_retries: 6 }
    }
}

/// How long the driver waits between two attempts.
pub const RETRY_DELAY_MILLIS: u64 = 3000;

/// How long one detection may take.
pub const DETECT_TIMEOUT_MILLIS: u64 = 5000;

/// The reason reported while the driver only re-detects the camera.
pub open spec fn soft_reason() -> Seq<char> {
    "Detecting camera on USB bus"@
}

/// The reason reported once the driver has power-cycled the USB port.
pub open spec fn hard_reason() -> Seq<char> {
    "Resetting USB port and re-detecting"@
}

/// The reason reported during attempt `attempt`.
pub open spec fn attempt_reason(config: ConnectionConfig, attempt: u32) -> Seq<char> {
    if attempt <= config.max_soft_retries {
        soft_reason()
    } else {
        hard_reason()
    }
}

/// Whether attempt `attempt` power-cycles the USB port first: the one right
/// after the last soft attempt.
pub open spec fn is_hard_reset_attempt(config: ConnectionConfig, attempt: u32) -> bool {
    attempt == config.max_soft_retries + 1
}

/// Where the connection sequence stands: about to make attempt `attempt`, or
/// finished with an error.
#[derive(PartialEq, Eq, Structural)]
pub enum ConnectStep {
    Attempt { attempt: u32 },
    Failed(ConnectionError),
}

/// The step the sequence starts with.
pub open spec fn start_step(config: ConnectionConfig) -> ConnectStep {
    if config.max_total_retries >= 1 {
        ConnectStep::Attempt { attempt: 1 }
    } else {
        ConnectStep::Failed(ConnectionError::HardwareUnresponsive)
    }
}

/// The step after attempt `attempt` failed to detect the camera and the
/// driver's wait between attempts ended with `result` (an error when the wait
/// was cut short, as when the application is quitting).
pub open spec fn step_after_wait(
    config: ConnectionConfig,
    attempt: u32,
    result: Result<(), ConnectionError>,
) -> ConnectStep {
    if let Err(e) = result {
        ConnectStep::Failed(e)
    } else if attempt < config.max_total_retries {
        ConnectStep::Attempt { attempt: (attempt + 1) as u32 }
    } else {
        ConnectStep::Failed(ConnectionError::HardwareUnresponsive)
    }
}

/// The step reached after `failures` attempts in a row found no camera,
/// each followed by a full wait.
pub open spec fn step_after_failures(config: ConnectionConfig, failures: nat) -> ConnectStep
    decreases failures,
{
    if failures == 0 {
        start_step(config)
    } else {
        match step_after_failures(config, (failures - 1) as nat) {
            ConnectStep::Attempt { attempt } => step_after_wait(config, attempt, Ok(())),
            ConnectStep::Failed(e) => ConnectStep::Failed(e),
        }
    }
}

/// An attempt about to be made.
pub struct Attempting {
    config: ConnectionConfig,
    attempt: u32,
}

/// The wait after a failed attempt.
pub struct Waiting {
    config: ConnectionConfig,
    attempt: u32,
}

/// The next stage of the connection sequence.
pub enum Connection {
    /// Make another attempt.
    Attempt(Attempting),
    /// Stop trying.
    Failed(ConnectionError),
}

impl Connection {
    pub open spec fn spec_step(&self) -> ConnectStep {
        match self {
            Connection::Attempt(a) => ConnectStep::Attempt { attempt: a.spec_attempt() },
            Connection::Failed(e) => ConnectStep::Failed(*e),
        }
    }

    /// The first stage of connecting with `config`.
    pub fn start(config: ConnectionConfig) -> (next: Self)
        ensures
            next.spec_step() == start_step(config),
            next matches Connection::Attempt(a) ==> a.spec_config() == config,
    {
        if config.max_total_retries >= 1 {
            Connection::Attempt(Attempting { config, attempt: 1 })
        } else {
            Connection::Failed(ConnectionError::HardwareUnresponsive)
        }
    }
}

impl Attempting {
    pub closed spec fn spec_config(&self) -> ConnectionConfig {
        self.config
    }

    pub closed spec fn spec_attempt(&self) -> u32 {
        self.attempt
    }

    /// The number of this attempt, from one.
    pub fn attempt(&self) -> (n: u32)
        ensures
            n == self.spec_attempt(),
    {
        self.attempt
    }

    /// The status the driver reports during this attempt.
    pub fn status(&self) -> (status: CameraStatus)
        ensures
            status matches CameraStatus::Recovering { attempt, reason } && attempt
                == self.spec_attempt() && reason@ == attempt_reason(
                self.spec_config(),
                self.spec_attempt(),
            ),
    {
        let reason = if self.attempt <= self.config.max_soft_retries {
            "Detecting camera on USB bus".to_owned()
        } else {
            "Resetting USB port and re-detecting".to_owned()
        };
        CameraStatus::Recovering { attempt: self.attempt, reason }
    }

    /// Whether this attempt power-cycles the USB port before detecting.
    pub fn is_hard_reset(&self) -> (hard: bool)
        ensures
            hard == is_hard_reset_attempt(self.spec_config(), self.spec_attempt()),
    {
        self.attempt >= 1 && self.attempt - 1 == self.config.max_soft_retries
    }

    /// The attempt found no camera: wait before the next one.
    pub fn detection_failed(self) -> (waiting: Waiting)
        ensures
            waiting.spec_config() == self.spec_config(),
            waiting.spec_attempt() == self.spec_attempt(),
    {
        Waiting { config: self.config, attempt: self.attempt }
    }
}

impl Waiting {
    pub closed spec fn spec_config(&self) -> ConnectionConfig {
        self.config
    }

    pub closed spec fn spec_attempt(&self) -> u32 {
        self.attempt
    }

    /// The wait ended with `result` (`Err(AppQuitting)` when it ended because
    /// the application is quitting); an error ends the sequence with it.
    pub fn wait_finished(self, result: Result<(), ConnectionError>) -> (next: Connection)
        ensures
            next.spec_step() == step_after_wait(
                self.spec_config(),
                self.spec_attempt(),
                result,
            ),
            next matches Connection::Attempt(a) ==> a.spec_config() == self.spec_config(),
            result matches Err(e) ==> (next matches Connection::Failed(f) && f == e),
            result is Ok && self.spec_attempt() < self.spec_config().max_total_retries ==> (next matches Connection::Attempt(a)
                && a.spec_attempt() == self.spec_attempt() + 1),
            result is Ok && self.spec_attempt() >= self.spec_config().max_total_retries ==> (next matches Connection::Failed(f)
                && f == ConnectionError::HardwareUnresponsive),
    {
        match result {
            Err(e) => Connection::Failed(e),
            Ok(()) => if self.attempt < self.config.max_total_retries {
                Connection::Attempt(Attempting { config: self.config, attempt: self.attempt + 1 })
            } else {
                Connection::Failed(ConnectionError::HardwareUnresponsive)
            },
        }
    }
}


/// The driver makes at most `max_total_retries` attempts, numbered from one:
/// after `failures` attempts in a row found no camera it makes attempt
/// `failures + 1` if that is within the total, and otherwise gives up with
/// `HardwareUnresponsive`.
pub proof fn lemma_gives_up_after_total_retries(config: ConnectionConfig, failures: nat)
    ensures
        step_after_failures(config, failures) == if failures < config.max_total_retries {
            ConnectStep::Attempt { attempt: (failures + 1) as u32 }
        } else {
            ConnectStep::Failed(ConnectionError::HardwareUnresponsive)
        },
    decreases failures,
{
    if failures > 0 {
        lemma_gives_up_after_total_retries(config, (failures - 1) as nat);
    }
}

/// The USB port is power-cycled on one attempt only, the one right after the
/// soft attempts, and from that attempt on the driver reports the reset
/// reason.
pub proof fn lemma_single_hard_reset(config: ConnectionConfig, a: u32, b: u32)
    ensures
        is_hard_reset_attempt(config, a) && is_hard_reset_attempt(config, b) ==> a == b,
        is_hard_reset_attempt(config, a) ==> attempt_reason(config, a) == hard_reason(),
        attempt_reason(config, a) == soft_reason() <==> a <= config.max_soft_retries,
{
    reveal_strlit("Detecting camera on USB bus");
    reveal_strlit("Resetting USB port and re-detecting");
    assert(soft_reason().len() != hard_reason().len());
}

/// What interrupts the driver's wait between two connection attempts.
#[derive(Clone, Copy, Debug, PartialEq, Eq, Structural)]
pub enum WaitEvent {
    /// The wait is over.
    Elapsed,
    /// A capture was requested.
    CaptureRequested,
    /// The command channel closed: the application is quitting.
    ChannelClosed,
}

/// What the driver does about a `WaitEvent`.
#[derive(Debug, PartialEq)]
pub enum WaitAction {
    /// Stop waiting, with this result.
    Finish(Result<(), ConnectionError>),
    /// Refuse the requested capture with this error and keep waiting.
    Refuse(CaptureError),
}

/// While it waits between attempts the driver refuses every capture as
/// interrupted, stops when the wait is over, and stops with `AppQuitting`
/// when the command channel closes.
pub fn on_wait_event(event: WaitEvent) -> (action: WaitAction)
    ensures
        event == WaitEvent::Elapsed ==> action == WaitAction::Finish(Ok(())),
        event == WaitEvent::CaptureRequested ==> action == WaitAction::Refuse(
            CaptureError::Interrupted,
        ),
        event == WaitEvent::ChannelClosed ==> action == WaitAction::Finish(
            Err(ConnectionError::AppQuitting),
        ),
{
    match event {
        WaitEvent::Elapsed => WaitAction::Finish(Ok(())),
        WaitEvent::CaptureRequested => WaitAction::Refuse(CaptureError::Interrupted),
        WaitEvent::ChannelClosed => WaitAction::Finish(Err(ConnectionError::AppQuitting)),
    }
}

/// What the driver's main loop does next.
#[derive(Clone, Copy, Debug, PartialEq, Eq, Structural)]
pub enum ActorAction {
    /// Report `Ready` and serve capture requests.
    Serve,
    /// Try to connect again.
    Reconnect,
    /// End the driver.
    Quit,
}

/// After a connection sequence: serve when a camera was found, quit when the
/// application is quitting, and start over when the hardware did not respond.
pub fn after_connect<D>(result: &Result<D, ConnectionError>) -> (action: ActorAction)
    ensures
        result is Ok ==> action == ActorAction::Serve,
        result matches Err(e) && e == ConnectionError::AppQuitting ==> action == ActorAction::Quit,
        result matches Err(e) && e == ConnectionError::HardwareUnresponsive ==> action
            == ActorAction::Reconnect,
{
    match result {
        Ok(_) => ActorAction::Serve,
        Err(ConnectionError::AppQuitting) => ActorAction::Quit,
        Err(ConnectionError::HardwareUnresponsive) => ActorAction::Reconnect,
    }
}

/// After serving ends: the driver ends when its command channel closed
/// (`failure` is `None`) and reconnects when the camera failed.
pub fn after_serving(failure: &Option<String>) -> (action: ActorAction)
    ensures
        failure is None ==> action == ActorAction::Quit,
        failure is Some ==> action == ActorAction::Reconnect,
{
    match failure {
        None => ActorAction::Quit,
        Some(_) => ActorAction::Reconnect,
    }
}


/// Where the driver's main loop stands.
#[derive(Clone, Copy, Debug, PartialEq, Eq, Structural)]
pub enum DriverPhase {
    /// Attempt `attempt` is detecting the camera.
    Detecting { attempt: u32 },
    /// Attempt `attempt` found no camera; the driver waits before the next.
    Waiting { attempt: u32 },
    /// Every attempt failed; the driver reports it and starts over.
    GaveUp,
    /// A camera is connected and the driver serves requests.
    Serving,
    /// The driver has ended.
    Stopped,
}

/// What the driver's main loop learns from the work it did.
pub enum DriverEvent {
    /// The detection found a camera.
    Detected,
    /// The detection found no camera.
    NotDetected,
    /// The wait between attempts ended with this result.
    WaitEnded(Result<(), ConnectionError>),
    /// The driver reported that the hardware does not respond.
    Restart,
    /// Serving ended: with the camera's failure, or `None` when the command
    /// channel closed.
    ServingEnded(Option<String>),
}

/// The kind of work the driver's main loop does next.
#[derive(Clone, Copy, Debug, PartialEq, Eq, Structural)]
pub enum DirectiveKind {
    /// Report `Recovering` for attempt `attempt` and detect the camera.
    Detect { attempt: u32 },
    /// Wait between attempts, refusing captures.
    Wait,
    /// Report that the hardware does not respond.
    ReportUnresponsive,
    /// Report `Ready` and serve capture requests.
    PublishReadyAndServe,
    /// End the driver.
    Stop,
    /// The event does not belong to the current phase: do nothing.
    Ignore,
}

/// The work the driver's main loop does next.
#[derive(Debug)]
pub enum Directive {
    /// Report `status`, power-cycle the USB port first if `hard_reset`, and
    /// detect the camera.
    Detect { attempt: u32, status: CameraStatus, hard_reset: bool },
    /// Wait `millis` milliseconds, refusing captures.
    Wait { millis: u64 },
    ReportUnresponsive,
    PublishReadyAndServe,
    Stop,
    Ignore,
}

impl Directive {
    pub open spec fn kind(&self) -> DirectiveKind {
        match self {
            Directive::Detect { attempt, .. } => DirectiveKind::Detect { attempt: *attempt },
            Directive::Wait { .. } => DirectiveKind::Wait,
            Directive::ReportUnresponsive => DirectiveKind::ReportUnresponsive,
            Directive::PublishReadyAndServe => DirectiveKind::PublishReadyAndServe,
            Directive::Stop => DirectiveKind::Stop,
            Directive::Ignore => DirectiveKind::Ignore,
        }
    }

    /// A detection directive reports the status of its attempt and resets the
    /// port on the hard-reset attempt; a wait lasts the retry delay.
    pub open spec fn well_formed(&self, config: ConnectionConfig) -> bool {
        match self {
            Directive::Detect { attempt, status, hard_reset } => {
                &&& status matches CameraStatus::Recovering { attempt: a, reason } && a == *attempt
                    && reason@ == attempt_reason(config, *attempt)
                &&& *hard_reset == is_hard_reset_attempt(config, *attempt)
            },
            Directive::Wait { millis } => *millis == RETRY_DELAY_MILLIS,
            _ => true,
        }
    }
}

/// The phase and work that a connection step leads to.
pub open spec fn enter(step: ConnectStep) -> (DriverPhase, DirectiveKind) {
    match step {
        ConnectStep::Attempt { attempt } => (
            DriverPhase::Detecting { attempt },
            DirectiveKind::Detect { attempt },
        ),
        ConnectStep::Failed(ConnectionError::AppQuitting) => (DriverPhase::Stopped, DirectiveKind::Stop),
        ConnectStep::Failed(ConnectionError::HardwareUnresponsive) => (
            DriverPhase::GaveUp,
            DirectiveKind::ReportUnresponsive,
        ),
    }
}

/// The phase and work the driver starts with.
pub open spec fn driver_start(config: ConnectionConfig) -> (DriverPhase, DirectiveKind) {
    enter(start_step(config))
}

/// The phase and work after `event` in `phase`.
pub open spec fn driver_step(config: ConnectionConfig, phase: DriverPhase, event: DriverEvent) -> (
    DriverPhase,
    DirectiveKind,
) {
    match (phase, event) {
        (DriverPhase::Detecting { .. }, DriverEvent::Detected) => (
            DriverPhase::Serving,
            DirectiveKind::PublishReadyAndServe,
        ),
        (DriverPhase::Detecting { attempt }, DriverEvent::NotDetected) => (
            DriverPhase::Waiting { attempt },
            DirectiveKind::Wait,
        ),
        (DriverPhase::Waiting { attempt }, DriverEvent::WaitEnded(result)) => enter(
            step_after_wait(config, attempt, result),
        ),
        (DriverPhase::GaveUp, DriverEvent::Restart) => driver_start(config),
        (DriverPhase::Serving, DriverEvent::ServingEnded(failure)) => if failure is Some {
            driver_start(config)
        } else {
            (DriverPhase::Stopped, DirectiveKind::Stop)
        },
        (DriverPhase::Stopped, _) => (DriverPhase::Stopped, DirectiveKind::Stop),
        (p, _) => (p, DirectiveKind::Ignore),
    }
}

/// The driver's main loop: connect, report `Ready` and serve, start over when
/// the camera fails or the hardware does not respond, end when the
/// application quits.
pub struct DriverLoop {
    config: ConnectionConfig,
    phase: DriverPhase,
}

/// The directive that leads into `next`, with the config it was made for.
fn directive_for(config: ConnectionConfig, next: Connection) -> (res: (DriverPhase, Directive))
    ensures
        (res.0, res.1.kind()) == enter(next.spec_step()),
        next matches Connection::Attempt(a) ==> a.spec_config() == config ==> res.1.well_formed(config),
{
    match next {
        Connection::Attempt(a) => {
            let attempt = a.attempt();
            let status = a.status();
            let hard_reset = a.is_hard_reset();
            (DriverPhase::Detecting { attempt }, Directive::Detect { attempt, status, hard_reset })
        },
        Connection::Failed(error) => match after_connect::<()>(&Err(error)) {
            ActorAction::Quit => (DriverPhase::Stopped, Directive::Stop),
            _ => (DriverPhase::GaveUp, Directive::ReportUnresponsive),
        },
    }
}

impl DriverLoop {
    pub closed spec fn spec_config(&self) -> ConnectionConfig {
        self.config
    }

    pub closed spec fn spec_phase(&self) -> DriverPhase {
        self.phase
    }

    /// The loop at its start, with its first directive.
    pub fn start(config: ConnectionConfig) -> (res: (Self, Directive))
        ensures
            res.0.spec_config() == config,
            (res.0.spec_phase(), res.1.kind()) == driver_start(config),
            res.1.well_formed(config),
    {
        let (phase, directive) = directive_for(config, Connection::start(config));
        (DriverLoop { config, phase }, directive)
    }

    pub fn phase(&self) -> (phase: DriverPhase)
        ensures
            phase == self.spec_phase(),
    {
        self.phase
    }

    /// Takes in the outcome of the last directive and gives the next one.
    pub fn on_event(&mut self, event: DriverEvent) -> (directive: Directive)
        ensures
            final(self).spec_config() == old(self).spec_config(),
            (final(self).spec_phase(), directive.kind()) == driver_step(
                old(self).spec_config(),
                old(self).spec_phase(),
                event,
            ),
            directive.well_formed(old(self).spec_config()),
    {
        let config = self.config;
        let (phase, directive) = match (self.phase, event) {
            (DriverPhase::Detecting { .. }, DriverEvent::Detected) => (
                DriverPhase::Serving,
                Directive::PublishReadyAndServe,
            ),
            (DriverPhase::Detecting { attempt }, DriverEvent::NotDetected) => (
                DriverPhase::Waiting { attempt },
                Directive::Wait { millis: RETRY_DELAY_MILLIS },
            ),
            (DriverPhase::Waiting { attempt }, DriverEvent::WaitEnded(result)) => {
                let waiting = Waiting { config, attempt };
                directive_for(config, waiting.wait_finished(result))
            },
            (DriverPhase::GaveUp, DriverEvent::Restart) => directive_for(config, Connection::start(config)),
            (DriverPhase::Serving, DriverEvent::ServingEnded(failure)) => match after_serving(&failure) {
                ActorAction::Quit => (DriverPhase::Stopped, Directive::Stop),
                _ => directive_for(config, Connection::start(config)),
            },
            (DriverPhase::Stopped, _) => (DriverPhase::Stopped, Directive::Stop),
            (phase, _) => (phase, Directive::Ignore),
        };
        self.phase = phase;
        directive
    }
}


/// The work that is in progress in `phase`: the directive that led into it.
pub open spec fn active_kind(phase: DriverPhase) -> DirectiveKind {
    match phase {
        DriverPhase::Detecting { attempt } => DirectiveKind::Detect { attempt },
        DriverPhase::Waiting { .. } => DirectiveKind::Wait,
        DriverPhase::GaveUp => DirectiveKind::ReportUnresponsive,
        DriverPhase::Serving => DirectiveKind::PublishReadyAndServe,
        DriverPhase::Stopped => DirectiveKind::Stop,
    }
}

/// The last directive of `trace` that did something.
pub open spec fn last_active(trace: Seq<DirectiveKind>) -> Option<DirectiveKind>
    decreases trace.len(),
{
    if trace.len() == 0 {
        None
    } else if trace.last() == DirectiveKind::Ignore {
        last_active(trace.drop_last())
    } else {
        Some(trace.last())
    }
}

/// The phase after `events`, and every directive given: the first one, then
/// one per event.
pub open spec fn driver_run(config: ConnectionConfig, events: Seq<DriverEvent>) -> (
    DriverPhase,
    Seq<DirectiveKind>,
)
    decreases events.len(),
{
    if events.len() == 0 {
        (driver_start(config).0, seq![driver_start(config).1])
    } else {
        let (phase, trace) = driver_run(config, events.drop_last());
        let (next, directive) = driver_step(config, phase, events.last());
        (next, trace.push(directive))
    }
}

proof fn lemma_step_shape(config: ConnectionConfig, phase: DriverPhase, event: DriverEvent)
    ensures
        driver_step(config, phase, event).1 == DirectiveKind::Ignore ==> driver_step(config, phase, event).0
            == phase,
        driver_step(config, phase, event).1 != DirectiveKind::Ignore ==> driver_step(config, phase, event).1
            == active_kind(driver_step(config, phase, event).0),
        driver_step(config, phase, event).1 == DirectiveKind::PublishReadyAndServe ==> phase is Detecting
            && event is Detected,
        phase == DriverPhase::GaveUp && driver_step(config, phase, event).1 != DirectiveKind::Ignore
            ==> driver_step(config, phase, event) == driver_start(config),
{
}

proof fn lemma_run_invariant(config: ConnectionConfig, events: Seq<DriverEvent>)
    ensures
        driver_run(config, events).1.len() == events.len() + 1,
        last_active(driver_run(config, events).1) == Some(active_kind(driver_run(config, events).0)),
    decreases events.len(),
{
    if events.len() > 0 {
        lemma_run_invariant(config, events.drop_last());
        let (phase, trace) = driver_run(config, events.drop_last());
        lemma_step_shape(config, phase, events.last());
        assert(driver_run(config, events).1.drop_last() =~= trace);
    }
}

proof fn lemma_run_step(config: ConnectionConfig, events: Seq<DriverEvent>, i: int)
    requires
        1 <= i <= events.len(),
    ensures
        driver_run(config, events.take(i)) == ({
            let (phase, trace) = driver_run(config, events.take(i - 1));
            let (next, directive) = driver_step(config, phase, events[i - 1]);
            (next, trace.push(directive))
        }),
{
    assert(events.take(i).drop_last() =~= events.take(i - 1));
    assert(events.take(i).last() == events[i - 1]);
}

proof fn lemma_run_prefix(config: ConnectionConfig, events: Seq<DriverEvent>, i: int)
    requires
        0 <= i <= events.len(),
    ensures
        driver_run(config, events.take(i)).1 == driver_run(config, events).1.take(i + 1),
    decreases events.len(),
{
    lemma_run_invariant(config, events);
    if i == events.len() {
        assert(events.take(i) =~= events);
        assert(driver_run(config, events).1.take(i + 1) =~= driver_run(config, events).1);
    } else {
        let shorter = events.drop_last();
        lemma_run_prefix(config, shorter, i);
        assert(shorter.take(i) =~= events.take(i));
        lemma_run_invariant(config, shorter);
        assert(driver_run(config, events).1.take(i + 1) =~= driver_run(config, shorter).1.take(i + 1));
    }
}

/// Over any run of the driver's loop: `Ready` is reported only right after a
/// detection found the camera, and the last thing reported before it is the
/// `Recovering` status of that very attempt; requests are served only after
/// `Ready`; and once the driver has reported that the hardware does not
/// respond, the next thing it does starts the attempts over from the first.
pub proof fn lemma_driver_run_reports(config: ConnectionConfig, events: Seq<DriverEvent>)
    ensures
        forall|i: int| 1 <= i < driver_run(config, events).1.len() && #[trigger] driver_run(config, events).1[i]
            == DirectiveKind::PublishReadyAndServe ==> {
            &&& events[i - 1] is Detected
            &&& last_active(driver_run(config, events).1.take(i)) matches Some(
                DirectiveKind::Detect { .. },
            )
        },
        driver_run(config, events).0 == DriverPhase::Serving ==> last_active(driver_run(config, events).1)
            == Some(DirectiveKind::PublishReadyAndServe),
        forall|i: int| 1 <= i < driver_run(config, events).1.len() && last_active(driver_run(config, events).1.take(i))
            == Some(DirectiveKind::ReportUnresponsive) && #[trigger] driver_run(config, events).1[i]
            != DirectiveKind::Ignore ==> driver_run(config, events).1[i] == driver_start(config).1,
        config.max_total_retries >= 1 ==> driver_start(config).1 == (DirectiveKind::Detect { attempt: 1 }),
{
    lemma_run_invariant(config, events);
    let trace = driver_run(config, events).1;
    assert forall|i: int| #![trigger trace[i]] 1 <= i < trace.len() implies ({
        let (phase, before) = driver_run(config, events.take(i - 1));
        &&& before == trace.take(i)
        &&& trace[i] == driver_step(config, phase, events[i - 1]).1
        &&& last_active(before) == Some(active_kind(phase))
    }) by {
        let (phase, before) = driver_run(config, events.take(i - 1));
        lemma_run_prefix(config, events, i - 1);
        lemma_run_prefix(config, events, i);
        lemma_run_step(config, events, i);
        lemma_run_invariant(config, events.take(i - 1));
        assert(trace.take(i + 1)[i] == trace[i]);
        assert(trace.take(i + 1).drop_last() =~= trace.take(i));
    }
    assert forall|i: int| 1 <= i < trace.len() && #[trigger] trace[i] == DirectiveKind::PublishReadyAndServe
        implies events[i - 1] is Detected && last_active(trace.take(i)) matches Some(DirectiveKind::Detect { .. }) by {
        let (phase, before) = driver_run(config, events.take(i - 1));
        lemma_step_shape(config, phase, events[i - 1]);
    }
    assert forall|i: int| 1 <= i < trace.len() && last_active(trace.take(i)) == Some(DirectiveKind::ReportUnresponsive)
        && #[trigger] trace[i] != DirectiveKind::Ignore implies trace[i] == driver_start(config).1 by {
        let (phase, before) = driver_run(config, events.take(i - 1));
        lemma_step_shape(config, phase, events[i - 1]);
        assert(phase == DriverPhase::GaveUp);
    }
}


/// A wait cut short ends the connection sequence with the very error that
/// cut it, on every attempt: when the application quits during any wait, the
/// driver stops instead of reporting unresponsive hardware; a wait that runs
/// out leads to the next attempt while attempts remain.
pub proof fn lemma_wait_error_ends_sequence(config: ConnectionConfig, attempt: u32, e: ConnectionError)
    ensures
        step_after_wait(config, attempt, Err(e)) == ConnectStep::Failed(e),
        enter(step_after_wait(config, attempt, Err(ConnectionError::AppQuitting))) == (
            DriverPhase::Stopped,
            DirectiveKind::Stop,
        ),
        attempt < config.max_total_retries ==> step_after_wait(config, attempt, Ok(()))
            == (ConnectStep::Attempt { attempt: (attempt + 1) as u32 }),
{
}

} // verus!
