//! The process machines, driven over a simulated system.
use std::collections::VecDeque;
use std::time::Duration;

use codex_supervisor::clock::Moment;
use codex_supervisor::process::attempt::{
    attempt_deadlines, finish_app_server_shutdown, finish_shutdown, mode_after_forwarded_signal,
    shutdown_pair_inner_with_tui_output_progress,
};
use codex_supervisor::process::attempt;
use codex_supervisor::process::child::{
    sleep_until_next_poll, AppGracefulDrainState, ChildAuthority, ChildLiveness, ForwardedTuiSignal,
    GroupAbsence, GroupContainmentPolicy, InteractiveTerminalSignal, ManagedGroupChild,
    TerminalShutdownSignal,
};
use codex_supervisor::process::control::{self, ControlPhase, ResumePhase, SuspendPhase};
use codex_supervisor::process::descriptor::{
    descriptor_observation_deadline, observe_forbidden_descriptors_absent_while_live,
    retry_descriptor_observation, DescriptorObservationAttemptError, DescriptorRetry, LiveAction,
    LiveEvent, LiveObservation, ProcessGroupDescriptorScanError, RetryAction, RetryEvent,
    DESCRIPTOR_OBSERVATION_SETTLE_NANOS,
};
use codex_supervisor::process::error::{
    AppGracefulDrainFailureStage, ProcessError, TuiReadinessError,
};
use codex_supervisor::process::observe::{
    observe_exit_without_reaping, signal_group, ChildAction, ChildEvent, ObserveExit, PollOutcome,
    ReadinessRead, SignalPhase,
};
use codex_supervisor::process::outcome::{
    PinnedAppGracefulDrain, ShutdownCompletion, ShutdownOutcome, TuiShutdownMode,
};
use codex_supervisor::process::publish::{
    publish_session_leader, publish_session_leader_with_probe, spawn, spawn_fixture,
    spawn_fixture_session_leader_with_inherited_fd, spawn_inner,
    spawn_session_leader_with_inherited_fd, spawn_with_parent_liveness_pipe, SessionAction, SessionEvent, SessionLaunch,
    SessionPublication, SessionSpawn, SpawnReadback, SpawnStep,
};
use codex_supervisor::process::readiness::{
    self, AwaitPhase, AwaitReady, ConfirmPhase, ConfirmRunning, TokenAction, TokenEvent, TokenPhase,
    TokenRead, TokenWait, TuiReadinessReceiver, VerifiedTuiReadiness, TUI_READINESS_TOKEN,
};
use codex_supervisor::process::release::{ChildRelease, ReleaseVerdict, SpawnRelease};
use codex_supervisor::process::shutdown::{
    PairAction, PairEvent, ShutdownPair, Slot, UnreapedChildren,
};
use codex_supervisor::process::spawn::{
    finish_spawn_cleanup, SpawnCleanup, SpawnCleanupProof, SpawnFailure, SpawnFailureState,
};
use codex_supervisor::process::status::{
    classify_session_identity, ExitStatus, ReapOutcome, SessionIdentityObservation, Signal,
    SystemError, WaitStatus,
};
use codex_supervisor::protocol::message::{
    ChildDisposition, ChildRole, StopAction, UnixSignal,
};

const TEST_DEADLINE: Duration = Duration::from_secs(3);

// ---------------------------------------------------------------------------
// The simulated system.
// ---------------------------------------------------------------------------

/// What a program does on TERM.
#[derive(Clone, Copy, PartialEq, Eq)]
enum OnTerm {
    Die,
    Ignore,
    Exit(i32),
    KillSelf,
}

/// What a program does by itself, some time after it was started.
#[derive(Clone, Copy)]
enum Happening {
    Write(u8),
    CloseOutput,
    Exit(i32),
    Die(i32),
}

#[derive(Clone)]
struct Program {
    /// HUP, TERM and TSTP are caught and logged.
    counting: bool,
    on_term: OnTerm,
    timeline: Vec<(u64, Happening)>,
}

fn millis(value: u64) -> u64 {
    value * 1_000_000
}

fn sleeping() -> Program {
    Program { counting: false, on_term: OnTerm::Die, timeline: Vec::new() }
}

fn scripted(timeline: &[(u64, Happening)]) -> Program {
    Program { timeline: timeline.to_vec(), ..sleeping() }
}

/// Prints the sentinel, closes its output and goes on.
fn announcing(on_term: OnTerm) -> Program {
    Program {
        on_term,
        ..scripted(&[(millis(1), Happening::Write(b'R')), (millis(1), Happening::CloseOutput)])
    }
}

fn counting(on_term: OnTerm) -> Program {
    Program { counting: true, on_term, timeline: Vec::new() }
}

#[derive(Clone, Copy, PartialEq, Eq)]
enum Life {
    Running,
    Stopped,
    Gone(ExitStatus),
}

struct Process {
    pid: i32,
    program: Program,
    started: u64,
    happened: usize,
    life: Life,
    reaped: bool,
    stop_unreported: bool,
    pending: Vec<Signal>,
    log: Vec<u8>,
    output: VecDeque<u8>,
    output_open: bool,
}

fn exited_with(code: i32) -> Life {
    Life::Gone(ExitStatus { code: Some(code), signal: None, core_dumped: false })
}

fn died_of(signal: i32) -> Life {
    Life::Gone(ExitStatus { code: None, signal: Some(signal), core_dumped: false })
}

impl Process {
    fn settle(&mut self, clock: u64) {
        while self.happened < self.program.timeline.len() {
            let (after, happening) = self.program.timeline[self.happened];
            if self.started + after > clock || matches!(self.life, Life::Gone(_)) {
                return;
            }
            self.happened += 1;
            match happening {
                Happening::Write(byte) => self.output.push_back(byte),
                Happening::CloseOutput => self.output_open = false,
                Happening::Exit(code) => self.life = exited_with(code),
                Happening::Die(signal) => self.life = died_of(signal),
            }
        }
    }

    fn take(&mut self, signal: Signal) {
        if matches!(self.life, Life::Gone(_)) {
            return;
        }
        match signal {
            Signal::Kill => self.life = died_of(9),
            Signal::Stop => self.stop(),
            Signal::Tstp if self.program.counting => self.log.push(b'S'),
            Signal::Tstp => self.stop(),
            Signal::Cont => {
                if self.life == Life::Stopped {
                    self.life = Life::Running;
                    self.stop_unreported = false;
                    for signal in std::mem::take(&mut self.pending) {
                        self.act(signal);
                    }
                }
            }
            Signal::Winch => {}
            Signal::Hup | Signal::Int | Signal::Quit | Signal::Term => {
                if self.life == Life::Stopped {
                    self.pending.push(signal);
                } else {
                    self.act(signal);
                }
            }
        }
    }

    fn stop(&mut self) {
        if self.life == Life::Running {
            self.life = Life::Stopped;
            self.stop_unreported = true;
        }
    }

    fn act(&mut self, signal: Signal) {
        match signal {
            Signal::Hup if self.program.counting => self.log.push(b'H'),
            Signal::Hup => self.life = died_of(1),
            Signal::Int => self.life = died_of(2),
            Signal::Quit => self.life = died_of(3),
            Signal::Term => {
                if self.program.counting {
                    self.log.push(b'T');
                }
                match self.program.on_term {
                    OnTerm::Die => self.life = died_of(15),
                    OnTerm::Ignore => {}
                    OnTerm::Exit(code) => self.life = exited_with(code),
                    OnTerm::KillSelf => self.life = died_of(9),
                }
            }
            _ => {}
        }
    }

    fn exit_report(&self) -> Option<WaitStatus> {
        match self.life {
            Life::Gone(status) => Some(WaitStatus {
                stopped: false,
                exited: status.code.is_some(),
                killed: status.code.is_none() && !status.core_dumped,
                dumped: status.core_dumped,
                exit_status: status.code,
                terminating_signal: status.signal,
            }),
            _ => None,
        }
    }

    fn stop_report(&self) -> Option<WaitStatus> {
        if self.stop_unreported && self.life == Life::Stopped {
            Some(WaitStatus {
                stopped: true,
                exited: false,
                killed: false,
                dumped: false,
                exit_status: None,
                terminating_signal: None,
            })
        } else {
            None
        }
    }
}

type Child = ManagedGroupChild<usize>;
type Unreaped = UnreapedChildren<usize>;

struct System {
    clock: u64,
    processes: Vec<Process>,
    authorities: u64,
    /// A signal to the leader alone that fails.
    leader_fault: Option<Signal>,
    /// How signals to a group fail.
    group_fault: Option<SystemError>,
    /// What an independent look at a group says.
    absence: GroupAbsence,
}

impl System {
    fn new() -> Self {
        System {
            clock: 1_000_000_000,
            processes: Vec::new(),
            authorities: 1,
            leader_fault: None,
            group_fault: None,
            absence: GroupAbsence { leader: None, zombie_only: None, live_members: None },
        }
    }

    fn now(&self) -> Moment {
        Moment { nanos: self.clock }
    }

    fn after(&self, duration: Duration) -> Moment {
        Moment { nanos: self.clock + duration.as_nanos() as u64 }
    }

    fn start(&mut self, program: Program) -> usize {
        let pid = 100 + self.processes.len() as i32;
        self.processes.push(Process {
            pid,
            program,
            started: self.clock,
            happened: 0,
            life: Life::Running,
            reaped: false,
            stop_unreported: false,
            pending: Vec::new(),
            log: b"R".to_vec(),
            output: VecDeque::new(),
            output_open: true,
        });
        self.processes.len() - 1
    }

    fn spawn_fixture(
        &mut self,
        role: ChildRole,
        program: Program,
        readiness: bool,
    ) -> Result<Child, SpawnFailure<usize>> {
        let handle = self.start(program);
        let pid = self.processes[handle].pid;
        let readback = SpawnReadback {
            pid,
            process_group: Ok(pid),
            parent_liveness_wanted: false,
            parent_liveness_open: false,
            readiness_wanted: readiness,
            readiness_open: readiness,
        };
        let now = self.now();
        match spawn_fixture(
            role,
            readiness,
            Some((handle, readback)),
            &mut self.authorities,
            now,
        ) {
            SpawnStep::Published(child) => Ok(child),
            SpawnStep::Failed(failure) => Err(failure),
            SpawnStep::Cleanup { cleanup, error } => Err(self.finish_cleanup(cleanup, error)),
        }
    }

    fn tui(&mut self, program: Program, readiness: bool) -> Child {
        match self.spawn_fixture(ChildRole::Tui, program, readiness) {
            Ok(child) => child,
            Err(_) => panic!("the fixture TUI was not published"),
        }
    }

    fn app(&mut self, program: Program, readiness: bool) -> Child {
        match self.spawn_fixture(ChildRole::AppServer, program, readiness) {
            Ok(child) => child,
            Err(_) => panic!("the fixture App Server was not published"),
        }
    }

    fn cooperative_app(&mut self) -> Result<Child, ProcessError> {
        let mut app = self.app(announcing(OnTerm::Exit(0)), true);
        let deadline = self.after(TEST_DEADLINE);
        self.await_ready(&mut app, deadline)?;
        Ok(app)
    }

    fn log(&self, child: usize) -> &[u8] {
        &self.processes[child].log
    }

    fn settle(&mut self) {
        let clock = self.clock;
        for process in &mut self.processes {
            process.settle(clock);
        }
    }

    fn readable(&self, handle: usize) -> bool {
        let process = &self.processes[handle];
        !process.output.is_empty() || !process.output_open
    }

    fn perform(&mut self, handle: usize, action: ChildAction) -> ChildEvent {
        self.clock += 10_000;
        self.settle();
        match action {
            ChildAction::ReadClock => ChildEvent::Clock(self.now()),
            ChildAction::WaitExit => {
                let process = &self.processes[handle];
                if process.reaped {
                    ChildEvent::Waited(Err(SystemError::Other))
                } else {
                    ChildEvent::Waited(Ok(process.exit_report()))
                }
            }
            ChildAction::WaitStoppedOrExit => {
                let process = &self.processes[handle];
                ChildEvent::Waited(Ok(process.stop_report().or(process.exit_report())))
            }
            ChildAction::ConsumeStop => {
                let process = &mut self.processes[handle];
                let report = process.stop_report();
                process.stop_unreported = false;
                ChildEvent::Waited(Ok(report))
            }
            ChildAction::SignalGroup(signal) => ChildEvent::Signaled(match self.group_fault {
                Some(error) => Err(error),
                None if self.processes[handle].reaped => Err(SystemError::NoSuchProcess),
                None => {
                    self.processes[handle].take(signal);
                    Ok(())
                }
            }),
            ChildAction::SignalLeader(signal) => {
                ChildEvent::Signaled(if self.leader_fault == Some(signal) {
                    Err(SystemError::Other)
                } else {
                    self.processes[handle].take(signal);
                    Ok(())
                })
            }
            ChildAction::ProbeGroupAbsence => ChildEvent::Absence(self.absence),
            ChildAction::TryWait => {
                let process = &mut self.processes[handle];
                ChildEvent::Reaped(match process.life {
                    _ if process.reaped => ReapOutcome::Failed,
                    Life::Gone(status) => {
                        process.reaped = true;
                        ReapOutcome::Reaped(status)
                    }
                    _ => ReapOutcome::Running,
                })
            }
            ChildAction::KillLeader => {
                self.processes[handle].take(Signal::Kill);
                ChildEvent::LeaderKilled
            }
            ChildAction::Sleep { deadline } => {
                self.clock += sleep_until_next_poll(self.now(), deadline);
                self.settle();
                ChildEvent::Slept
            }
            ChildAction::PollReadiness { nanos } => {
                if !self.readable(handle) {
                    self.clock += nanos;
                    self.settle();
                }
                ChildEvent::Polled(if self.readable(handle) {
                    PollOutcome::Ready { broken: false, readable: true }
                } else {
                    PollOutcome::Quiet
                })
            }
            ChildAction::ReadReadiness => {
                let process = &mut self.processes[handle];
                let first = process.output.pop_front();
                let second = if first.is_some() { process.output.pop_front() } else { None };
                ChildEvent::ReadinessRead(ReadinessRead::Bytes {
                    count: usize::from(first.is_some()) + usize::from(second.is_some()),
                    first: first.unwrap_or(0),
                })
            }
        }
    }

    // -----------------------------------------------------------------------
    // Drivers.
    // -----------------------------------------------------------------------

    fn await_ready(&mut self, child: &mut Child, deadline: Moment) -> Result<(), ProcessError> {
        let mut wait = AwaitReady::begin(&mut child.state, deadline);
        while let Some(action) = wait.action() {
            let event = self.perform(child.handle, action);
            readiness::await_ready(&mut wait, &mut child.state, event);
        }
        match wait.phase {
            AwaitPhase::Ready => Ok(()),
            AwaitPhase::Failed(error) => Err(error),
            _ => panic!("the wait for readiness stopped early"),
        }
    }

    fn observe_exit(&mut self, child: &mut Child, deadline: Moment) -> ObserveExit {
        let mut observe = ObserveExit::begin(&child.state, deadline);
        while let Some(action) = observe.action() {
            let event = self.perform(child.handle, action);
            observe_exit_without_reaping(&mut observe, &mut child.state, event);
        }
        observe
    }

    fn poll_liveness(
        &mut self,
        child: &mut Child,
        deadline: Moment,
    ) -> Result<ChildLiveness, ProcessError> {
        let observe = self.observe_exit(child, deadline);
        match control::poll_liveness(&observe) {
            Some(polled) => polled,
            None => panic!("the observation stopped early"),
        }
    }

    fn await_exit(&mut self, child: &mut Child) -> Result<(), ProcessError> {
        let deadline = self.after(TEST_DEADLINE);
        while self.poll_liveness(child, deadline)? != ChildLiveness::Exited {
            assert!(!self.now().has_reached(deadline));
            self.perform(child.handle, ChildAction::Sleep { deadline });
        }
        Ok(())
    }

    fn confirm_running(&mut self, child: &mut Child, deadline: Moment) -> Result<(), ProcessError> {
        let mut confirm = ConfirmRunning::begin(&mut child.state, deadline);
        while let Some(action) = confirm.action() {
            let event = self.perform(child.handle, action);
            readiness::confirm_running_after_readiness(&mut confirm, &mut child.state, event);
        }
        match confirm.phase {
            ConfirmPhase::Running => Ok(()),
            ConfirmPhase::Failed(error) => Err(error),
            _ => panic!("the check stopped early"),
        }
    }

    fn control_signal(
        &mut self,
        child: &mut Child,
        begun: Result<control::ControlSignal, ProcessError>,
    ) -> Result<ChildLiveness, ProcessError> {
        let mut operation = begun?;
        while let Some(action) = operation.action() {
            let event = self.perform(child.handle, action);
            operation.advance(&mut child.state, event);
        }
        match operation.phase {
            ControlPhase::Done(liveness) => Ok(liveness),
            ControlPhase::Failed(error) => Err(error),
            _ => panic!("the control signal stopped early"),
        }
    }

    fn forward_shutdown(
        &mut self,
        child: &mut Child,
        signal: TerminalShutdownSignal,
    ) -> Result<ForwardedTuiSignal, ProcessError> {
        let deadline = self.after(TEST_DEADLINE);
        let mut forward = control::forward_terminal_shutdown_signal(&child.state, signal, deadline)?;
        while let Some(action) = forward.action() {
            let event = self.perform(child.handle, action);
            forward.advance(&mut child.state, event);
        }
        match forward.finish(&child.state) {
            Some(forwarded) => forwarded,
            None => panic!("the forwarding stopped early"),
        }
    }

    fn continue_after_forwarded_shutdown(
        &mut self,
        child: &mut Child,
        forwarded: &ForwardedTuiSignal,
    ) -> Result<(), ProcessError> {
        let deadline = self.after(TEST_DEADLINE);
        let mut sent =
            control::continue_after_forwarded_shutdown(&child.state, forwarded, deadline)?;
        while let Some(action) = sent.action() {
            let event = self.perform(child.handle, action);
            signal_group(&mut sent, &mut child.state, event);
        }
        match sent.phase {
            SignalPhase::Done => Ok(()),
            SignalPhase::Failed(error) => Err(error),
            _ => panic!("the continuation stopped early"),
        }
    }

    fn suspend(
        &mut self,
        child: &mut Child,
        graceful: Moment,
        forced: Moment,
    ) -> Result<(), ProcessError> {
        let mut operation = control::suspend(&child.state, graceful, forced)?;
        while let Some(action) = operation.action() {
            let event = self.perform(child.handle, action);
            operation.advance(&mut child.state, event);
        }
        match operation.phase {
            SuspendPhase::Stopped => Ok(()),
            SuspendPhase::Failed(error) => Err(error),
            _ => panic!("the suspension stopped early"),
        }
    }

    fn resume(&mut self, child: &mut Child, deadline: Moment) -> Result<(), ProcessError> {
        let mut operation = control::resume(&child.state, deadline)?;
        while let Some(action) = operation.action() {
            let event = self.perform(child.handle, action);
            operation.advance(&mut child.state, event);
        }
        match operation.phase {
            ResumePhase::Resumed => Ok(()),
            ResumePhase::Failed(error) => Err(error),
            _ => panic!("the resumption stopped early"),
        }
    }

    fn run_pair(
        &mut self,
        pair: &mut ShutdownPair<usize>,
        progress: &mut dyn FnMut() -> Result<(), ProcessError>,
    ) {
        while let Some(action) = pair.action() {
            let event = match action {
                PairAction::Child { slot, action } => {
                    let child = match slot {
                        Slot::Tui => pair.tui.as_ref(),
                        Slot::AppServer => pair.app_server.as_ref(),
                    };
                    let handle = match child {
                        Some(child) => child.handle,
                        None => panic!("an action for an empty slot"),
                    };
                    PairEvent::Child(self.perform(handle, action))
                }
                PairAction::Progress => PairEvent::Progressed(progress()),
                PairAction::ReadClock => PairEvent::Child(self.perform(0, ChildAction::ReadClock)),
                PairAction::Sleep { deadline } => {
                    PairEvent::Child(self.perform(0, ChildAction::Sleep { deadline }))
                }
            };
            pair.advance(event);
        }
    }

    fn attempt_times(&self) -> (Option<Moment>, Option<Moment>) {
        attempt_deadlines(
            self.now(),
            Duration::from_millis(100).as_nanos(),
            TEST_DEADLINE.as_nanos(),
        )
    }

    fn shutdown_pair_inner(
        &mut self,
        tui: Option<Child>,
        app_server: Option<Child>,
        grace: Duration,
        forced: Duration,
        mode: TuiShutdownMode,
        first_error: Option<ProcessError>,
    ) -> Result<ShutdownCompletion, Unreaped> {
        let (grace, hard) = attempt_deadlines(self.now(), grace.as_nanos(), forced.as_nanos());
        let mut pair = shutdown_pair_inner_with_tui_output_progress(
            tui,
            app_server,
            grace,
            hard,
            mode,
            first_error,
            false,
        )?;
        self.run_pair(&mut pair, &mut || Ok(()));
        finish_shutdown(pair)
    }

    fn shutdown_fixture_pair(
        &mut self,
        tui: Option<Child>,
        app_server: Option<Child>,
        grace: Duration,
        forced: Duration,
    ) -> Result<ShutdownOutcome, Unreaped> {
        self.shutdown_pair_inner(
            tui,
            app_server,
            grace,
            forced,
            TuiShutdownMode::StartWithTerm,
            None,
        )
        .map(|completion| completion.outcome)
    }

    fn shutdown_after_output_eof(
        &mut self,
        tui: Child,
        grace: Duration,
    ) -> Result<ShutdownOutcome, Unreaped> {
        self.shutdown_pair_inner(
            Some(tui),
            None,
            grace,
            TEST_DEADLINE,
            TuiShutdownMode::OutputEofObserved,
            None,
        )
        .map(|completion| completion.outcome)
    }

    fn shutdown_after_forwarded(
        &mut self,
        tui: Child,
        app_server: Option<Child>,
        forwarded: ForwardedTuiSignal,
        grace: Duration,
        forced: Duration,
    ) -> Result<ShutdownOutcome, Unreaped> {
        let (mode, first_error) = mode_after_forwarded_signal(forwarded, &tui.state);
        self.shutdown_pair_inner(Some(tui), app_server, grace, forced, mode, first_error)
            .map(|completion| completion.outcome)
    }

    fn shutdown_app_server_child(
        &mut self,
        app: Child,
        grace: Duration,
        forced: Duration,
    ) -> Result<PinnedAppGracefulDrain, Unreaped> {
        let (grace, hard) = attempt_deadlines(self.now(), grace.as_nanos(), forced.as_nanos());
        let mut pair = attempt::shutdown_app_server_child(app, grace, hard)?;
        self.run_pair(&mut pair, &mut || Ok(()));
        finish_app_server_shutdown(pair)
    }

    fn retry_app_server(
        &mut self,
        unreaped: &mut Unreaped,
        grace: Duration,
        forced: Duration,
    ) -> Result<PinnedAppGracefulDrain, ProcessError> {
        let (grace, hard) = attempt_deadlines(self.now(), grace.as_nanos(), forced.as_nanos());
        let mut pair = unreaped.retry_app_server(grace, hard)?;
        self.run_pair(&mut pair, &mut || Ok(()));
        unreaped.finish_retry_app_server(pair)
    }

    fn retry(
        &mut self,
        unreaped: &mut Unreaped,
        grace: Duration,
        forced: Duration,
        progress: Option<&mut dyn FnMut() -> Result<(), ProcessError>>,
    ) -> Result<ShutdownOutcome, ProcessError> {
        let (grace, hard) = attempt_deadlines(self.now(), grace.as_nanos(), forced.as_nanos());
        let mut pair = unreaped.retry_inner(grace, hard, progress.is_some())?;
        match progress {
            Some(progress) => self.run_pair(&mut pair, progress),
            None => self.run_pair(&mut pair, &mut || Ok(())),
        }
        unreaped.finish_retry(pair)
    }

    fn run_cleanup(
        &mut self,
        mut cleanup: SpawnCleanup<usize>,
    ) -> Result<SpawnCleanupProof, SpawnFailure<usize>> {
        while let Some(action) = cleanup.action() {
            let handle = match cleanup.failure.child.as_ref() {
                Some(child) => child.handle,
                None => panic!("a cleanup without a child goes on"),
            };
            let event = self.perform(handle, action);
            cleanup.advance(event);
        }
        cleanup.finish()
    }

    fn finish_cleanup(
        &mut self,
        mut cleanup: SpawnCleanup<usize>,
        error: ProcessError,
    ) -> SpawnFailure<usize> {
        while let Some(action) = cleanup.action() {
            let handle = match cleanup.failure.child.as_ref() {
                Some(child) => child.handle,
                None => panic!("a cleanup without a child goes on"),
            };
            let event = self.perform(handle, action);
            cleanup.advance(event);
        }
        finish_spawn_cleanup(cleanup, error)
    }

    fn release_child(&mut self, mut child: Child) -> (Option<ReleaseVerdict>, Vec<ChildAction>) {
        let mut actions = Vec::new();
        let mut release = ChildRelease::begin(&mut child.state);
        while let Some(action) = release.action() {
            actions.push(action);
            let event = self.perform(child.handle, action);
            release.advance(&mut child.state, event);
        }
        (release.verdict(), actions)
    }

    fn release_failure(&mut self, failure: SpawnFailure<usize>) -> Option<ReleaseVerdict> {
        let mut release = SpawnRelease::begin(failure);
        while let Some(action) = release.action() {
            let handle = match release.failure.child.as_ref() {
                Some(child) => child.handle,
                None => panic!("a release without a child goes on"),
            };
            let event = self.perform(handle, action);
            release.advance(event);
        }
        release.verdict()
    }

    fn assert_no_wait_authority(&self, handle: usize) {
        assert!(self.processes[handle].reaped);
    }
}

fn expect_err<T, E>(result: Result<T, E>, message: &str) -> E {
    match result {
        Ok(_) => panic!("{message}"),
        Err(error) => error,
    }
}

fn expect_ok<T, E>(result: Result<T, E>, message: &str) -> T {
    match result {
        Ok(value) => value,
        Err(_) => panic!("{message}"),
    }
}

fn drain_error(stage: AppGracefulDrainFailureStage) -> ProcessError {
    ProcessError::AppGracefulDrainUnconfirmed { role: ChildRole::AppServer, stage }
}

// ---------------------------------------------------------------------------
// The launcher's readiness token.
// ---------------------------------------------------------------------------

/// The launcher's channel: bytes at given times, and an end that may never come.
struct TokenChannel {
    clock: u64,
    bytes: VecDeque<(u64, u8)>,
    closes: Option<u64>,
}

impl TokenChannel {
    fn receive(
        &mut self,
        receiver: &mut TuiReadinessReceiver,
        deadline: Moment,
    ) -> Result<VerifiedTuiReadiness, TuiReadinessError> {
        let mut wait = TokenWait::begin(deadline);
        while let Some(action) = wait.action() {
            let event = match action {
                TokenAction::ReadClock => TokenEvent::Clock(Moment { nanos: self.clock }),
                TokenAction::Poll { nanos } => {
                    let next = match self.bytes.front() {
                        Some((at, _)) => Some(*at),
                        None => self.closes,
                    };
                    match next {
                        Some(at) if at <= self.clock + nanos => {
                            self.clock = self.clock.max(at);
                            TokenEvent::Polled(PollOutcome::Ready { broken: false, readable: true })
                        }
                        _ => {
                            self.clock += nanos;
                            TokenEvent::Polled(PollOutcome::Quiet)
                        }
                    }
                }
                TokenAction::Read => {
                    let mut taken = Vec::new();
                    while taken.len() < 2 {
                        match self.bytes.front() {
                            Some((at, byte)) if *at <= self.clock => {
                                taken.push(*byte);
                                self.bytes.pop_front();
                            }
                            _ => break,
                        }
                    }
                    let first = taken.first().copied().unwrap_or(0);
                    TokenEvent::Read(TokenRead::Bytes { count: taken.len(), first })
                }
            };
            if let Some(proof) = receiver.receive(&mut wait, event) {
                return Ok(proof);
            }
        }
        match wait.phase {
            TokenPhase::Failed(error) => Err(error),
            _ => panic!("the wait for the token stopped early"),
        }
    }
}

#[test]
fn typed_tui_readiness_requires_one_token_followed_by_eof() {
    let mut channel = TokenChannel {
        clock: 0,
        bytes: VecDeque::from([(millis(1), TUI_READINESS_TOKEN)]),
        closes: Some(millis(2)),
    };
    let mut receiver = TuiReadinessReceiver::new();
    let proof = expect_ok(
        channel.receive(&mut receiver, Moment { nanos: millis(3_000) }),
        "one token and the end are the proof",
    );
    assert_eq!(proof.redacted(), "VerifiedTuiReadiness(<verified>)");
}

#[test]
fn typed_tui_readiness_rejects_malformed_and_duplicate_tokens() {
    for payload in [[0_u8, 0_u8], [TUI_READINESS_TOKEN; 2]] {
        let mut channel = TokenChannel {
            clock: 0,
            bytes: payload.iter().map(|byte| (0, *byte)).collect(),
            closes: Some(0),
        };
        let mut receiver = TuiReadinessReceiver::new();
        assert_eq!(
            expect_err(
                channel.receive(&mut receiver, Moment { nanos: millis(3_000) }),
                "invalid readiness must fail",
            ),
            TuiReadinessError::Invalid
        );
    }
}

#[test]
fn typed_tui_readiness_uses_the_callers_absolute_deadline() {
    let mut channel = TokenChannel { clock: 0, bytes: VecDeque::new(), closes: None };
    let mut receiver = TuiReadinessReceiver::new();
    let deadline = Moment { nanos: millis(30) };
    assert_eq!(
        expect_err(
            channel.receive(&mut receiver, deadline),
            "open silent readiness channel must time out",
        ),
        TuiReadinessError::Timeout
    );
    assert!(Moment { nanos: channel.clock }.has_reached(deadline));
}

#[test]
fn a_wait_that_runs_out_of_time_keeps_the_token() {
    let channel = || TokenChannel {
        clock: 0,
        bytes: VecDeque::from([(millis(1), TUI_READINESS_TOKEN)]),
        closes: Some(millis(50)),
    };
    let mut waiting = channel();
    let mut receiver = TuiReadinessReceiver::new();
    assert_eq!(
        expect_err(
            waiting.receive(&mut receiver, Moment { nanos: millis(10) }),
            "the end has not come yet",
        ),
        TuiReadinessError::Timeout
    );
    let proof = expect_ok(
        waiting.receive(&mut receiver, Moment { nanos: millis(100) }),
        "the end completes the proof",
    );
    assert_eq!(proof.redacted(), "VerifiedTuiReadiness(<verified>)");

    let mut waiting = channel();
    let mut receiver = TuiReadinessReceiver::new();
    expect_err(
        waiting.receive(&mut receiver, Moment { nanos: millis(10) }),
        "the end has not come yet",
    );
    assert!(matches!(
        receiver.try_receive(TokenRead::Bytes { count: 0, first: 0 }),
        Ok(Some(_))
    ));
}

#[test]
fn a_single_read_of_the_token_channel_is_judged_at_once() {
    let mut receiver = TuiReadinessReceiver::new();
    assert!(matches!(
        receiver.try_receive(TokenRead::Bytes { count: 0, first: 0 }),
        Err(TuiReadinessError::Invalid)
    ));
    assert!(matches!(receiver.try_receive(TokenRead::WouldBlock), Ok(None)));
    assert!(matches!(receiver.try_receive(TokenRead::Interrupted), Ok(None)));
    assert!(matches!(
        receiver.try_receive(TokenRead::Failed),
        Err(TuiReadinessError::Channel)
    ));
    assert!(matches!(
        receiver.try_receive(TokenRead::Bytes { count: 1, first: TUI_READINESS_TOKEN }),
        Ok(None)
    ));
    assert!(matches!(
        receiver.try_receive(TokenRead::Bytes { count: 1, first: TUI_READINESS_TOKEN }),
        Err(TuiReadinessError::Invalid)
    ));
    assert!(matches!(
        receiver.try_receive(TokenRead::Bytes { count: 0, first: 0 }),
        Ok(Some(_))
    ));
}

// ---------------------------------------------------------------------------
// Failed spawns.
// ---------------------------------------------------------------------------

#[test]
fn spawn_cleanup_retains_an_unreaped_leader_when_group_sweep_is_unconfirmed() {
    let mut system = System::new();
    let handle = system.start(sleeping());
    let expected_group = system.processes[handle].pid;
    let failure = SpawnFailure::started_fixture(
        ProcessError::Spawn { role: ChildRole::Tui },
        handle,
        expected_group,
        Some(expected_group),
    );
    system.group_fault = Some(SystemError::Other);

    let deadline = system.after(TEST_DEADLINE);
    let failure = expect_err(
        system.run_cleanup(failure.cleanup(deadline)),
        "an unconfirmed group sweep must not return cleanup proof",
    );
    assert_eq!(failure.state(), SpawnFailureState::LiveUnannouncedChild);
    assert_eq!(
        failure.error(),
        ProcessError::SpawnContainmentUnconfirmed { role: ChildRole::Tui }
    );
    let retained = match failure.child.as_ref() {
        Some(child) => child,
        None => panic!("unreaped child authority and group metadata were discarded"),
    };
    assert_eq!(retained.expected_group, Some(expected_group));
    assert!(failure.disposition.is_none());
    assert!(!retained.containment_swept);
    assert!(!system.processes[handle].reaped);

    system.group_fault = None;
    let deadline = system.after(TEST_DEADLINE);
    let proof = expect_ok(
        system.run_cleanup(failure.cleanup(deadline)),
        "cleanup remained live",
    );
    assert!(proof.started_unannounced());
    system.assert_no_wait_authority(handle);
}

#[test]
fn pre_spawn_failure_is_redacted_and_requires_no_wait_authority() {
    let mut authorities = 1_u64;
    let failure = match spawn_inner::<usize>(
        ChildRole::Tui,
        None,
        GroupContainmentPolicy::SyntheticFixture,
        &mut authorities,
        Moment { nanos: 0 },
    ) {
        SpawnStep::Failed(failure) => failure,
        _ => panic!("missing executable must fail"),
    };
    assert_eq!(failure.state(), SpawnFailureState::NotStarted);
    assert_eq!(failure.error(), ProcessError::Spawn { role: ChildRole::Tui });
    assert_eq!(authorities, 1);

    let cleanup = failure.cleanup(Moment { nanos: millis(3_000) });
    assert_eq!(cleanup.action(), None);
    let proof = expect_ok(cleanup.finish(), "cleanup remained live");
    assert!(!proof.started_unannounced());
}

#[test]
fn a_spawn_that_does_not_read_back_as_asked_is_cleaned_up() {
    for (process_group, liveness, readiness, expected) in [
        (
            Err(SystemError::Other),
            true,
            true,
            ProcessError::ProcessGroupReadback { role: ChildRole::Tui },
        ),
        (Ok(7), true, true, ProcessError::ProcessGroupMismatch { role: ChildRole::Tui }),
        (Ok(100), false, true, ProcessError::ParentLivenessUnavailable { role: ChildRole::Tui }),
        (Ok(100), true, false, ProcessError::ReadinessUnavailable { role: ChildRole::Tui }),
    ] {
        let mut system = System::new();
        let handle = system.start(sleeping());
        let readback = SpawnReadback {
            pid: 100,
            process_group,
            parent_liveness_wanted: true,
            parent_liveness_open: liveness,
            readiness_wanted: true,
            readiness_open: readiness,
        };
        let now = system.now();
        let failure = match spawn_inner(
            ChildRole::Tui,
            Some((handle, readback)),
            GroupContainmentPolicy::ProductionStrict,
            &mut system.authorities,
            now,
        ) {
            SpawnStep::Cleanup { cleanup, error } => system.finish_cleanup(cleanup, error),
            _ => panic!("a failed readback must begin the cleanup"),
        };
        assert_eq!(failure.error(), expected);
        assert_eq!(failure.state(), SpawnFailureState::ReapedUnannounced);
        assert!(failure.disposition.is_some() && failure.child.is_none());
        system.assert_no_wait_authority(handle);
    }
}

#[test]
fn a_spawn_cleanup_that_cannot_reap_in_time_says_so_and_keeps_the_child() {
    let mut system = System::new();
    let handle = system.start(sleeping());
    let pid = system.processes[handle].pid;
    let readback = SpawnReadback {
        pid,
        process_group: Ok(pid + 1),
        parent_liveness_wanted: false,
        parent_liveness_open: false,
        readiness_wanted: false,
        readiness_open: false,
    };
    let now = system.now();
    let (mut cleanup, error) = match spawn_inner(
        ChildRole::AppServer,
        Some((handle, readback)),
        GroupContainmentPolicy::ProductionStrict,
        &mut system.authorities,
        now,
    ) {
        SpawnStep::Cleanup { cleanup, error } => (cleanup, error),
        _ => panic!("a failed readback must begin the cleanup"),
    };
    while let Some(action) = cleanup.action() {
        let event = match action {
            ChildAction::SignalGroup(_) => ChildEvent::Signaled(Ok(())),
            ChildAction::KillLeader => ChildEvent::LeaderKilled,
            ChildAction::TryWait => ChildEvent::Reaped(ReapOutcome::Running),
            other => system.perform(handle, other),
        };
        cleanup.advance(event);
    }
    let failure = finish_spawn_cleanup(cleanup, error);
    assert_eq!(
        failure.error(),
        ProcessError::SpawnCleanupTimeout { role: ChildRole::AppServer }
    );
    assert_eq!(failure.state(), SpawnFailureState::LiveUnannouncedChild);
    assert!(failure.child.is_some());
}

#[test]
fn a_spawn_on_an_exhausted_clock_keeps_the_child_without_a_cleanup() {
    let readback = SpawnReadback {
        pid: 5,
        process_group: Ok(6),
        parent_liveness_wanted: false,
        parent_liveness_open: false,
        readiness_wanted: false,
        readiness_open: false,
    };
    let mut authorities = 1_u64;
    match spawn_inner(
        ChildRole::Tui,
        Some((0_usize, readback)),
        GroupContainmentPolicy::ProductionStrict,
        &mut authorities,
        Moment { nanos: u64::MAX - 1 },
    ) {
        SpawnStep::Failed(failure) => {
            assert_eq!(
                failure.error(),
                ProcessError::ProcessGroupMismatch { role: ChildRole::Tui }
            );
            assert_eq!(failure.state(), SpawnFailureState::LiveUnannouncedChild);
        }
        _ => panic!("without a deadline there is no cleanup"),
    }
}

#[test]
fn a_denied_group_sweep_counts_only_with_proof_of_absence() {
    for (policy, absence, swept) in [
        (
            GroupContainmentPolicy::ProductionStrict,
            GroupAbsence { leader: None, zombie_only: None, live_members: Some(false) },
            false,
        ),
        (
            GroupContainmentPolicy::SyntheticFixture,
            GroupAbsence { leader: None, zombie_only: None, live_members: Some(false) },
            true,
        ),
        (
            GroupContainmentPolicy::SyntheticFixture,
            GroupAbsence { leader: None, zombie_only: None, live_members: Some(true) },
            false,
        ),
        (
            GroupContainmentPolicy::ProductionStrict,
            GroupAbsence {
                leader: Some(WaitStatus {
                    stopped: false,
                    exited: true,
                    killed: false,
                    dumped: false,
                    exit_status: Some(0),
                    terminating_signal: None,
                }),
                zombie_only: Some(true),
                live_members: None,
            },
            true,
        ),
    ] {
        let mut system = System::new();
        system.group_fault = Some(SystemError::PermissionDenied);
        system.absence = absence;
        let handle = system.start(sleeping());
        let pid = system.processes[handle].pid;
        let failure = SpawnFailure::started_with_policy(
            ProcessError::Spawn { role: ChildRole::Tui },
            handle,
            pid,
            Some(pid),
            policy,
        );
        let deadline = system.after(TEST_DEADLINE);
        assert_eq!(system.run_cleanup(failure.cleanup(deadline)).is_ok(), swept);
    }
}

// ---------------------------------------------------------------------------
// Publication.
// ---------------------------------------------------------------------------

#[test]
fn a_mixed_session_identity_snapshot_is_pending_instead_of_mismatched() {
    let pid = 4_242;
    let prior_group = 4_000;

    assert_eq!(
        classify_session_identity(pid, Ok(prior_group), Ok(pid), ChildRole::Tui),
        Ok(SessionIdentityObservation::Pending)
    );
}

#[test]
fn session_identity_readings_are_judged_one_by_one() {
    let role = ChildRole::Tui;
    assert_eq!(
        classify_session_identity(9, Ok(9), Ok(9), role),
        Ok(SessionIdentityObservation::Exact)
    );
    assert_eq!(
        classify_session_identity(9, Err(SystemError::NoSuchProcess), Ok(9), role),
        Ok(SessionIdentityObservation::Pending)
    );
    assert_eq!(
        classify_session_identity(9, Ok(9), Err(SystemError::NoSuchProcess), role),
        Ok(SessionIdentityObservation::Pending)
    );
    assert_eq!(
        classify_session_identity(9, Err(SystemError::PermissionDenied), Ok(9), role),
        Err(ProcessError::ProcessGroupReadback { role })
    );
    assert_eq!(
        classify_session_identity(9, Ok(9), Err(SystemError::Other), role),
        Err(ProcessError::SessionReadback { role })
    );
}

#[test]
fn session_publication_retries_a_pending_observation() {
    let mut system = System::new();
    let handle = system.start(sleeping());
    let pid = system.processes[handle].pid;
    let deadline = system.after(TEST_DEADLINE);
    let mut observations = 0_usize;
    let mut publication = SessionPublication::begin(
        ChildRole::Tui,
        deadline,
        GroupContainmentPolicy::SyntheticFixture,
    );
    while let Some(action) = publication.action() {
        let event = match action {
            SessionAction::Probe => {
                observations += 1;
                SessionEvent::Identity(if observations == 1 {
                    Ok(SessionIdentityObservation::Pending)
                } else {
                    classify_session_identity(pid, Ok(pid), Ok(pid), ChildRole::Tui)
                })
            }
            SessionAction::TryWait => match system.perform(handle, ChildAction::TryWait) {
                ChildEvent::Reaped(outcome) => SessionEvent::Reaped(outcome),
                _ => panic!("a wait that is not a wait"),
            },
            SessionAction::ReadClock => SessionEvent::Clock(system.now()),
            SessionAction::Sleep { deadline } => {
                system.perform(handle, ChildAction::Sleep { deadline });
                SessionEvent::Slept
            }
        };
        publish_session_leader_with_probe(&mut publication, event);
    }
    assert!(observations >= 2);
    let now = system.now();
    let child = match publish_session_leader(
        publication,
        handle,
        pid,
        &mut system.authorities,
        now,
    ) {
        SpawnStep::Published(child) => child,
        _ => panic!("an exact session leader must be published"),
    };
    assert_eq!(child.state.containment().pid(), child.state.containment().pgid());
    let outcome = expect_ok(
        system.shutdown_fixture_pair(Some(child), None, Duration::from_millis(100), TEST_DEADLINE),
        "the session leader must be reaped",
    );
    assert_eq!(outcome.failure(), None);
    system.assert_no_wait_authority(handle);
}

#[test]
fn inherited_fd_session_failure_retains_unreaped_authority_without_a_safe_group() {
    let mut system = System::new();
    let handle = system.start(sleeping());
    let pid = system.processes[handle].pid;
    let deadline = system.after(Duration::from_millis(30));
    let now = system.now();
    let mut publication = match spawn_fixture_session_leader_with_inherited_fd(
        ChildRole::Tui,
        SessionLaunch::Started { handle, pid },
        deadline,
        now,
    ) {
        SessionSpawn::Publish { publication, .. } => publication,
        SessionSpawn::Step(_) => panic!("a started launcher must be watched"),
    };
    while let Some(action) = publication.action() {
        let event = match action {
            SessionAction::Probe => {
                SessionEvent::Identity(classify_session_identity(pid, Ok(1), Ok(1), ChildRole::Tui))
            }
            SessionAction::TryWait => SessionEvent::Reaped(ReapOutcome::Running),
            SessionAction::ReadClock => SessionEvent::Clock(system.now()),
            SessionAction::Sleep { deadline } => {
                system.perform(handle, ChildAction::Sleep { deadline });
                SessionEvent::Slept
            }
        };
        publish_session_leader_with_probe(&mut publication, event);
    }
    let now = system.now();
    let mut failure = match publish_session_leader(
        publication,
        handle,
        pid,
        &mut system.authorities,
        now,
    ) {
        SpawnStep::Cleanup { cleanup, error } => {
            assert_eq!(error, ProcessError::SessionStartupTimeout { role: ChildRole::Tui });
            system.finish_cleanup(cleanup, error)
        }
        _ => panic!("a child that never calls setsid must not be published"),
    };
    assert_eq!(
        failure.error(),
        ProcessError::SpawnContainmentUnconfirmed { role: ChildRole::Tui }
    );
    assert_eq!(failure.state(), SpawnFailureState::LiveUnannouncedChild);
    match failure.child.as_mut() {
        Some(child) => {
            assert_eq!(child.expected_group, None);
            assert!(!child.containment_swept);
            child.containment_swept = true;
        }
        None => panic!("unconfirmed session failure lost direct wait authority"),
    }
    assert!(failure.disposition.is_none());
    assert!(!system.processes[handle].reaped);

    let deadline = system.after(TEST_DEADLINE);
    let proof = expect_ok(
        system.run_cleanup(failure.cleanup(deadline)),
        "cleanup remained live",
    );
    assert!(proof.started_unannounced());
    system.assert_no_wait_authority(handle);
}

#[test]
fn a_launcher_that_exits_first_is_reported_with_its_exit() {
    let mut publication =
        SessionPublication::begin(
            ChildRole::Tui,
            Moment { nanos: millis(3_000) },
            GroupContainmentPolicy::ProductionStrict,
        );
    publish_session_leader_with_probe(
        &mut publication,
        SessionEvent::Identity(Ok(SessionIdentityObservation::Pending)),
    );
    publish_session_leader_with_probe(
        &mut publication,
        SessionEvent::Reaped(ReapOutcome::Reaped(ExitStatus {
            code: Some(3),
            signal: None,
            core_dumped: false,
        })),
    );
    assert_eq!(publication.action(), None);
    let mut authorities = 8_u64;
    match publish_session_leader(
        publication,
        0_usize,
        11,
        &mut authorities,
        Moment { nanos: 0 },
    ) {
        SpawnStep::Failed(failure) => {
            assert_eq!(failure.error(), ProcessError::SessionMismatch { role: ChildRole::Tui });
            assert_eq!(failure.state(), SpawnFailureState::ReapedUnannounced);
            assert!(failure.disposition.is_some() && failure.child.is_none());
        }
        _ => panic!("an exited launcher must not be published"),
    }
    assert_eq!(authorities, 8);
}

#[test]
fn a_failed_launch_is_not_started_or_cleaned_up() {
    let role = ChildRole::Tui;
    let deadline = Moment { nanos: millis(3_000) };
    let now = Moment { nanos: 0 };
    match spawn_session_leader_with_inherited_fd::<usize>(
        role,
        SessionLaunch::NotStarted,
        deadline,
        now,
    ) {
        SessionSpawn::Step(SpawnStep::Failed(failure)) => {
            assert_eq!(failure.state(), SpawnFailureState::NotStarted);
            assert_eq!(failure.error(), ProcessError::Spawn { role });
        }
        _ => panic!("nothing was started"),
    }
    match spawn_session_leader_with_inherited_fd(
        role,
        SessionLaunch::StartedThenFailed { handle: 3_usize, pid: 103 },
        deadline,
        now,
    ) {
        SessionSpawn::Step(SpawnStep::Cleanup { cleanup, error }) => {
            assert_eq!(error, ProcessError::Spawn { role });
            assert_eq!(cleanup.action(), Some(ChildAction::KillLeader));
        }
        _ => panic!("a started child must be cleaned up"),
    }
}

#[test]
fn a_real_child_is_strict_and_a_synthetic_one_is_not() {
    let now = Moment { nanos: 0 };
    let readback = SpawnReadback {
        pid: 70,
        process_group: Ok(70),
        parent_liveness_wanted: false,
        parent_liveness_open: true,
        readiness_wanted: false,
        readiness_open: true,
    };
    let mut authorities = 1_u64;
    let policy = |step| match step {
        SpawnStep::Published(child) => {
            let child: Child = child;
            child.state.containment_policy
        }
        _ => panic!("every channel is there"),
    };
    assert_eq!(
        policy(spawn(ChildRole::Tui, true, Some((0, readback)), &mut authorities, now)),
        GroupContainmentPolicy::ProductionStrict
    );
    assert_eq!(
        policy(spawn_with_parent_liveness_pipe(
            ChildRole::Tui,
            true,
            Some((0, readback)),
            &mut authorities,
            now,
        )),
        GroupContainmentPolicy::SyntheticFixture
    );
    assert_eq!(authorities, 3);
    let deaf = SpawnReadback { parent_liveness_open: false, ..readback };
    assert!(matches!(
        spawn_with_parent_liveness_pipe(
            ChildRole::Tui,
            false,
            Some((0_usize, deaf)),
            &mut authorities,
            now,
        ),
        SpawnStep::Cleanup {
            error: ProcessError::ParentLivenessUnavailable { role: ChildRole::Tui },
            ..
        }
    ));
    match spawn_session_leader_with_inherited_fd(
        ChildRole::Tui,
        SessionLaunch::Started { handle: 0_usize, pid: 70 },
        now,
        now,
    ) {
        SessionSpawn::Publish { publication, .. } => assert_eq!(
            publication.containment_policy,
            GroupContainmentPolicy::ProductionStrict
        ),
        SessionSpawn::Step(_) => panic!("a started launcher must be watched"),
    }
}

#[test]
fn spawn_places_each_child_in_its_own_distinct_process_group() -> Result<(), ProcessError> {
    let mut system = System::new();
    let tui = system.tui(sleeping(), false);
    let app = system.cooperative_app()?;
    let (tui_handle, app_handle) = (tui.handle, app.handle);

    let tui_identity = tui.state.containment();
    let app_identity = app.state.containment();
    assert_eq!(tui_identity.role(), ChildRole::Tui);
    assert_eq!(tui_identity.pid(), tui_identity.pgid());
    assert_eq!(app_identity.pid(), app_identity.pgid());
    assert_ne!(tui_identity.pgid(), app_identity.pgid());
    assert!(!tui.state.child_authority().same(app.state.child_authority()));

    let outcome = expect_ok(
        system.shutdown_fixture_pair(
            Some(tui),
            Some(app),
            Duration::from_millis(100),
            TEST_DEADLINE,
        ),
        "both children must be reaped",
    );
    assert_eq!(outcome.failure(), None);
    let proof = outcome.children();
    assert!(matches!(
        proof.tui(),
        ChildDisposition::Signaled { stop_action: StopAction::Term, .. }
    ));
    assert!(matches!(
        proof.app_server(),
        ChildDisposition::Exited { code: 0, stop_action: StopAction::Term }
    ));
    system.assert_no_wait_authority(tui_handle);
    system.assert_no_wait_authority(app_handle);
    Ok(())
}

// ---------------------------------------------------------------------------
// Descriptor observation.
// ---------------------------------------------------------------------------

fn retry_observation<T>(
    clock: &mut u64,
    caller_deadline: Moment,
    mut observe: impl FnMut(Moment) -> Result<T, DescriptorObservationAttemptError>,
) -> Result<T, ProcessGroupDescriptorScanError> {
    let mut retry = DescriptorRetry::begin(caller_deadline);
    while let Some(action) = retry.action() {
        let event = match action {
            RetryAction::ReadClock => RetryEvent::Clock(Moment { nanos: *clock }),
            RetryAction::Attempt { deadline } => RetryEvent::Attempted(observe(deadline)),
            RetryAction::Sleep { nanos } => {
                *clock += nanos;
                RetryEvent::Slept
            }
        };
        retry_descriptor_observation(&mut retry, event);
    }
    retry.finish()
}

#[test]
fn descriptor_observation_retries_only_transient_races_until_the_deadline() {
    let mut clock = 0_u64;
    let origin = Moment { nanos: clock };
    assert_eq!(
        descriptor_observation_deadline(origin, Moment { nanos: millis(1_000) }),
        Moment { nanos: millis(1_000) }
    );
    assert_eq!(
        descriptor_observation_deadline(origin, Moment { nanos: millis(60_000) }),
        Moment { nanos: DESCRIPTOR_OBSERVATION_SETTLE_NANOS }
    );
    assert_eq!(DESCRIPTOR_OBSERVATION_SETTLE_NANOS, millis(10_000));

    let test_deadline = Moment { nanos: millis(3_000) };
    let mut attempts = 0_usize;
    let value = retry_observation(&mut clock, test_deadline, |_| {
        attempts += 1;
        if attempts == 1 {
            Err(DescriptorObservationAttemptError::TransientDescriptorChanged)
        } else {
            Ok(7)
        }
    });
    assert_eq!(value, Ok(7));
    assert_eq!(attempts, 2);

    let mut process_attempts = 0_usize;
    let process_race = retry_observation(&mut clock, test_deadline, |_| {
        process_attempts += 1;
        if process_attempts == 1 {
            Err(DescriptorObservationAttemptError::TransientProcessChanged)
        } else {
            Ok(9)
        }
    });
    assert_eq!(process_race, Ok(9));
    assert_eq!(process_attempts, 2);

    const PRIOR_FIXED_ATTEMPT_CAP: usize = 4;
    let mut delayed_stability_attempts = 0_usize;
    let delayed_stability = retry_observation(&mut clock, test_deadline, |_| {
        delayed_stability_attempts += 1;
        if delayed_stability_attempts <= PRIOR_FIXED_ATTEMPT_CAP {
            Err(DescriptorObservationAttemptError::TransientProcessChanged)
        } else {
            Ok(11)
        }
    });
    assert_eq!(delayed_stability, Ok(11));
    assert_eq!(delayed_stability_attempts, PRIOR_FIXED_ATTEMPT_CAP + 1);

    let soon = Moment { nanos: clock + millis(100) };
    let persistent_race: Result<(), _> = retry_observation(&mut clock, soon, |_| {
        Err(DescriptorObservationAttemptError::TransientDescriptorChanged)
    });
    assert_eq!(persistent_race, Err(ProcessGroupDescriptorScanError::Deadline));

    let mut fail_closed_attempts = 0_usize;
    let forbidden: Result<(), _> = retry_observation(&mut clock, test_deadline, |_| {
        fail_closed_attempts += 1;
        Err(DescriptorObservationAttemptError::Terminal(
            ProcessGroupDescriptorScanError::ForbiddenDescriptor,
        ))
    });
    assert_eq!(forbidden, Err(ProcessGroupDescriptorScanError::ForbiddenDescriptor));
    assert_eq!(fail_closed_attempts, 1);

    let mut expired_attempts = 0_usize;
    let at_once = Moment { nanos: clock };
    let expired = retry_observation(&mut clock, at_once, |_| {
        expired_attempts += 1;
        Ok(())
    });
    assert_eq!(expired, Err(ProcessGroupDescriptorScanError::Deadline));
    assert_eq!(expired_attempts, 0);
}

fn observe_live(
    system: &mut System,
    child: &mut Child,
    deadline: Moment,
    mut scan: impl FnMut(&mut System) -> Result<u32, ProcessGroupDescriptorScanError>,
) -> Result<u32, ProcessGroupDescriptorScanError> {
    let mut observation = LiveObservation::begin(deadline);
    while let Some(action) = observation.action() {
        let event = match action {
            LiveAction::Child(action) => LiveEvent::Child(system.perform(child.handle, action)),
            LiveAction::Scan { .. } => LiveEvent::Scanned(scan(system)),
            LiveAction::ReadClock => {
                LiveEvent::Child(system.perform(child.handle, ChildAction::ReadClock))
            }
            LiveAction::Sleep { nanos } => {
                system.clock += nanos;
                LiveEvent::Child(ChildEvent::Slept)
            }
        };
        observe_forbidden_descriptors_absent_while_live(&mut observation, &mut child.state, event);
    }
    observation.finish()
}

#[test]
fn live_descriptor_observation_does_not_retry_a_terminal_child_exit() -> Result<(), ProcessError> {
    let mut system = System::new();
    let mut child = system.tui(announcing(OnTerm::Die), true);
    let deadline = system.after(TEST_DEADLINE);
    system.await_ready(&mut child, deadline)?;
    system.processes[child.handle].take(Signal::Term);
    system.await_exit(&mut child)?;

    let deadline = system.after(Duration::from_millis(100));
    let error = expect_err(
        observe_live(&mut system, &mut child, deadline, |_| Ok(1)),
        "an exited direct child must fail descriptor observation",
    );
    assert_eq!(error, ProcessGroupDescriptorScanError::ProcessChanged);

    let outcome = expect_ok(
        system.shutdown_fixture_pair(Some(child), None, Duration::ZERO, TEST_DEADLINE),
        "the exited child must be reaped",
    );
    assert_eq!(outcome.failure(), None);
    Ok(())
}

#[test]
fn a_child_that_exits_during_a_scan_fails_the_observation() {
    let mut system = System::new();
    let mut child = system.tui(sleeping(), false);
    let handle = child.handle;
    let deadline = system.after(TEST_DEADLINE);
    let observed = observe_live(&mut system, &mut child, deadline, |system| {
        system.processes[handle].life = exited_with(0);
        Ok(5)
    });
    assert_eq!(observed, Err(ProcessGroupDescriptorScanError::ProcessChanged));

    let mut child = system.tui(sleeping(), false);
    let mut scans = 0_u32;
    let deadline = system.after(TEST_DEADLINE);
    let observed = observe_live(&mut system, &mut child, deadline, |_| {
        scans += 1;
        if scans < 3 {
            Err(ProcessGroupDescriptorScanError::DescriptorChanged)
        } else {
            Ok(scans)
        }
    });
    assert_eq!(observed, Ok(3));

    let deadline = system.after(TEST_DEADLINE);
    let observed = observe_live(&mut system, &mut child, deadline, |_| {
        Err(ProcessGroupDescriptorScanError::ObservationFailed)
    });
    assert_eq!(observed, Err(ProcessGroupDescriptorScanError::ObservationFailed));
    assert_eq!(system.confirm_running(&mut child, deadline), Ok(()));
}

// ---------------------------------------------------------------------------
// Readiness of a child.
// ---------------------------------------------------------------------------

#[test]
fn await_ready_accepts_only_the_exact_one_byte_sentinel() -> Result<(), ProcessError> {
    let mut system = System::new();
    let mut child = system.tui(announcing(OnTerm::Die), true);
    let deadline = system.after(TEST_DEADLINE);
    system.await_ready(&mut child, deadline)?;
    let outcome = expect_ok(
        system.shutdown_fixture_pair(Some(child), None, Duration::from_millis(100), TEST_DEADLINE),
        "the TUI must be reaped",
    );
    assert_eq!(outcome.failure(), None);
    let proof = outcome.children();
    assert!(matches!(
        proof.tui(),
        ChildDisposition::Signaled { stop_action: StopAction::Term, .. }
    ));
    assert_eq!(proof.app_server(), ChildDisposition::NotStarted);
    Ok(())
}

#[test]
fn await_ready_rejects_extra_bytes_without_retaining_them() {
    let mut system = System::new();
    let mut child = system.tui(
        scripted(&[
            (millis(1), Happening::Write(b'R')),
            (millis(1), Happening::Write(b'X')),
            (millis(1), Happening::CloseOutput),
        ]),
        true,
    );
    let deadline = system.after(TEST_DEADLINE);
    let error = expect_err(system.await_ready(&mut child, deadline), "readiness must fail");
    assert_eq!(error, ProcessError::InvalidReadiness { role: ChildRole::Tui });
    assert!(!format!("{error:?}").contains("RX"));
    assert!(!error.message().contains("RX"));

    expect_ok(
        system.shutdown_fixture_pair(Some(child), None, Duration::from_millis(100), TEST_DEADLINE),
        "the TUI must be reaped",
    );
}

#[test]
fn await_ready_rejects_a_delayed_second_byte() {
    let mut system = System::new();
    let mut child = system.tui(
        scripted(&[
            (millis(1), Happening::Write(b'R')),
            (millis(51), Happening::Write(b'X')),
            (millis(51), Happening::CloseOutput),
        ]),
        true,
    );
    let deadline = system.after(TEST_DEADLINE);
    let error = expect_err(
        system.await_ready(&mut child, deadline),
        "delayed extra readiness data must fail",
    );
    assert_eq!(error, ProcessError::InvalidReadiness { role: ChildRole::Tui });
    assert!(!format!("{error:?}").contains('X'));

    expect_ok(
        system.shutdown_fixture_pair(Some(child), None, Duration::from_millis(100), TEST_DEADLINE),
        "the TUI must be reaped",
    );
}

#[test]
fn await_ready_requires_the_writer_to_close_after_the_sentinel() {
    let mut system = System::new();
    let mut child = system.tui(scripted(&[(millis(1), Happening::Write(b'R'))]), true);
    let deadline = system.after(Duration::from_millis(30));
    let error = expect_err(
        system.await_ready(&mut child, deadline),
        "an open readiness writer must time out",
    );
    assert_eq!(error, ProcessError::ReadinessTimeout { role: ChildRole::Tui });

    expect_ok(
        system.shutdown_fixture_pair(Some(child), None, Duration::from_millis(100), TEST_DEADLINE),
        "the TUI must be reaped",
    );
}

#[test]
fn await_ready_distinguishes_early_exit_from_timeout() {
    let mut system = System::new();
    let mut child = system.tui(scripted(&[(millis(200), Happening::Exit(0))]), true);
    let deadline = system.after(TEST_DEADLINE);
    let error = expect_err(system.await_ready(&mut child, deadline), "readiness must fail");
    assert!(matches!(
        error,
        ProcessError::EarlyExit {
            role: ChildRole::Tui,
            disposition: ChildDisposition::Exited { code: 0, stop_action: StopAction::NoAction },
        }
    ));

    let outcome = expect_ok(
        system.shutdown_fixture_pair(Some(child), None, Duration::ZERO, TEST_DEADLINE),
        "the TUI was reaped already",
    );
    assert_eq!(outcome.failure(), None);
    assert!(matches!(
        outcome.children().tui(),
        ChildDisposition::Exited { code: 0, stop_action: StopAction::NoAction }
    ));
}

#[test]
fn await_ready_reports_a_live_silent_child_as_timeout() {
    let mut system = System::new();
    let mut child = system.tui(sleeping(), true);
    let deadline = system.after(Duration::from_millis(30));
    let error = expect_err(system.await_ready(&mut child, deadline), "readiness must time out");
    assert_eq!(error, ProcessError::ReadinessTimeout { role: ChildRole::Tui });

    expect_ok(
        system.shutdown_fixture_pair(Some(child), None, Duration::from_millis(100), TEST_DEADLINE),
        "the TUI must be reaped",
    );
}

#[test]
fn await_ready_needs_a_readiness_channel() {
    let mut system = System::new();
    let mut child = system.tui(sleeping(), false);
    let deadline = system.after(TEST_DEADLINE);
    assert_eq!(
        system.await_ready(&mut child, deadline),
        Err(ProcessError::ReadinessUnavailable { role: ChildRole::Tui })
    );
}

// ---------------------------------------------------------------------------
// The App Server's drain.
// ---------------------------------------------------------------------------

#[test]
fn production_strict_app_shutdown_uses_the_pinned_graceful_contract() -> Result<(), ProcessError> {
    let mut system = System::new();
    let mut app_server = system.app(announcing(OnTerm::Exit(0)), true);
    app_server.state.containment_policy = GroupContainmentPolicy::ProductionStrict;
    let deadline = system.after(TEST_DEADLINE);
    system.await_ready(&mut app_server, deadline)?;

    let outcome = expect_ok(
        system.shutdown_fixture_pair(
            None,
            Some(app_server),
            Duration::from_millis(100),
            TEST_DEADLINE,
        ),
        "the App Server must drain",
    );
    assert_eq!(outcome.failure(), None);
    assert!(matches!(
        outcome.children().app_server(),
        ChildDisposition::Exited { code: 0, stop_action: StopAction::Term }
    ));
    Ok(())
}

#[test]
fn app_shutdown_sends_exactly_one_term_and_accepts_only_exit_zero() {
    let mut system = System::new();
    let app = system.app(counting(OnTerm::Exit(0)), false);
    let handle = app.handle;
    let authority = app.state.child_authority();
    let drained = expect_ok(
        system.shutdown_app_server_child(app, Duration::from_millis(100), TEST_DEADLINE),
        "the App Server must drain",
    );
    assert_eq!(system.log(handle), b"RT");
    assert_eq!(drained.outcome().failure(), None);
    assert_eq!(
        drained.outcome().children().app_server(),
        ChildDisposition::Exited { code: 0, stop_action: StopAction::Term }
    );
    assert!(drained.child_authority().same(authority));
}

#[test]
fn app_shutdown_rejects_early_exit_without_signaling() -> Result<(), ProcessError> {
    let mut system = System::new();
    let mut app = system.app(
        Program { timeline: vec![(millis(50), Happening::Exit(0))], ..counting(OnTerm::Ignore) },
        false,
    );
    let handle = app.handle;
    system.await_exit(&mut app)?;

    let retained = expect_err(
        system.shutdown_app_server_child(app, Duration::from_millis(100), TEST_DEADLINE),
        "an App exit before the initial TERM must retain authority",
    );
    assert_eq!(retained.error(), drain_error(AppGracefulDrainFailureStage::ExitedBeforeTerm));
    match retained.app_server.as_ref() {
        Some(app) => assert_eq!(
            app.state.disposition,
            Some(ChildDisposition::Exited { code: 0, stop_action: StopAction::NoAction })
        ),
        None => panic!("the invalid App authority was discarded"),
    }
    assert_eq!(system.log(handle), b"R");
    Ok(())
}

#[test]
fn app_shutdown_nonzero_or_signal_is_permanently_fail_closed() {
    for behavior in [OnTerm::Exit(23), OnTerm::KillSelf] {
        let mut system = System::new();
        let app = system.app(counting(behavior), false);
        let handle = app.handle;
        let mut retained = expect_err(
            system.shutdown_app_server_child(app, Duration::from_millis(100), TEST_DEADLINE),
            "an abnormal App exit must retain authority",
        );
        assert_eq!(
            retained.error(),
            drain_error(AppGracefulDrainFailureStage::InvalidDisposition)
        );
        assert_eq!(system.log(handle), b"RT");

        assert_eq!(
            system
                .retry_app_server(
                    &mut retained,
                    Duration::from_millis(20),
                    Duration::from_millis(20),
                )
                .err(),
            Some(drain_error(AppGracefulDrainFailureStage::InvalidDisposition))
        );
        assert_eq!(system.log(handle), b"RT");
    }
}

#[test]
fn app_shutdown_deadline_and_retry_never_send_a_second_signal() {
    let mut system = System::new();
    let app = system.app(counting(OnTerm::Ignore), false);
    let handle = app.handle;
    let mut retained = expect_err(
        system.shutdown_app_server_child(
            app,
            Duration::from_millis(20),
            Duration::from_millis(20),
        ),
        "an undrained App must retain authority",
    );
    assert_eq!(system.log(handle), b"RT");

    assert_eq!(
        system
            .retry_app_server(&mut retained, Duration::from_millis(20), Duration::from_millis(20))
            .err(),
        Some(ProcessError::WaitTimeout { role: ChildRole::AppServer })
    );
    assert_eq!(system.log(handle), b"RT");

    assert!(retained.app_server.is_some());
    system.processes[handle].take(Signal::Kill);
    assert_eq!(
        system.retry_app_server(&mut retained, Duration::ZERO, TEST_DEADLINE).err(),
        Some(ProcessError::WaitTimeout { role: ChildRole::AppServer })
    );
    assert!(retained.app_server.as_ref().is_some_and(|app| app.state.disposition.is_some()));
    assert_eq!(system.log(handle), b"RT");
}

#[test]
fn app_shutdown_signal_failure_is_not_reclassified_as_delivery() {
    let mut system = System::new();
    let app = system.app(sleeping(), false);
    let handle = app.handle;
    system.leader_fault = Some(Signal::Term);

    let expected = ProcessError::Signal { role: ChildRole::AppServer, action: StopAction::Term };
    let mut retained = expect_err(
        system.shutdown_app_server_child(
            app,
            Duration::from_millis(20),
            Duration::from_millis(20),
        ),
        "a failed App TERM must retain authority",
    );
    assert_eq!(retained.error(), expected);
    assert_eq!(
        system
            .retry_app_server(&mut retained, Duration::from_millis(20), Duration::from_millis(20))
            .err(),
        Some(expected)
    );

    assert!(retained.app_server.is_some());
    system.processes[handle].take(Signal::Kill);
    let _ = system.retry_app_server(&mut retained, Duration::ZERO, TEST_DEADLINE);
    assert!(retained.app_server.as_ref().is_some_and(|app| app.state.disposition.is_some()));
}

#[test]
fn app_shutdown_stop_and_cont_failures_remain_permanently_unconfirmed() {
    for fault in [Signal::Stop, Signal::Cont] {
        let mut system = System::new();
        let app = system.app(counting(OnTerm::Exit(0)), false);
        let handle = app.handle;
        system.leader_fault = Some(fault);

        let mut retained = expect_err(
            system.shutdown_app_server_child(
                app,
                Duration::from_millis(20),
                Duration::from_millis(20),
            ),
            "an injected STOP/CONT failure returned App drain authority",
        );
        let expected_error =
            ProcessError::Signal { role: ChildRole::AppServer, action: StopAction::NoAction };
        assert_eq!(retained.error(), expected_error);
        assert_eq!(system.log(handle), b"R");
        assert_eq!(
            system
                .retry_app_server(
                    &mut retained,
                    Duration::from_millis(20),
                    Duration::from_millis(20),
                )
                .err(),
            Some(expected_error)
        );
        assert_eq!(system.log(handle), b"R");

        match retained.app_server.as_ref() {
            Some(app) => {
                assert_eq!(app.state.app_graceful_drain, AppGracefulDrainState::Invalid);
            }
            None => panic!("the signal-failed App authority was discarded"),
        }
        if fault == Signal::Stop {
            system.processes[handle].take(Signal::Kill);
        } else {
            system.processes[handle].take(Signal::Cont);
            assert_eq!(system.log(handle), b"RT");
        }
        let _ = system.retry_app_server(&mut retained, Duration::ZERO, TEST_DEADLINE);
        assert!(retained.app_server.as_ref().is_some_and(|app| app.state.disposition.is_some()));
        let expected_log: &[u8] = if fault == Signal::Cont { b"RT" } else { b"R" };
        assert_eq!(system.log(handle), expected_log);
    }
}

#[test]
fn an_app_server_cannot_be_retried_on_the_general_path() {
    let mut system = System::new();
    let app = system.app(counting(OnTerm::Ignore), false);
    let mut retained = expect_err(
        system.shutdown_app_server_child(
            app,
            Duration::from_millis(20),
            Duration::from_millis(20),
        ),
        "an undrained App must retain authority",
    );
    assert_eq!(
        system
            .retry(&mut retained, Duration::from_millis(20), Duration::from_millis(20), None)
            .err(),
        Some(drain_error(AppGracefulDrainFailureStage::WrongRetryPath))
    );
    assert!(retained.app_server_owned());
    assert!(!retained.tui_owned());
}

#[test]
fn a_tui_in_the_place_of_the_app_server_is_refused() {
    let mut system = System::new();
    let tui = system.tui(sleeping(), false);
    let retained = expect_err(
        system.shutdown_app_server_child(tui, Duration::from_millis(20), TEST_DEADLINE),
        "only an App Server can drain",
    );
    assert_eq!(
        retained.error(),
        ProcessError::RoleMismatch { expected: ChildRole::AppServer, actual: ChildRole::Tui }
    );
    assert!(retained.app_server_owned());
}

// ---------------------------------------------------------------------------
// Shutting the TUI down.
// ---------------------------------------------------------------------------

#[test]
fn shutdown_escalates_a_term_ignoring_child_to_kill() -> Result<(), ProcessError> {
    let mut system = System::new();
    let mut child = system.tui(announcing(OnTerm::Ignore), true);
    let deadline = system.after(TEST_DEADLINE);
    system.await_ready(&mut child, deadline)?;

    let outcome = expect_ok(
        system.shutdown_fixture_pair(Some(child), None, Duration::from_millis(30), TEST_DEADLINE),
        "the TUI must be reaped",
    );
    assert_eq!(outcome.failure(), None);
    assert!(matches!(
        outcome.children().tui(),
        ChildDisposition::Signaled { signal: 9, stop_action: StopAction::Kill, .. }
    ));
    Ok(())
}

#[test]
fn forwarded_hup_or_term_shutdown_does_not_term_signal_the_tui_again() -> Result<(), ProcessError> {
    for (signal, expected_log) in [
        (TerminalShutdownSignal::Hup, b"RH".as_slice()),
        (TerminalShutdownSignal::Term, b"RT".as_slice()),
    ] {
        let mut system = System::new();
        let mut tui = system.tui(counting(OnTerm::Ignore), false);
        let handle = tui.handle;
        let app = system.cooperative_app()?;

        let forwarded = system.forward_shutdown(&mut tui, signal)?;
        assert_eq!(forwarded.signal(), signal);
        assert_eq!(system.log(handle), expected_log);
        let outcome = expect_ok(
            system.shutdown_after_forwarded(
                tui,
                Some(app),
                forwarded,
                Duration::from_millis(100),
                TEST_DEADLINE,
            ),
            "both children must be reaped",
        );

        assert_eq!(system.log(handle), expected_log);
        assert!(matches!(
            outcome.children().tui(),
            ChildDisposition::Signaled { signal: 9, stop_action: StopAction::Kill, .. }
        ));
        assert!(matches!(
            outcome.children().app_server(),
            ChildDisposition::Exited { code: 0, stop_action: StopAction::Term }
        ));
    }
    Ok(())
}

#[test]
fn forwarded_hup_or_term_disposition_survives_exact_reap() -> Result<(), ProcessError> {
    for (signal, expected_signal) in
        [(TerminalShutdownSignal::Hup, 1), (TerminalShutdownSignal::Term, 15)]
    {
        let mut system = System::new();
        let mut tui = system.tui(sleeping(), false);
        let forwarded = system.forward_shutdown(&mut tui, signal)?;
        system.await_exit(&mut tui)?;

        let outcome = expect_ok(
            system.shutdown_after_forwarded(
                tui,
                None,
                forwarded,
                Duration::from_millis(100),
                TEST_DEADLINE,
            ),
            "the TUI must be reaped",
        );
        assert_eq!(outcome.failure(), None);
        assert_eq!(
            outcome.children().tui(),
            ChildDisposition::Signaled {
                signal: expected_signal,
                core_dumped: false,
                stop_action: StopAction::NoAction,
            }
        );
    }
    Ok(())
}

#[test]
fn tui_output_eof_shutdown_preserves_natural_exit_code() {
    let mut system = System::new();
    let tui = system.tui(scripted(&[(millis(50), Happening::Exit(23))]), false);
    let outcome = expect_ok(
        system.shutdown_after_output_eof(tui, Duration::from_millis(500)),
        "the TUI must be reaped",
    );
    assert_eq!(outcome.failure(), None);
    assert_eq!(
        outcome.children().tui(),
        ChildDisposition::Exited { code: 23, stop_action: StopAction::NoAction }
    );
}

#[test]
fn forwarded_shutdown_continues_stopped_tui_without_minting_resume_authority(
) -> Result<(), ProcessError> {
    let mut system = System::new();
    let mut tui = system.tui(sleeping(), false);
    let (graceful, forced) = (system.after(Duration::from_millis(100)), system.after(TEST_DEADLINE));
    system.suspend(&mut tui, graceful, forced)?;
    let forwarded = system.forward_shutdown(&mut tui, TerminalShutdownSignal::Term)?;
    system.continue_after_forwarded_shutdown(&mut tui, &forwarded)?;

    let outcome = expect_ok(
        system.shutdown_after_forwarded(
            tui,
            None,
            forwarded,
            Duration::from_millis(500),
            TEST_DEADLINE,
        ),
        "the TUI must be reaped",
    );
    assert_eq!(outcome.failure(), None);
    assert_eq!(
        outcome.children().tui(),
        ChildDisposition::Signaled {
            signal: 15,
            core_dumped: false,
            stop_action: StopAction::NoAction,
        }
    );
    Ok(())
}

#[test]
fn tui_output_eof_shutdown_preserves_natural_signal() {
    let mut system = System::new();
    let tui = system.tui(scripted(&[(millis(50), Happening::Die(15))]), false);
    let outcome = expect_ok(
        system.shutdown_after_output_eof(tui, Duration::from_millis(500)),
        "the TUI must be reaped",
    );
    assert_eq!(outcome.failure(), None);
    assert_eq!(
        outcome.children().tui(),
        ChildDisposition::Signaled {
            signal: 15,
            core_dumped: false,
            stop_action: StopAction::NoAction,
        }
    );
}

#[test]
fn tui_output_eof_shutdown_contains_a_still_live_child() {
    let mut system = System::new();
    let tui = system.tui(sleeping(), false);
    let outcome = expect_ok(
        system.shutdown_after_output_eof(tui, Duration::from_millis(20)),
        "the TUI must be reaped",
    );
    assert_eq!(outcome.failure(), None);
    assert!(matches!(
        outcome.children().tui(),
        ChildDisposition::Signaled { signal: 9, stop_action: StopAction::Kill, .. }
    ));
}

#[test]
fn forwarded_tui_shutdown_mode_and_wait_ownership_survive_retry() -> Result<(), ProcessError> {
    let mut system = System::new();
    let mut tui = system.tui(counting(OnTerm::Ignore), false);
    let handle = tui.handle;
    let forwarded = system.forward_shutdown(&mut tui, TerminalShutdownSignal::Term)?;
    assert_eq!(system.log(handle), b"RT");

    let mut unreaped = expect_err(
        system.shutdown_after_forwarded(tui, None, forwarded, Duration::MAX, Duration::ZERO),
        "overflowing deadline must retain both child handles",
    );
    assert_eq!(unreaped.error(), ProcessError::Deadline);
    assert!(unreaped.tui_owned());
    assert!(!unreaped.app_server_owned());

    let outcome =
        system.retry(&mut unreaped, Duration::from_millis(100), TEST_DEADLINE, None)?;
    assert_eq!(system.log(handle), b"RT");
    assert!(matches!(
        outcome.children().tui(),
        ChildDisposition::Signaled { signal: 9, stop_action: StopAction::Kill, .. }
    ));
    assert_eq!(outcome.children().app_server(), ChildDisposition::NotStarted);
    system.assert_no_wait_authority(handle);
    assert_eq!(
        system.retry(&mut unreaped, Duration::ZERO, Duration::ZERO, None),
        Err(ProcessError::RetryAfterResolution)
    );
    Ok(())
}

#[test]
fn forwarded_shutdown_proof_requires_process_local_child_authority() {
    let mut system = System::new();
    let first = system.tui(sleeping(), false);
    let second = system.tui(sleeping(), false);

    let mismatched = ForwardedTuiSignal::for_test(
        TerminalShutdownSignal::Term,
        second.state.containment(),
        first.state.child_authority(),
    );
    let outcome = expect_ok(
        system.shutdown_after_forwarded(
            second,
            None,
            mismatched,
            Duration::from_millis(100),
            TEST_DEADLINE,
        ),
        "the TUI must be reaped",
    );
    assert!(matches!(
        outcome,
        ShutdownOutcome::Failed {
            error: ProcessError::ForwardedSignalMismatch { role: ChildRole::Tui },
            ..
        }
    ));

    let cleanup = expect_ok(
        system.shutdown_fixture_pair(Some(first), None, Duration::from_millis(100), TEST_DEADLINE),
        "the TUI must be reaped",
    );
    assert_eq!(cleanup.failure(), None);
}

#[test]
fn terminal_control_authority_rejects_an_app_server_child() -> Result<(), ProcessError> {
    let mut system = System::new();
    let mut app = system.cooperative_app()?;
    let deadline = system.after(TEST_DEADLINE);
    let refused =
        ProcessError::RoleMismatch { expected: ChildRole::Tui, actual: ChildRole::AppServer };

    let begun = control::notify_terminal_resize(&app.state, deadline);
    assert_eq!(system.control_signal(&mut app, begun), Err(refused));
    let begun = control::forward_interactive_terminal_signal(
        &app.state,
        InteractiveTerminalSignal::Int,
        deadline,
    );
    assert_eq!(system.control_signal(&mut app, begun), Err(refused));
    assert_eq!(system.suspend(&mut app, deadline, deadline), Err(refused));
    assert_eq!(system.resume(&mut app, deadline), Err(refused));

    let outcome = expect_ok(
        system.shutdown_fixture_pair(None, Some(app), Duration::from_millis(100), TEST_DEADLINE),
        "the App Server must drain",
    );
    assert_eq!(outcome.failure(), None);
    Ok(())
}

#[test]
fn interactive_signal_narrowing_rejects_shutdown_signals() {
    assert_eq!(
        InteractiveTerminalSignal::from_unix_signal(UnixSignal::Int),
        Some(InteractiveTerminalSignal::Int)
    );
    assert_eq!(
        InteractiveTerminalSignal::from_unix_signal(UnixSignal::Quit),
        Some(InteractiveTerminalSignal::Quit)
    );
    assert_eq!(InteractiveTerminalSignal::from_unix_signal(UnixSignal::Hup), None);
    assert_eq!(InteractiveTerminalSignal::from_unix_signal(UnixSignal::Term), None);
}

// ---------------------------------------------------------------------------
// Giving a child up.
// ---------------------------------------------------------------------------

#[test]
fn dropping_a_live_child_best_effort_kills_and_reaps_its_leader() {
    let mut system = System::new();
    let child = system.tui(sleeping(), false);
    let handle = child.handle;

    let (verdict, _) = system.release_child(child);
    assert_eq!(verdict, Some(ReleaseVerdict::Released));
    system.assert_no_wait_authority(handle);
}

#[test]
fn direct_child_drop_fallbacks_abort_instead_of_detaching_wait_authority() {
    let mut system = System::new();
    system.group_fault = Some(SystemError::Other);
    let child = system.tui(sleeping(), false);
    let handle = child.handle;
    let (verdict, actions) = system.release_child(child);
    assert_eq!(verdict, Some(ReleaseVerdict::Fatal));
    assert!(actions.contains(&ChildAction::KillLeader));
    system.assert_no_wait_authority(handle);

    let handle = system.start(sleeping());
    let pid = system.processes[handle].pid;
    let failure = SpawnFailure::started_fixture(
        ProcessError::Spawn { role: ChildRole::Tui },
        handle,
        pid,
        Some(pid),
    );
    assert_eq!(system.release_failure(failure), Some(ReleaseVerdict::Fatal));

    system.group_fault = None;
    let handle = system.start(sleeping());
    let pid = system.processes[handle].pid;
    let failure = SpawnFailure::started_fixture(
        ProcessError::Spawn { role: ChildRole::Tui },
        handle,
        pid,
        Some(pid),
    );
    assert_eq!(system.release_failure(failure), Some(ReleaseVerdict::Released));
    system.assert_no_wait_authority(handle);
    assert_eq!(
        system.release_failure(SpawnFailure::not_started(ProcessError::Deadline)),
        Some(ReleaseVerdict::Released)
    );
}

#[test]
fn ambiguous_app_drop_aborts_without_sending_a_signal() {
    let mut system = System::new();
    let app = system.app(counting(OnTerm::Exit(0)), false);
    let handle = app.handle;
    let (verdict, actions) = system.release_child(app);
    assert_eq!(verdict, Some(ReleaseVerdict::Fatal));
    assert!(actions.is_empty());
    assert_eq!(system.log(handle), b"R");
    assert!(system.processes[handle].life == Life::Running);
}

// ---------------------------------------------------------------------------
// Liveness, suspension, resumption.
// ---------------------------------------------------------------------------

#[test]
fn liveness_poll_observes_exit_without_consuming_exact_wait_authority() -> Result<(), ProcessError>
{
    let mut system = System::new();
    let mut child = system.tui(scripted(&[(millis(200), Happening::Exit(0))]), false);
    system.await_exit(&mut child)?;
    assert!(!system.processes[child.handle].reaped);

    let outcome = expect_ok(
        system.shutdown_fixture_pair(Some(child), None, Duration::ZERO, TEST_DEADLINE),
        "the TUI must be reaped",
    );
    assert!(matches!(
        outcome.children().tui(),
        ChildDisposition::Exited { code: 0, stop_action: StopAction::NoAction }
    ));
    Ok(())
}

#[test]
fn liveness_poll_keeps_stopped_tui_classified_as_running() -> Result<(), ProcessError> {
    let mut system = System::new();
    let mut child = system.tui(sleeping(), false);
    let (graceful, forced) = (system.after(Duration::from_millis(100)), system.after(TEST_DEADLINE));
    system.suspend(&mut child, graceful, forced)?;

    let deadline = system.after(TEST_DEADLINE);
    assert_eq!(system.poll_liveness(&mut child, deadline)?, ChildLiveness::Running);

    system.resume(&mut child, deadline)?;
    let outcome = expect_ok(
        system.shutdown_fixture_pair(Some(child), None, Duration::from_millis(100), TEST_DEADLINE),
        "the TUI must be reaped",
    );
    assert_eq!(outcome.failure(), None);
    Ok(())
}

#[test]
fn suspend_forces_a_tstp_ignoring_tui_group_to_stop() -> Result<(), ProcessError> {
    let mut system = System::new();
    let mut child = system.tui(counting(OnTerm::Ignore), false);
    let handle = child.handle;
    let (graceful, forced) = (system.after(Duration::from_millis(100)), system.after(TEST_DEADLINE));
    system.suspend(&mut child, graceful, forced)?;
    assert_eq!(system.log(handle), b"RS");
    assert!(system.processes[handle].life == Life::Stopped);
    let deadline = system.after(TEST_DEADLINE);
    assert_eq!(system.poll_liveness(&mut child, deadline)?, ChildLiveness::Running);

    system.resume(&mut child, deadline)?;
    let outcome = expect_ok(
        system.shutdown_fixture_pair(Some(child), None, Duration::from_millis(100), TEST_DEADLINE),
        "the TUI must be reaped",
    );
    assert_eq!(outcome.failure(), None);
    Ok(())
}

#[test]
fn repeated_suspend_resume_cycles_do_not_reuse_nonterminal_wait_notifications(
) -> Result<(), ProcessError> {
    let mut system = System::new();
    let mut child = system.tui(sleeping(), false);
    for _ in 0..2 {
        let (graceful, forced) =
            (system.after(Duration::from_millis(100)), system.after(TEST_DEADLINE));
        system.suspend(&mut child, graceful, forced)?;
        let deadline = system.after(TEST_DEADLINE);
        system.resume(&mut child, deadline)?;
    }

    let outcome = expect_ok(
        system.shutdown_fixture_pair(Some(child), None, Duration::from_millis(100), TEST_DEADLINE),
        "the TUI must be reaped",
    );
    assert_eq!(outcome.failure(), None);
    Ok(())
}

#[test]
fn resume_does_not_require_a_distinct_continued_wait_notification() -> Result<(), ProcessError> {
    let mut system = System::new();
    let mut child = system.tui(sleeping(), false);
    let (graceful, forced) = (system.after(Duration::from_millis(100)), system.after(TEST_DEADLINE));
    system.suspend(&mut child, graceful, forced)?;

    system.processes[child.handle].take(Signal::Cont);
    assert!(system.processes[child.handle].life == Life::Running);

    let deadline = system.after(Duration::from_millis(100));
    system.resume(&mut child, deadline)?;
    let outcome = expect_ok(
        system.shutdown_fixture_pair(Some(child), None, Duration::from_millis(100), TEST_DEADLINE),
        "the TUI must be reaped",
    );
    assert_eq!(outcome.failure(), None);
    Ok(())
}

#[test]
fn a_suspension_with_a_forced_deadline_before_the_graceful_one_is_refused() {
    let mut system = System::new();
    let mut child = system.tui(sleeping(), false);
    let (late, early) = (system.after(TEST_DEADLINE), system.after(Duration::from_millis(1)));
    assert_eq!(system.suspend(&mut child, late, early), Err(ProcessError::Deadline));
}

#[test]
fn an_interactive_signal_reports_liveness_afterwards() -> Result<(), ProcessError> {
    let mut system = System::new();
    let mut child = system.tui(sleeping(), false);
    let deadline = system.after(TEST_DEADLINE);
    let begun = control::notify_terminal_resize(&child.state, deadline);
    assert_eq!(system.control_signal(&mut child, begun)?, ChildLiveness::Running);
    let begun = control::forward_interactive_terminal_signal(
        &child.state,
        InteractiveTerminalSignal::Quit,
        deadline,
    );
    assert_eq!(system.control_signal(&mut child, begun)?, ChildLiveness::Exited);
    Ok(())
}

// ---------------------------------------------------------------------------
// First errors and retries.
// ---------------------------------------------------------------------------

#[test]
fn exact_reap_proof_survives_an_earlier_shutdown_failure() -> Result<(), ProcessError> {
    let mut system = System::new();
    let app = system.cooperative_app()?;

    let completion = expect_ok(
        system.shutdown_pair_inner(
            None,
            Some(app),
            Duration::from_millis(100),
            TEST_DEADLINE,
            TuiShutdownMode::StartWithTerm,
            Some(ProcessError::RoleMismatch {
                expected: ChildRole::Tui,
                actual: ChildRole::AppServer,
            }),
        ),
        "the App Server must drain",
    );
    assert!(completion.app_gracefully_drained.is_some());
    let outcome = completion.outcome;
    assert!(matches!(
        outcome,
        ShutdownOutcome::Failed {
            error: ProcessError::RoleMismatch {
                expected: ChildRole::Tui,
                actual: ChildRole::AppServer,
            },
            ..
        }
    ));
    assert!(matches!(
        outcome.children().app_server(),
        ChildDisposition::Exited { code: 0, stop_action: StopAction::Term }
    ));
    Ok(())
}

#[test]
fn invalid_shutdown_deadline_returns_the_live_direct_handle_for_retry() -> Result<(), ProcessError>
{
    let mut system = System::new();
    let child = system.tui(sleeping(), false);
    let mut unreaped = expect_err(
        system.shutdown_fixture_pair(Some(child), None, Duration::MAX, Duration::ZERO),
        "overflowing deadline must fail",
    );
    assert_eq!(unreaped.error(), ProcessError::Deadline);

    let outcome =
        system.retry(&mut unreaped, Duration::from_millis(100), TEST_DEADLINE, None)?;
    assert!(matches!(outcome.children().tui(), ChildDisposition::Signaled { .. }));
    assert_eq!(
        system.retry(&mut unreaped, Duration::ZERO, Duration::ZERO, None),
        Err(ProcessError::RetryAfterResolution)
    );
    Ok(())
}

#[test]
fn tui_shutdown_output_progress_runs_without_replacing_exact_reap_or_error(
) -> Result<(), ProcessError> {
    let mut system = System::new();
    let mut child = system.tui(announcing(OnTerm::Ignore), true);
    let handle = child.handle;
    let deadline = system.after(TEST_DEADLINE);
    system.await_ready(&mut child, deadline)?;
    let secret = "synthetic-private-pty-payload@example.invalid";
    let mut calls = 0_u32;
    let mut progress = || {
        calls += 1;
        Err(ProcessError::TuiOutputDrain { role: ChildRole::Tui })
    };

    let (grace, hard) = attempt_deadlines(
        system.now(),
        Duration::from_millis(20).as_nanos(),
        TEST_DEADLINE.as_nanos(),
    );
    let mut pair = expect_ok(
        shutdown_pair_inner_with_tui_output_progress(
            Some(child),
            None,
            grace,
            hard,
            TuiShutdownMode::StartWithTerm,
            None,
            true,
        ),
        "both deadlines are there",
    );
    system.run_pair(&mut pair, &mut progress);
    let outcome = expect_ok(finish_shutdown(pair), "the TUI must be reaped").outcome;

    assert!(calls >= 2);
    assert_eq!(
        outcome.failure(),
        Some(ProcessError::TuiOutputDrain { role: ChildRole::Tui })
    );
    assert!(matches!(
        outcome.children().tui(),
        ChildDisposition::Signaled { signal: 9, stop_action: StopAction::Kill, .. }
    ));
    system.assert_no_wait_authority(handle);
    assert!(!format!("{outcome:?}").contains(secret));
    assert_eq!(
        outcome.failure().map(|error| error.message()),
        Some("supervised TUI shutdown output drain failed")
    );
    Ok(())
}

#[test]
fn each_tui_shutdown_with_output_progress_keeps_its_own_signal_rule() -> Result<(), ProcessError> {
    let mut system = System::new();
    let mut progressed = 0_u32;

    let child = system.tui(sleeping(), false);
    let (grace, hard) = system.attempt_times();
    let mut pair = expect_ok(
        attempt::shutdown_tui_child_with_output_progress(child, grace, hard),
        "both deadlines are there",
    );
    system.run_pair(&mut pair, &mut || {
        progressed += 1;
        Ok(())
    });
    assert!(progressed >= 2);
    let outcome = expect_ok(finish_shutdown(pair), "the TUI must be reaped").outcome;
    assert_eq!(
        outcome.children().tui(),
        ChildDisposition::Signaled {
            signal: 15,
            core_dumped: false,
            stop_action: StopAction::Term,
        }
    );

    let mut child = system.tui(sleeping(), false);
    let forwarded = system.forward_shutdown(&mut child, TerminalShutdownSignal::Hup)?;
    let (grace, hard) = system.attempt_times();
    let mut pair = expect_ok(
        attempt::shutdown_tui_after_forwarded_signal_with_output_progress(
            child, forwarded, grace, hard,
        ),
        "both deadlines are there",
    );
    assert!(pair.has_progress);
    system.run_pair(&mut pair, &mut || Ok(()));
    let outcome = expect_ok(finish_shutdown(pair), "the TUI must be reaped").outcome;
    assert_eq!(outcome.failure(), None);
    assert_eq!(
        outcome.children().tui(),
        ChildDisposition::Signaled {
            signal: 1,
            core_dumped: false,
            stop_action: StopAction::NoAction,
        }
    );

    let child = system.tui(scripted(&[(millis(10), Happening::Exit(7))]), false);
    let (grace, hard) = system.attempt_times();
    let mut pair = expect_ok(
        attempt::shutdown_tui_after_output_eof_with_output_progress(child, grace, hard),
        "both deadlines are there",
    );
    assert!(pair.has_progress);
    system.run_pair(&mut pair, &mut || Ok(()));
    let outcome = expect_ok(finish_shutdown(pair), "the TUI must be reaped").outcome;
    assert_eq!(
        outcome.children().tui(),
        ChildDisposition::Exited { code: 7, stop_action: StopAction::NoAction }
    );
    Ok(())
}

#[test]
fn retained_tui_retry_reuses_output_progress_and_exact_wait_authority() -> Result<(), ProcessError>
{
    let mut system = System::new();
    let child = system.tui(sleeping(), false);
    let handle = child.handle;
    let mut unreaped = expect_err(
        system.shutdown_fixture_pair(Some(child), None, Duration::MAX, Duration::ZERO),
        "overflowing deadline must retain the exact TUI child",
    );
    let mut calls = 0_u32;
    let mut progress = || {
        calls += 1;
        Ok(())
    };
    let outcome = system.retry(
        &mut unreaped,
        Duration::from_millis(20),
        TEST_DEADLINE,
        Some(&mut progress),
    )?;
    assert!(calls > 0);
    assert_eq!(outcome.failure(), Some(ProcessError::Deadline));
    assert!(matches!(outcome.children().tui(), ChildDisposition::Signaled { .. }));
    system.assert_no_wait_authority(handle);
    assert_eq!(
        system.retry(
            &mut unreaped,
            Duration::ZERO,
            Duration::ZERO,
            Some(&mut || Ok(())),
        ),
        Err(ProcessError::RetryAfterResolution)
    );
    Ok(())
}

#[test]
fn an_attempt_that_runs_out_of_time_keeps_the_child_and_reports_the_wait() {
    let mut system = System::new();
    let child = system.tui(sleeping(), false);
    system.group_fault = Some(SystemError::Other);
    let mut unreaped = expect_err(
        system.shutdown_fixture_pair(
            Some(child),
            None,
            Duration::from_millis(20),
            Duration::from_millis(20),
        ),
        "a TUI whose group cannot be signalled is not reaped",
    );
    assert_eq!(
        unreaped.error(),
        ProcessError::Signal { role: ChildRole::Tui, action: StopAction::Term }
    );
    assert!(unreaped.tui_owned());

    system.group_fault = None;
    let outcome = expect_ok(
        system.retry(&mut unreaped, Duration::from_millis(20), TEST_DEADLINE, None),
        "the retained TUI can still be reaped",
    );
    assert_eq!(
        outcome.failure(),
        Some(ProcessError::Signal { role: ChildRole::Tui, action: StopAction::Term })
    );
}

#[test]
fn authorities_are_handed_out_once() {
    let mut counter = u64::MAX - 1;
    let first = ChildAuthority::next(&mut counter);
    assert!(first.is_some_and(|first| first.same(ChildAuthority::for_test(u64::MAX - 1))));
    assert_eq!(counter, u64::MAX);
    assert!(ChildAuthority::next(&mut counter).is_none());
    assert_eq!(counter, u64::MAX);
}

#[test]
fn the_pause_between_two_polls_never_passes_the_deadline() {
    let at = |nanos: u64| Moment { nanos };
    assert_eq!(sleep_until_next_poll(at(0), at(millis(30))), millis(10));
    assert_eq!(sleep_until_next_poll(at(millis(25)), at(millis(30))), millis(5));
    assert_eq!(sleep_until_next_poll(at(millis(30)), at(millis(30))), 0);
    assert_eq!(sleep_until_next_poll(at(millis(40)), at(millis(30))), 0);
}
