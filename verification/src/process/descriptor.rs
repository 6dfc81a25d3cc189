//! The bounded observation that a group holds no forbidden descriptor.
//!
//! Only a race between two snapshots is tried again, before a deadline, and
//! only while the direct child is live before and after every scan.
use vstd::prelude::*;

use crate::clock::Moment;
use crate::process::child::{pause, sleep_until_next_poll, ChildState};
use crate::process::observe::{ChildAction, ChildEvent};
use crate::process::readiness::{confirm_running_after_readiness, ConfirmPhase, ConfirmRunning};

verus! {

/// How long an observation may wait for the group to settle, in nanoseconds.
pub const DESCRIPTOR_OBSERVATION_SETTLE_NANOS: u64 = 10_000_000_000;

/// Why a scan of a process group proved nothing.
#[derive(Clone, Copy, Debug, PartialEq, Eq, Structural)]
pub enum ProcessGroupDescriptorScanError {
    ProcessChanged,
    DescriptorChanged,
    ForbiddenDescriptor,
    ObservationFailed,
    Deadline,
    /// Any other failure, by the number under which its owner finds it again.
    Other { cause: u32 },
}

/// How one attempt failed: by a race that may be tried again, or for good.
#[derive(Clone, Copy, Debug, PartialEq, Eq, Structural)]
pub enum DescriptorObservationAttemptError {
    TransientProcessChanged,
    TransientDescriptorChanged,
    Terminal(ProcessGroupDescriptorScanError),
}

/// The group changed between the two snapshots of a scan.
pub open spec fn snapshot_race(error: ProcessGroupDescriptorScanError) -> bool {
    error == ProcessGroupDescriptorScanError::ProcessChanged || error
        == ProcessGroupDescriptorScanError::DescriptorChanged
}

impl DescriptorObservationAttemptError {
    pub open spec fn of_scan(error: ProcessGroupDescriptorScanError) -> Self {
        match error {
            ProcessGroupDescriptorScanError::ProcessChanged => {
                DescriptorObservationAttemptError::TransientProcessChanged
            },
            ProcessGroupDescriptorScanError::DescriptorChanged => {
                DescriptorObservationAttemptError::TransientDescriptorChanged
            },
            _ => DescriptorObservationAttemptError::Terminal(error),
        }
    }

    pub fn from_scan(error: ProcessGroupDescriptorScanError) -> (attempt: Self)
        ensures
            attempt == Self::of_scan(error),
            attempt is Terminal <==> !snapshot_race(error),
    {
        match error {
            ProcessGroupDescriptorScanError::ProcessChanged => {
                DescriptorObservationAttemptError::TransientProcessChanged
            },
            ProcessGroupDescriptorScanError::DescriptorChanged => {
                DescriptorObservationAttemptError::TransientDescriptorChanged
            },
            error => DescriptorObservationAttemptError::Terminal(error),
        }
    }

    /// The direct child is gone: nothing may be tried again.
    pub open spec fn child_gone() -> Self {
        DescriptorObservationAttemptError::Terminal(ProcessGroupDescriptorScanError::ProcessChanged)
    }

    pub fn terminal_process_changed() -> (attempt: Self)
        ensures
            attempt == Self::child_gone(),
    {
        DescriptorObservationAttemptError::Terminal(ProcessGroupDescriptorScanError::ProcessChanged)
    }
}

/// The settle time from now on, but never past the caller's deadline.
pub open spec fn settle_deadline(now: Moment, caller_deadline: Moment) -> Moment {
    if now.nanos + DESCRIPTOR_OBSERVATION_SETTLE_NANOS < caller_deadline.nanos {
        Moment { nanos: (now.nanos + DESCRIPTOR_OBSERVATION_SETTLE_NANOS) as u64 }
    } else {
        caller_deadline
    }
}

pub fn descriptor_observation_deadline(now: Moment, caller_deadline: Moment) -> (deadline: Moment)
    ensures
        deadline == settle_deadline(now, caller_deadline),
        deadline.nanos <= caller_deadline.nanos,
        deadline.nanos <= now.nanos + DESCRIPTOR_OBSERVATION_SETTLE_NANOS,
{
    match now.checked_add(DESCRIPTOR_OBSERVATION_SETTLE_NANOS) {
        Some(settle_deadline) => if settle_deadline.nanos < caller_deadline.nanos {
            settle_deadline
        } else {
            caller_deadline
        },
        None => caller_deadline,
    }
}

// ---------------------------------------------------------------------------
// Trying again.
// ---------------------------------------------------------------------------

/// What is to be done next.
#[derive(Clone, Copy, Debug, PartialEq, Eq, Structural)]
pub enum RetryAction {
    ReadClock,
    Attempt { deadline: Moment },
    Sleep { nanos: u64 },
}

/// What came of it.
pub enum RetryEvent<T> {
    Clock(Moment),
    Attempted(Result<T, DescriptorObservationAttemptError>),
    Slept,
}

pub enum RetryPhase<T> {
    StartClock,
    Clock { deadline: Moment },
    Attempt { deadline: Moment },
    RaceClock { deadline: Moment },
    Sleep { deadline: Moment, nanos: u64 },
    Observed(T),
    Failed(ProcessGroupDescriptorScanError),
}

/// An observation that is tried again after a race.
pub struct DescriptorRetry<T> {
    pub caller_deadline: Moment,
    pub phase: RetryPhase<T>,
}

impl<T> DescriptorRetry<T> {
    pub open spec fn start(caller_deadline: Moment) -> Self {
        DescriptorRetry { caller_deadline, phase: RetryPhase::StartClock }
    }

    pub open spec fn at(self, phase: RetryPhase<T>) -> Self {
        DescriptorRetry { phase, ..self }
    }

    pub open spec fn expired(self) -> Self {
        self.at(RetryPhase::Failed(ProcessGroupDescriptorScanError::Deadline))
    }

    pub open spec fn after(self, event: RetryEvent<T>) -> Self {
        match (self.phase, event) {
            (RetryPhase::StartClock, RetryEvent::Clock(now)) => self.at(
                RetryPhase::Clock { deadline: settle_deadline(now, self.caller_deadline) },
            ),
            (RetryPhase::Clock { deadline }, RetryEvent::Clock(now)) => if now.reached(deadline) {
                self.expired()
            } else {
                self.at(RetryPhase::Attempt { deadline })
            },
            (RetryPhase::Attempt { deadline }, RetryEvent::Attempted(outcome)) => match outcome {
                Ok(observed) => self.at(RetryPhase::Observed(observed)),
                Err(DescriptorObservationAttemptError::Terminal(error)) => self.at(
                    RetryPhase::Failed(error),
                ),
                Err(_) => self.at(RetryPhase::RaceClock { deadline }),
            },
            (RetryPhase::RaceClock { deadline }, RetryEvent::Clock(now)) => if now.reached(
                deadline,
            ) {
                self.expired()
            } else {
                self.at(RetryPhase::Sleep { deadline, nanos: pause(now, deadline) as u64 })
            },
            (RetryPhase::Sleep { deadline, .. }, RetryEvent::Slept) => self.at(
                RetryPhase::Clock { deadline },
            ),
            _ => self,
        }
    }

    pub open spec fn spec_action(self) -> Option<RetryAction> {
        match self.phase {
            RetryPhase::StartClock => Some(RetryAction::ReadClock),
            RetryPhase::Clock { .. } => Some(RetryAction::ReadClock),
            RetryPhase::Attempt { deadline } => Some(RetryAction::Attempt { deadline }),
            RetryPhase::RaceClock { .. } => Some(RetryAction::ReadClock),
            RetryPhase::Sleep { nanos, .. } => Some(RetryAction::Sleep { nanos }),
            RetryPhase::Observed(_) => None,
            RetryPhase::Failed(_) => None,
        }
    }

    /// What the observation came to, once it is over.
    pub open spec fn result(self) -> Result<T, ProcessGroupDescriptorScanError> {
        match self.phase {
            RetryPhase::Observed(observed) => Ok(observed),
            RetryPhase::Failed(error) => Err(error),
            _ => Err(ProcessGroupDescriptorScanError::Deadline),
        }
    }

    pub fn begin(caller_deadline: Moment) -> (retry: Self)
        ensures
            retry == Self::start(caller_deadline),
    {
        DescriptorRetry { caller_deadline, phase: RetryPhase::StartClock }
    }

    /// What is to be done next; `None` once the observation is over.
    pub fn action(&self) -> (action: Option<RetryAction>)
        ensures
            action == self.spec_action(),
    {
        match &self.phase {
            RetryPhase::StartClock => Some(RetryAction::ReadClock),
            RetryPhase::Clock { .. } => Some(RetryAction::ReadClock),
            RetryPhase::Attempt { deadline } => Some(RetryAction::Attempt { deadline: *deadline }),
            RetryPhase::RaceClock { .. } => Some(RetryAction::ReadClock),
            RetryPhase::Sleep { nanos, .. } => Some(RetryAction::Sleep { nanos: *nanos }),
            RetryPhase::Observed(_) => None,
            RetryPhase::Failed(_) => None,
        }
    }

    /// What the last attempt observed, or why there was no observation.
    pub fn finish(self) -> (result: Result<T, ProcessGroupDescriptorScanError>)
        requires
            self.spec_action() is None,
        ensures
            result == self.result(),
    {
        match self.phase {
            RetryPhase::Observed(observed) => Ok(observed),
            RetryPhase::Failed(error) => Err(error),
            _ => Err(ProcessGroupDescriptorScanError::Deadline),
        }
    }

    fn take_clock(&mut self, now: Moment)
        ensures
            *final(self) == old(self).after(RetryEvent::Clock(now)),
    {
        match self.phase {
            RetryPhase::StartClock => {
                let deadline = descriptor_observation_deadline(now, self.caller_deadline);
                self.phase = RetryPhase::Clock { deadline };
            },
            RetryPhase::Clock { deadline } => {
                self.phase = if now.has_reached(deadline) {
                    RetryPhase::Failed(ProcessGroupDescriptorScanError::Deadline)
                } else {
                    RetryPhase::Attempt { deadline }
                };
            },
            RetryPhase::RaceClock { deadline } => {
                self.phase = if now.has_reached(deadline) {
                    RetryPhase::Failed(ProcessGroupDescriptorScanError::Deadline)
                } else {
                    RetryPhase::Sleep { deadline, nanos: sleep_until_next_poll(now, deadline) }
                };
            },
            _ => {},
        }
    }

    fn take_attempt(&mut self, outcome: Result<T, DescriptorObservationAttemptError>)
        ensures
            *final(self) == old(self).after(RetryEvent::Attempted(outcome)),
    {
        if let RetryPhase::Attempt { deadline } = self.phase {
            self.phase = match outcome {
                Ok(observed) => RetryPhase::Observed(observed),
                Err(DescriptorObservationAttemptError::Terminal(error)) => RetryPhase::Failed(
                    error,
                ),
                Err(_) => RetryPhase::RaceClock { deadline },
            };
        }
    }

    fn take_sleep(&mut self)
        ensures
            *final(self) == old(self).after(RetryEvent::Slept),
    {
        if let RetryPhase::Sleep { deadline, .. } = self.phase {
            self.phase = RetryPhase::Clock { deadline };
        }
    }
}

/// Takes one event into an observation.
pub fn retry_descriptor_observation<T>(retry: &mut DescriptorRetry<T>, event: RetryEvent<T>)
    ensures
        *final(retry) == old(retry).after(event),
{
    match event {
        RetryEvent::Clock(now) => {
            retry.take_clock(now);
        },
        RetryEvent::Attempted(outcome) => {
            retry.take_attempt(outcome);
        },
        RetryEvent::Slept => {
            retry.take_sleep();
        },
    }
}

// ---------------------------------------------------------------------------
// One attempt around a live child.
// ---------------------------------------------------------------------------

/// One scan between two checks that the direct child is live.
pub enum LiveAttempt<T> {
    Idle,
    Before(ConfirmRunning),
    Scan,
    After { confirm: ConfirmRunning, scanned: Result<T, ProcessGroupDescriptorScanError> },
    Over(Result<T, DescriptorObservationAttemptError>),
}

/// What came of the last step.
pub enum LiveEvent<T> {
    Child(ChildEvent),
    Scanned(Result<T, ProcessGroupDescriptorScanError>),
}

impl<T> LiveAttempt<T> {
    pub open spec fn gone() -> Self {
        LiveAttempt::Over(Err(DescriptorObservationAttemptError::child_gone()))
    }

    pub open spec fn before(confirm: ConfirmRunning) -> Self {
        match confirm.phase {
            ConfirmPhase::Running => LiveAttempt::Scan,
            ConfirmPhase::Failed(_) => Self::gone(),
            _ => LiveAttempt::Before(confirm),
        }
    }

    pub open spec fn closing(
        confirm: ConfirmRunning,
        scanned: Result<T, ProcessGroupDescriptorScanError>,
    ) -> Self {
        match confirm.phase {
            ConfirmPhase::Running => LiveAttempt::Over(
                match scanned {
                    Ok(observed) => Ok(observed),
                    Err(error) => Err(DescriptorObservationAttemptError::of_scan(error)),
                },
            ),
            ConfirmPhase::Failed(_) => Self::gone(),
            _ => LiveAttempt::After { confirm, scanned },
        }
    }

    pub open spec fn start(child: ChildState, deadline: Moment) -> (Self, ChildState) {
        let (confirm, child) = ConfirmRunning::start(child, deadline);
        (Self::before(confirm), child)
    }

    pub open spec fn after(self, child: ChildState, deadline: Moment, event: LiveEvent<T>) -> (
        Self,
        ChildState,
    ) {
        match (self, event) {
            (LiveAttempt::Before(confirm), LiveEvent::Child(event)) => {
                let (confirm, child) = confirm.after(child, event);
                (Self::before(confirm), child)
            },
            (LiveAttempt::Scan, LiveEvent::Scanned(scanned)) => if scanned is Err
                && !snapshot_race(scanned->Err_0) {
                (
                    LiveAttempt::Over(
                        Err(DescriptorObservationAttemptError::Terminal(scanned->Err_0)),
                    ),
                    child,
                )
            } else {
                let (confirm, child) = ConfirmRunning::start(child, deadline);
                (Self::closing(confirm, scanned), child)
            },
            (LiveAttempt::After { confirm, scanned }, LiveEvent::Child(event)) => {
                let (confirm, child) = confirm.after(child, event);
                (Self::closing(confirm, scanned), child)
            },
            _ => (self, child),
        }
    }

    fn opened(confirm: ConfirmRunning) -> (attempt: Self)
        ensures
            attempt == Self::before(confirm),
    {
        match confirm.phase {
            ConfirmPhase::Running => LiveAttempt::Scan,
            ConfirmPhase::Failed(_) => LiveAttempt::Over(
                Err(DescriptorObservationAttemptError::terminal_process_changed()),
            ),
            _ => LiveAttempt::Before(confirm),
        }
    }

    fn closed(
        confirm: ConfirmRunning,
        scanned: Result<T, ProcessGroupDescriptorScanError>,
    ) -> (attempt: Self)
        ensures
            attempt == Self::closing(confirm, scanned),
    {
        match confirm.phase {
            ConfirmPhase::Running => match scanned {
                Ok(observed) => LiveAttempt::Over(Ok(observed)),
                Err(error) => LiveAttempt::Over(
                    Err(DescriptorObservationAttemptError::from_scan(error)),
                ),
            },
            ConfirmPhase::Failed(_) => LiveAttempt::Over(
                Err(DescriptorObservationAttemptError::terminal_process_changed()),
            ),
            _ => LiveAttempt::After { confirm, scanned },
        }
    }

    fn begin(child: &mut ChildState, deadline: Moment) -> (attempt: Self)
        ensures
            (attempt, *final(child)) == Self::start(*old(child), deadline),
    {
        let confirm = ConfirmRunning::begin(child, deadline);
        Self::opened(confirm)
    }

    fn advance(self, child: &mut ChildState, deadline: Moment, event: LiveEvent<T>) -> (attempt:
        Self)
        ensures
            (attempt, *final(child)) == self.after(*old(child), deadline, event),
    {
        match (self, event) {
            (LiveAttempt::Before(confirm), LiveEvent::Child(event)) => {
                let mut confirm = confirm;
                confirm_running_after_readiness(&mut confirm, child, event);
                Self::opened(confirm)
            },
            (LiveAttempt::Scan, LiveEvent::Scanned(scanned)) => {
                if let Err(error) = &scanned {
                    let attempt_error = DescriptorObservationAttemptError::from_scan(*error);
                    if let DescriptorObservationAttemptError::Terminal(error) = attempt_error {
                        return LiveAttempt::Over(
                            Err(DescriptorObservationAttemptError::Terminal(error)),
                        );
                    }
                }
                let confirm = ConfirmRunning::begin(child, deadline);
                Self::closed(confirm, scanned)
            },
            (LiveAttempt::After { confirm, scanned }, LiveEvent::Child(event)) => {
                let mut confirm = confirm;
                confirm_running_after_readiness(&mut confirm, child, event);
                Self::closed(confirm, scanned)
            },
            (attempt, _) => attempt,
        }
    }
}

// ---------------------------------------------------------------------------
// The observation around a live child.
// ---------------------------------------------------------------------------

/// What is to be done next.
#[derive(Clone, Copy, Debug, PartialEq, Eq, Structural)]
pub enum LiveAction {
    Child(ChildAction),
    /// Scan the child's group for the forbidden descriptors.
    Scan { deadline: Moment },
    ReadClock,
    Sleep { nanos: u64 },
}

/// The observation that a live child's group holds no forbidden descriptor.
pub struct LiveObservation<T> {
    pub retry: DescriptorRetry<T>,
    pub attempt: LiveAttempt<T>,
}

impl<T> LiveObservation<T> {
    pub open spec fn start(caller_deadline: Moment) -> Self {
        LiveObservation { retry: DescriptorRetry::start(caller_deadline), attempt: LiveAttempt::Idle }
    }

    /// An attempt that is over is taken up at once.
    pub open spec fn with_attempt(self, attempt: LiveAttempt<T>) -> Self {
        match attempt {
            LiveAttempt::Over(outcome) => LiveObservation {
                retry: self.retry.after(RetryEvent::Attempted(outcome)),
                attempt: LiveAttempt::Idle,
            },
            _ => LiveObservation { attempt, ..self },
        }
    }

    /// A retry that has come to an attempt begins it at once.
    pub open spec fn with_retry(self, child: ChildState, retry: DescriptorRetry<T>) -> (
        Self,
        ChildState,
    ) {
        let moved = LiveObservation { retry, ..self };
        match retry.phase {
            RetryPhase::Attempt { deadline } => {
                let (attempt, child) = LiveAttempt::start(child, deadline);
                (moved.with_attempt(attempt), child)
            },
            _ => (moved, child),
        }
    }

    pub open spec fn after(self, child: ChildState, event: LiveEvent<T>) -> (Self, ChildState) {
        match self.retry.phase {
            RetryPhase::Attempt { deadline } => {
                let (attempt, child) = self.attempt.after(child, deadline, event);
                (self.with_attempt(attempt), child)
            },
            _ => match event {
                LiveEvent::Child(ChildEvent::Clock(now)) => self.with_retry(
                    child,
                    self.retry.after(RetryEvent::Clock(now)),
                ),
                LiveEvent::Child(ChildEvent::Slept) => self.with_retry(
                    child,
                    self.retry.after(RetryEvent::Slept),
                ),
                _ => (self, child),
            },
        }
    }

    pub open spec fn spec_action(self) -> Option<LiveAction> {
        match self.retry.phase {
            RetryPhase::Attempt { deadline } => match self.attempt {
                LiveAttempt::Before(confirm) => child_step(confirm.spec_action()),
                LiveAttempt::Scan => Some(LiveAction::Scan { deadline }),
                LiveAttempt::After { confirm, .. } => child_step(confirm.spec_action()),
                _ => None,
            },
            RetryPhase::Sleep { nanos, .. } => Some(LiveAction::Sleep { nanos }),
            RetryPhase::Observed(_) => None,
            RetryPhase::Failed(_) => None,
            _ => Some(LiveAction::ReadClock),
        }
    }

    pub fn begin(caller_deadline: Moment) -> (observation: Self)
        ensures
            observation == Self::start(caller_deadline),
    {
        LiveObservation { retry: DescriptorRetry::begin(caller_deadline), attempt: LiveAttempt::Idle }
    }

    /// What is to be done next; `None` once the observation is over.
    pub fn action(&self) -> (action: Option<LiveAction>)
        ensures
            action == self.spec_action(),
    {
        match &self.retry.phase {
            RetryPhase::Attempt { deadline } => match &self.attempt {
                LiveAttempt::Before(confirm) => child_action_step(confirm.action()),
                LiveAttempt::Scan => Some(LiveAction::Scan { deadline: *deadline }),
                LiveAttempt::After { confirm, .. } => child_action_step(confirm.action()),
                _ => None,
            },
            RetryPhase::Sleep { nanos, .. } => Some(LiveAction::Sleep { nanos: *nanos }),
            RetryPhase::Observed(_) => None,
            RetryPhase::Failed(_) => None,
            _ => Some(LiveAction::ReadClock),
        }
    }

    fn take_attempt(&mut self, attempt: LiveAttempt<T>)
        ensures
            *final(self) == old(self).with_attempt(attempt),
    {
        match attempt {
            LiveAttempt::Over(outcome) => {
                self.retry.take_attempt(outcome);
                self.attempt = LiveAttempt::Idle;
            },
            _ => {
                self.attempt = attempt;
            },
        }
    }

    fn begin_attempt(&mut self, child: &mut ChildState)
        ensures
            (*final(self), *final(child)) == old(self).with_retry(*old(child), old(self).retry),
    {
        if let RetryPhase::Attempt { deadline } = self.retry.phase {
            let attempt = LiveAttempt::begin(child, deadline);
            self.take_attempt(attempt);
        }
    }

    /// The proof of the last stable scan, or why there is none.
    pub fn finish(self) -> (result: Result<T, ProcessGroupDescriptorScanError>)
        requires
            self.retry.spec_action() is None,
        ensures
            result == self.retry.result(),
    {
        self.retry.finish()
    }
}

pub open spec fn child_step(action: Option<ChildAction>) -> Option<LiveAction> {
    match action {
        Some(action) => Some(LiveAction::Child(action)),
        None => None,
    }
}

fn child_action_step(action: Option<ChildAction>) -> (step: Option<LiveAction>)
    ensures
        step == child_step(action),
{
    match action {
        Some(action) => Some(LiveAction::Child(action)),
        None => None,
    }
}

/// Takes one event into the observation.
pub fn observe_forbidden_descriptors_absent_while_live<T>(
    observation: &mut LiveObservation<T>,
    child: &mut ChildState,
    event: LiveEvent<T>,
)
    ensures
        (*final(observation), *final(child)) == old(observation).after(*old(child), event),
{
    if let RetryPhase::Attempt { deadline } = observation.retry.phase {
        let mut attempt = LiveAttempt::Idle;
        core::mem::swap(&mut observation.attempt, &mut attempt);
        let attempt = attempt.advance(child, deadline, event);
        observation.take_attempt(attempt);
    } else {
        match event {
            LiveEvent::Child(ChildEvent::Clock(now)) => {
                observation.retry.take_clock(now);
                observation.begin_attempt(child);
            },
            LiveEvent::Child(ChildEvent::Slept) => {
                observation.retry.take_sleep();
                observation.begin_attempt(child);
            },
            _ => {},
        }
    }
}

// ---------------------------------------------------------------------------
// Laws.
// ---------------------------------------------------------------------------

/// An observation succeeds only with the result of a scan after which the
/// direct child was confirmed to be live.
pub proof fn law_observation_needs_a_live_child<T>(
    observation: LiveObservation<T>,
    child: ChildState,
    event: LiveEvent<T>,
)
    requires
        !(observation.retry.phase is Observed),
        observation.after(child, event).0.retry.phase is Observed,
        !(observation.attempt is Over),
    ensures
        ({
            let observed = observation.after(child, event).0.retry.phase->Observed_0;
            observation.attempt matches LiveAttempt::After { confirm, scanned }
                && event matches LiveEvent::Child(event) && scanned == Ok::<
                T,
                ProcessGroupDescriptorScanError,
            >(observed) && confirm.after(child, event).0.phase == ConfirmPhase::Running
        }),
{
}

/// Only a race between two snapshots is ever tried again: every other scan
/// error ends the observation with that error.
pub proof fn law_only_races_are_retried<T>(
    retry: DescriptorRetry<T>,
    error: ProcessGroupDescriptorScanError,
)
    requires
        retry.phase is Attempt,
    ensures
        ({
            let after = retry.after(
                RetryEvent::Attempted(Err(DescriptorObservationAttemptError::of_scan(error))),
            );
            if snapshot_race(error) {
                after.spec_action() == Some(RetryAction::ReadClock)
            } else {
                after.spec_action() is None && after.result() == Err::<
                    T,
                    ProcessGroupDescriptorScanError,
                >(error)
            }
        }),
{
}

/// No attempt begins at or past the caller's deadline.
pub open spec fn within_caller_deadline<T>(retry: DescriptorRetry<T>) -> bool {
    match retry.phase {
        RetryPhase::Clock { deadline } => deadline.nanos <= retry.caller_deadline.nanos,
        RetryPhase::Attempt { deadline } => deadline.nanos <= retry.caller_deadline.nanos,
        RetryPhase::RaceClock { deadline } => deadline.nanos <= retry.caller_deadline.nanos,
        RetryPhase::Sleep { deadline, .. } => deadline.nanos <= retry.caller_deadline.nanos,
        _ => true,
    }
}

pub proof fn law_attempts_stay_within_the_deadline<T>(
    retry: DescriptorRetry<T>,
    event: RetryEvent<T>,
)
    requires
        within_caller_deadline(retry),
    ensures
        within_caller_deadline(retry.after(event)),
        !(retry.phase is Attempt) && retry.after(event).phase is Attempt ==> (event matches
            RetryEvent::Clock(now) && !now.reached(retry.caller_deadline)),
{
}

/// An observation may take ten seconds, and less where its caller gave it less.
pub proof fn law_observation_settles_within_ten_seconds(now: Moment, caller_deadline: Moment)
    ensures
        ({
            let deadline = settle_deadline(now, caller_deadline);
            &&& deadline.nanos <= caller_deadline.nanos
            &&& deadline.nanos <= now.nanos + 10_000_000_000
            &&& deadline == caller_deadline || deadline.nanos == now.nanos + 10_000_000_000
        }),
{
}

/// An observation reads the clock twice before its first attempt, which gets the
/// deadline that was settled on. What the attempt saw is the result; a race is
/// followed by a look at the clock, a pause, and another attempt with the same
/// deadline, and the deadline ends it. Every other error is the result.
pub proof fn law_observation_is_tried_until_it_settles<T>(
    retry: DescriptorRetry<T>,
    deadline: Moment,
    now: Moment,
    observed: T,
    error: ProcessGroupDescriptorScanError,
)
    ensures
        retry.phase is StartClock ==> {
            let next = retry.after(RetryEvent::Clock(now));
            &&& retry.spec_action() == Some(RetryAction::ReadClock)
            &&& next.phase == (RetryPhase::<T>::Clock {
                deadline: settle_deadline(now, retry.caller_deadline),
            })
        },
        retry.phase == (RetryPhase::<T>::Clock { deadline }) ==> {
            let next = retry.after(RetryEvent::Clock(now));
            &&& retry.spec_action() == Some(RetryAction::ReadClock)
            &&& now.nanos >= deadline.nanos ==> next.spec_action() is None && next.result()
                == Err::<T, ProcessGroupDescriptorScanError>(
                ProcessGroupDescriptorScanError::Deadline,
            )
            &&& now.nanos < deadline.nanos ==> next.spec_action() == Some(
                RetryAction::Attempt { deadline },
            )
        },
        retry.phase == (RetryPhase::<T>::Attempt { deadline }) ==> {
            let seen = retry.after(RetryEvent::Attempted(Ok(observed)));
            let ended = retry.after(
                RetryEvent::Attempted(Err(DescriptorObservationAttemptError::Terminal(error))),
            );
            let moved = retry.after(
                RetryEvent::Attempted(
                    Err(DescriptorObservationAttemptError::TransientProcessChanged),
                ),
            );
            let reopened = retry.after(
                RetryEvent::Attempted(
                    Err(DescriptorObservationAttemptError::TransientDescriptorChanged),
                ),
            );
            let clocked = moved.after(RetryEvent::Clock(now));
            let again = clocked.after(RetryEvent::Slept);
            &&& retry.spec_action() == Some(RetryAction::Attempt { deadline })
            &&& seen.spec_action() is None && seen.result() == Ok::<
                T,
                ProcessGroupDescriptorScanError,
            >(observed)
            &&& ended.spec_action() is None && ended.result() == Err::<
                T,
                ProcessGroupDescriptorScanError,
            >(error)
            &&& moved.spec_action() == Some(RetryAction::ReadClock)
            &&& reopened == moved
            &&& now.nanos >= deadline.nanos ==> clocked.spec_action() is None && clocked.result()
                == Err::<T, ProcessGroupDescriptorScanError>(
                ProcessGroupDescriptorScanError::Deadline,
            )
            &&& now.nanos < deadline.nanos ==> {
                &&& clocked.spec_action() matches Some(RetryAction::Sleep { nanos }) && 0 < nanos
                    <= 10_000_000 && now.nanos + nanos <= deadline.nanos
                &&& again.phase == (RetryPhase::<T>::Clock { deadline })
            }
        },
{
}

/// A change of the processes or of the descriptors during a scan is a race; a
/// forbidden descriptor, a failed scan and a deadline never are.
pub proof fn law_races_are_told_apart(cause: u32)
    ensures
        DescriptorObservationAttemptError::of_scan(ProcessGroupDescriptorScanError::ProcessChanged)
            == DescriptorObservationAttemptError::TransientProcessChanged,
        DescriptorObservationAttemptError::of_scan(
            ProcessGroupDescriptorScanError::DescriptorChanged,
        ) == DescriptorObservationAttemptError::TransientDescriptorChanged,
        forall|error: ProcessGroupDescriptorScanError|
            error == ProcessGroupDescriptorScanError::ForbiddenDescriptor || error
                == ProcessGroupDescriptorScanError::ObservationFailed || error
                == ProcessGroupDescriptorScanError::Deadline || error == (
            ProcessGroupDescriptorScanError::Other { cause })
                ==> #[trigger] DescriptorObservationAttemptError::of_scan(error)
                == DescriptorObservationAttemptError::Terminal(error),
{
}

/// One attempt looks at the child, scans its group, and looks at the child
/// again; the scan counts only where both looks found it running. A child that
/// is gone ends the observation as a changed process, for good, and a scan error
/// that is no race ends it without another look.
pub proof fn law_scan_stands_between_two_looks<T>(
    child: ChildState,
    deadline: Moment,
    observed: T,
    error: ProcessGroupDescriptorScanError,
)
    requires
        !child.observed_exit,
        child.disposition is None,
    ensures
        ({
            let live = LiveEvent::Child(ChildEvent::Waited(Ok(None)));
            let blind = LiveEvent::Child(
                ChildEvent::Waited(Err(crate::process::status::SystemError::Other)),
            );
            let gone = LiveAttempt::<T>::Over(
                Err(
                    DescriptorObservationAttemptError::Terminal(
                        ProcessGroupDescriptorScanError::ProcessChanged,
                    ),
                ),
            );
            let a = LiveAttempt::<T>::start(child, deadline);
            let b = a.0.after(a.1, deadline, live);
            let lost = a.0.after(a.1, deadline, blind);
            let c = b.0.after(b.1, deadline, LiveEvent::Scanned(Ok(observed)));
            let d = c.0.after(c.1, deadline, live);
            let gone_after = c.0.after(c.1, deadline, blind);
            let failed = b.0.after(b.1, deadline, LiveEvent::Scanned(Err(error)));
            let settled = failed.0.after(failed.1, deadline, live);
            &&& a.0 matches LiveAttempt::Before(confirm) && confirm.spec_action() == Some(
                ChildAction::WaitExit,
            )
            &&& b == (LiveAttempt::<T>::Scan, child)
            &&& lost.0 == gone
            &&& c.0 matches LiveAttempt::After { confirm, scanned } && confirm.spec_action()
                == Some(ChildAction::WaitExit) && scanned == Ok::<
                T,
                ProcessGroupDescriptorScanError,
            >(observed)
            &&& d == (LiveAttempt::Over(Ok::<T, DescriptorObservationAttemptError>(observed)), child)
            &&& gone_after.0 == gone
            &&& error == ProcessGroupDescriptorScanError::ProcessChanged ==> settled.0
                == LiveAttempt::<T>::Over(
                Err(DescriptorObservationAttemptError::TransientProcessChanged),
            )
            &&& error == ProcessGroupDescriptorScanError::DescriptorChanged ==> settled.0
                == LiveAttempt::<T>::Over(
                Err(DescriptorObservationAttemptError::TransientDescriptorChanged),
            )
            &&& error != ProcessGroupDescriptorScanError::ProcessChanged && error
                != ProcessGroupDescriptorScanError::DescriptorChanged ==> failed.0
                == LiveAttempt::<T>::Over(Err(DescriptorObservationAttemptError::Terminal(error)))
        }),
{
}

} // verus!
