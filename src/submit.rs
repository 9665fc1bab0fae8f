//! Submission of the two recorded buffers and the wait for their
//! completion, as a sequence of decisions: the driver performs each action
//! and reports how it went, and the run decides what comes next. Semaphore
//! and fence made for a run are destroyed before it finishes, whether it
//! succeeded or not.

use vstd::prelude::*;
use crate::errors::{DeviceError, RESULT_UNKNOWN};
use crate::sync::PipelineStage;

verus! {

/// Where a run stands.
#[derive(Clone, Copy, Debug, PartialEq, Eq, Structural)]
pub enum SubmitPhase {
    CreatingSemaphore,
    CreatingFence,
    SubmittingClear,
    SubmittingCopy,
    Waiting,
    /// Destroying what the run created, then finishing.
    CleaningUp,
    Finished,
}

/// What the driver is to do next.
#[derive(Clone, Copy, Debug, PartialEq, Eq, Structural)]
pub enum SubmitAction {
    CreateSemaphore,
    CreateFence,
    /// Submit the clear on the compute queue; it signals the semaphore.
    SubmitClear { signal_semaphore: u64 },
    /// Submit the copy on the transfer queue; it waits for the semaphore at
    /// `wait_stage` and signals the fence.
    SubmitCopy { wait_semaphore: u64, wait_stage: PipelineStage, fence: u64 },
    /// Wait for the fence, without timeout.
    WaitForFence { fence: u64 },
    DestroySemaphore { semaphore: u64 },
    DestroyFence { fence: u64 },
    /// The run is over: completed when `error` is `None`.
    Finish { error: Option<DeviceError> },
}

/// The state of one submit-and-wait run.
#[derive(Clone, Copy, Debug, PartialEq, Eq, Structural)]
pub struct SubmitRun {
    pub phase: SubmitPhase,
    /// The semaphore that the run created and has not destroyed yet.
    pub semaphore: Option<u64>,
    /// The fence that the run created and has not destroyed yet.
    pub fence: Option<u64>,
    /// The first error of the run, if any.
    pub error: Option<DeviceError>,
    /// The fence was seen signaled.
    pub completed: bool,
}

/// How the last action went: a created handle (or any value for actions
/// that create nothing), or the raw error code.
pub type StepResult = Result<u64, i32>;

/// The first cleanup step: destroy what is live, semaphore first, then
/// finish.
pub open spec fn cleanup_spec(run: SubmitRun) -> (SubmitRun, SubmitAction) {
    match (run.semaphore, run.fence) {
        (Some(s), _) => (
            SubmitRun { phase: SubmitPhase::CleaningUp, semaphore: None, ..run },
            SubmitAction::DestroySemaphore { semaphore: s },
        ),
        (None, Some(f)) => (
            SubmitRun { phase: SubmitPhase::CleaningUp, fence: None, ..run },
            SubmitAction::DestroyFence { fence: f },
        ),
        (None, None) => (
            SubmitRun { phase: SubmitPhase::Finished, ..run },
            SubmitAction::Finish { error: run.error },
        ),
    }
}

/// A failure: keep the error, then clean up.
pub open spec fn fail_spec(run: SubmitRun, code: i32) -> (SubmitRun, SubmitAction) {
    cleanup_spec(SubmitRun { error: Some(DeviceError::from_code_spec(code)), ..run })
}

/// The next state and action after the last action went as `event` says.
pub open spec fn step_spec(run: SubmitRun, event: StepResult) -> (SubmitRun, SubmitAction) {
    match run.phase {
        SubmitPhase::CreatingSemaphore => match event {
            Ok(s) => (
                SubmitRun { phase: SubmitPhase::CreatingFence, semaphore: Some(s), ..run },
                SubmitAction::CreateFence,
            ),
            Err(code) => fail_spec(run, code),
        },
        SubmitPhase::CreatingFence => match (event, run.semaphore) {
            (Ok(f), Some(s)) => (
                SubmitRun { phase: SubmitPhase::SubmittingClear, fence: Some(f), ..run },
                SubmitAction::SubmitClear { signal_semaphore: s },
            ),
            (Ok(f), None) => fail_spec(SubmitRun { fence: Some(f), ..run }, RESULT_UNKNOWN),
            (Err(code), _) => fail_spec(run, code),
        },
        SubmitPhase::SubmittingClear => match (event, run.semaphore, run.fence) {
            (Ok(_), Some(s), Some(f)) => (
                SubmitRun { phase: SubmitPhase::SubmittingCopy, ..run },
                SubmitAction::SubmitCopy {
                    wait_semaphore: s,
                    wait_stage: PipelineStage::Transfer,
                    fence: f,
                },
            ),
            (Err(code), _, _) => fail_spec(run, code),
            _ => fail_spec(run, RESULT_UNKNOWN),
        },
        SubmitPhase::SubmittingCopy => match (event, run.fence) {
            (Ok(_), Some(f)) => (
                SubmitRun { phase: SubmitPhase::Waiting, ..run },
                SubmitAction::WaitForFence { fence: f },
            ),
            (Err(code), _) => fail_spec(run, code),
            _ => fail_spec(run, RESULT_UNKNOWN),
        },
        SubmitPhase::Waiting => match event {
            Ok(_) => cleanup_spec(SubmitRun { completed: true, ..run }),
            Err(code) => fail_spec(run, code),
        },
        SubmitPhase::CleaningUp => cleanup_spec(run),
        SubmitPhase::Finished => (run, SubmitAction::Finish { error: run.error }),
    }
}

impl SubmitRun {
    /// A run that has created nothing yet, and its first action.
    pub fn start() -> (r: (SubmitRun, SubmitAction))
        ensures
            r.0 == (SubmitRun {
                phase: SubmitPhase::CreatingSemaphore,
                semaphore: None,
                fence: None,
                error: None,
                completed: false,
            }),
            r.1 == SubmitAction::CreateSemaphore,
    {
        (
            SubmitRun {
                phase: SubmitPhase::CreatingSemaphore,
                semaphore: None,
                fence: None,
                error: None,
                completed: false,
            },
            SubmitAction::CreateSemaphore,
        )
    }

    fn cleanup(&mut self) -> (r: SubmitAction)
        ensures
            (*final(self), r) == cleanup_spec(*old(self)),
    {
        if let Some(s) = self.semaphore {
            self.phase = SubmitPhase::CleaningUp;
            self.semaphore = None;
            return SubmitAction::DestroySemaphore { semaphore: s };
        }
        if let Some(f) = self.fence {
            self.phase = SubmitPhase::CleaningUp;
            self.fence = None;
            return SubmitAction::DestroyFence { fence: f };
        }
        self.phase = SubmitPhase::Finished;
        SubmitAction::Finish { error: self.error }
    }

    fn fail(&mut self, code: i32) -> (r: SubmitAction)
        ensures
            (*final(self), r) == fail_spec(*old(self), code),
    {
        self.error = Some(DeviceError::from_result_code(code));
        self.cleanup()
    }

    /// Takes how the last action went and returns the next action.
    pub fn advance(&mut self, event: StepResult) -> (r: SubmitAction)
        ensures
            (*final(self), r) == step_spec(*old(self), event),
    {
        match self.phase {
            SubmitPhase::CreatingSemaphore => match event {
                Ok(s) => {
                    self.phase = SubmitPhase::CreatingFence;
                    self.semaphore = Some(s);
                    SubmitAction::CreateFence
                },
                Err(code) => self.fail(code),
            },
            SubmitPhase::CreatingFence => match (event, self.semaphore) {
                (Ok(f), Some(s)) => {
                    self.phase = SubmitPhase::SubmittingClear;
                    self.fence = Some(f);
                    SubmitAction::SubmitClear { signal_semaphore: s }
                },
                (Ok(f), None) => {
                    self.fence = Some(f);
                    self.fail(RESULT_UNKNOWN)
                },
                (Err(code), _) => self.fail(code),
            },
            SubmitPhase::SubmittingClear => match (event, self.semaphore, self.fence) {
                (Ok(_), Some(s), Some(f)) => {
                    self.phase = SubmitPhase::SubmittingCopy;
                    SubmitAction::SubmitCopy {
                        wait_semaphore: s,
                        wait_stage: PipelineStage::Transfer,
                        fence: f,
                    }
                },
                (Err(code), _, _) => self.fail(code),
                _ => self.fail(RESULT_UNKNOWN),
            },
            SubmitPhase::SubmittingCopy => match (event, self.fence) {
                (Ok(_), Some(f)) => {
                    self.phase = SubmitPhase::Waiting;
                    SubmitAction::WaitForFence { fence: f }
                },
                (Err(code), _) => self.fail(code),
                _ => self.fail(RESULT_UNKNOWN),
            },
            SubmitPhase::Waiting => match event {
                Ok(_) => {
                    self.completed = true;
                    self.cleanup()
                },
                Err(code) => self.fail(code),
            },
            SubmitPhase::CleaningUp => self.cleanup(),
            SubmitPhase::Finished => SubmitAction::Finish { error: self.error },
        }
    }
}

/// The states that a run can reach from `start`.
pub open spec fn run_inv(run: SubmitRun) -> bool {
    match run.phase {
        SubmitPhase::CreatingSemaphore => run.semaphore is None && run.fence is None
            && run.error is None && !run.completed,
        SubmitPhase::CreatingFence => run.semaphore is Some && run.fence is None && run.error is None
            && !run.completed,
        SubmitPhase::SubmittingClear | SubmitPhase::SubmittingCopy | SubmitPhase::Waiting => {
            run.semaphore is Some && run.fence is Some && run.error is None && !run.completed
        },
        SubmitPhase::CleaningUp => run.semaphore is None && (run.error is None ==> run.completed),
        SubmitPhase::Finished => run.semaphore is None && run.fence is None && (run.error is None
            ==> run.completed),
    }
}

/// Every step keeps a run among the reachable states.
pub proof fn lemma_step_keeps_inv(run: SubmitRun, event: StepResult)
    requires
        run_inv(run),
    ensures
        run_inv(step_spec(run, event).0),
{
}

/// A run finishes only once it holds no semaphore and no fence: whatever
/// failed on the way, what the run created has been destroyed.
pub proof fn lemma_finish_releases_all(run: SubmitRun, event: StepResult)
    requires
        run_inv(run),
        step_spec(run, event).1 matches SubmitAction::Finish { .. },
    ensures
        step_spec(run, event).0.semaphore is None,
        step_spec(run, event).0.fence is None,
{
}

/// A run reports success only after its fence was seen signaled, and a
/// failed action is never reported as success.
pub proof fn lemma_success_needs_completion(run: SubmitRun, event: StepResult)
    requires
        run_inv(run),
    ensures
        step_spec(run, event).1 == (SubmitAction::Finish { error: None }) ==> step_spec(
            run,
            event,
        ).0.completed,
        event is Err && run.phase != SubmitPhase::CleaningUp && run.phase
            != SubmitPhase::Finished ==> step_spec(run, event).0.error is Some,
{
}

/// The copy is submitted only right after the clear that signals the
/// semaphore it waits on was queued, and it waits at the transfer stage.
pub proof fn lemma_wait_follows_signal(run: SubmitRun, event: StepResult)
    requires
        run_inv(run),
    ensures
        step_spec(run, event).1 matches SubmitAction::SubmitCopy { wait_semaphore, wait_stage, .. }
            ==> run.phase == SubmitPhase::SubmittingClear && event is Ok && run.semaphore == Some(
            wait_semaphore,
        ) && wait_stage == PipelineStage::Transfer,
        step_spec(run, event).1 matches SubmitAction::SubmitClear { signal_semaphore }
            ==> step_spec(run, event).0.semaphore == Some(signal_semaphore),
{
}

} // verus!
