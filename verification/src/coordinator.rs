//! Reconciliation of one guest invocation's two independently-completing
//! signals — "a response is ready" and "the guest's call has finished" —
//! into a single outcome.
//!
//! An invocation moves through instantiation (with the hook chain), header
//! preparation, dispatch, and then the race between the one-shot response
//! signal and the invocation task. Once a response is committed, later
//! guest failures are only ever logged; before one, any failure is
//! classified and returned. Nothing is retried here.

use vstd::prelude::*;
use vstd::string::StringExecFns;
use crate::hooks::HookError;
use crate::telemetry::Blame;

verus! {

/// The fixed read timeout, in seconds, that the request body stream is
/// wrapped with before it is exposed to the guest.
pub const BODY_READ_TIMEOUT_SECS: u64 = 600;

/// How preparing the guest instance ended.
pub enum SetupOutcome {
    /// The instance exists and every hook ran.
    Ready,
    /// The execution engine could not instantiate the component.
    InstantiationFailed,
    /// A lifecycle hook aborted the instantiation; its error is kept verbatim.
    HookFailed(HookError),
}

/// The terminal state of the spawned invocation task. It reaches exactly
/// one of these, exactly once; the guest error itself is opaque here
/// beyond having occurred.
#[derive(Clone, Copy, Debug, PartialEq, Eq, Structural)]
pub enum TaskOutcome {
    /// The handler returned without error.
    CompletedOk,
    /// The handler returned an explicit guest error.
    CompletedErr,
    /// The task aborted abnormally.
    Panicked,
}

/// Host-attributable reasons an invocation never reached the race point.
#[derive(Debug)]
pub enum HostSetupCause {
    /// Instantiation itself failed.
    Instantiation,
    /// A lifecycle hook refused the instantiation.
    Hook(HookError),
    /// The outbound-HTTP capability was missing from the instance state:
    /// a misconfiguration, not a guest fault.
    MissingOutboundHttp,
}

/// The classified error of a failed invocation.
#[derive(Debug)]
pub enum ExecError {
    /// Header derivation or rewrite failed outright. Kept for the record:
    /// invalid derived headers are dropped rather than failed, so nothing
    /// produces it today.
    HeaderPrep,
    /// Setting the invocation up failed before the guest ran.
    HostSetup(HostSetupCause),
    /// The guest explicitly returned an error before any response.
    GuestInvocationError,
    /// The invocation task aborted abnormally; by convention an
    /// engine/host-boundary defect rather than guest logic.
    GuestInvocationPanic,
    /// The guest's task completed without ever firing the response signal.
    ResponseNotProduced,
    /// The guest resolved the response outparam with an error code instead
    /// of a response; the code itself travels beside this classification.
    ResponseRejected,
}

/// The error returned when the signal closed with no response and the task
/// then reached the given terminal state.
pub open spec fn spec_classify_silent_task(t: TaskOutcome) -> ExecError {
    match t {
        TaskOutcome::CompletedOk => ExecError::ResponseNotProduced,
        TaskOutcome::CompletedErr => ExecError::GuestInvocationError,
        TaskOutcome::Panicked => ExecError::GuestInvocationPanic,
    }
}

/// Classifies the task's terminal state when the guest never produced a
/// response: even a task that completed cleanly is an error then.
pub fn classify_silent_task(t: TaskOutcome) -> (e: ExecError)
    ensures
        e == spec_classify_silent_task(t),
{
    match t {
        TaskOutcome::CompletedOk => ExecError::ResponseNotProduced,
        TaskOutcome::CompletedErr => ExecError::GuestInvocationError,
        TaskOutcome::Panicked => ExecError::GuestInvocationPanic,
    }
}

/// What the coordinator does once the response signal resolves. The
/// signal carries what the guest resolved the outparam with: a response,
/// or an error code.
pub enum RaceDecision<R, C> {
    /// A response arrived: commit it to the caller now and only observe
    /// the still-running task for logging.
    Commit(R),
    /// The guest resolved the outparam with an error code: fail the
    /// invocation now with that code, and only observe the still-running
    /// task for logging.
    Reject(C),
    /// The signal closed with no response: await the task and classify its
    /// terminal state.
    AwaitTask,
}

pub open spec fn spec_race_decision<R, C>(signal: Option<Result<R, C>>) -> RaceDecision<R, C> {
    match signal {
        Some(Ok(r)) => RaceDecision::Commit(r),
        Some(Err(c)) => RaceDecision::Reject(c),
        None => RaceDecision::AwaitTask,
    }
}

/// Decides the race between the one-shot response signal and the
/// invocation task. A signal that ever fired wins — a response is returned
/// and an error code is surfaced at once, the guest's continued execution
/// changing neither; only a signal that closed silently defers to the
/// task's terminal state.
pub fn decide_race<R, C>(signal: Option<Result<R, C>>) -> (d: RaceDecision<R, C>)
    ensures
        d == spec_race_decision(signal),
{
    match signal {
        Some(Ok(r)) => RaceDecision::Commit(r),
        Some(Err(c)) => RaceDecision::Reject(c),
        None => RaceDecision::AwaitTask,
    }
}

/// Where a guest failure that arrives after the response was committed is
/// reported. Never to the caller.
#[derive(Clone, Copy, Debug, PartialEq, Eq, Structural)]
pub enum LogRoute {
    /// The process's error stream is interactive: an error-level log entry.
    ErrorLevelLog,
    /// The error stream is not interactive: the warning channel.
    WarningChannel,
}

pub open spec fn spec_post_response_report(t: TaskOutcome, stderr_interactive: bool) -> Option<
    LogRoute,
> {
    match t {
        TaskOutcome::CompletedOk => None,
        _ => Some(
            if stderr_interactive {
                LogRoute::ErrorLevelLog
            } else {
                LogRoute::WarningChannel
            },
        ),
    }
}

/// After a committed response, decides whether and where the detached
/// monitor logs the task's terminal state. A clean completion reports
/// nothing; a failure is routed by whether the error stream is
/// interactive, and is never surfaced to the caller.
pub fn post_response_report(t: TaskOutcome, stderr_interactive: bool) -> (r: Option<LogRoute>)
    ensures
        r == spec_post_response_report(t, stderr_interactive),
{
    match t {
        TaskOutcome::CompletedOk => None,
        _ => {
            if stderr_interactive {
                Some(LogRoute::ErrorLevelLog)
            } else {
                Some(LogRoute::WarningChannel)
            }
        },
    }
}

/// Everything decided outside this core during one invocation: how setup
/// ended, whether the instance state held the outbound-HTTP capability,
/// what the response signal carried — a response, an error code, or
/// nothing before closing — and how the task ended.
pub struct InvocationEvents<R, C> {
    pub setup: SetupOutcome,
    pub outbound_http_present: bool,
    pub signal: Option<Result<R, C>>,
    pub task: TaskOutcome,
}

/// The single outcome an invocation resolves to, as a function of what the
/// environment decided.
pub open spec fn spec_resolve<R, C>(ev: InvocationEvents<R, C>) -> Result<R, ExecError> {
    match ev.setup {
        SetupOutcome::InstantiationFailed => Err(
            ExecError::HostSetup(HostSetupCause::Instantiation),
        ),
        SetupOutcome::HookFailed(e) => Err(ExecError::HostSetup(HostSetupCause::Hook(e))),
        SetupOutcome::Ready => if !ev.outbound_http_present {
            Err(ExecError::HostSetup(HostSetupCause::MissingOutboundHttp))
        } else {
            match ev.signal {
                Some(Ok(r)) => Ok(r),
                Some(Err(_)) => Err(ExecError::ResponseRejected),
                None => Err(spec_classify_silent_task(ev.task)),
            }
        },
    }
}

/// Resolves one invocation end to end: a setup failure aborts with a
/// host-attributable error; otherwise a response that was ever signalled
/// is returned as-is, an error code the guest signalled fails at once,
/// and a signal that closed silently turns the task's terminal state into
/// the one error the caller sees.
pub fn resolve_invocation<R, C>(ev: InvocationEvents<R, C>) -> (out: Result<R, ExecError>)
    ensures
        out == spec_resolve(ev),
{
    match ev.setup {
        SetupOutcome::InstantiationFailed => Err(
            ExecError::HostSetup(HostSetupCause::Instantiation),
        ),
        SetupOutcome::HookFailed(e) => Err(ExecError::HostSetup(HostSetupCause::Hook(e))),
        SetupOutcome::Ready => {
            if !ev.outbound_http_present {
                Err(ExecError::HostSetup(HostSetupCause::MissingOutboundHttp))
            } else {
                match decide_race(ev.signal) {
                    RaceDecision::Commit(r) => Ok(r),
                    RaceDecision::Reject(_) => Err(ExecError::ResponseRejected),
                    RaceDecision::AwaitTask => Err(classify_silent_task(ev.task)),
                }
            }
        },
    }
}

impl ExecError {
    /// The message this error renders to; a hook's own message is kept
    /// verbatim.
    pub open spec fn spec_message(self) -> Seq<char> {
        match self {
            ExecError::HeaderPrep => "failed to prepare request headers"@,
            ExecError::HostSetup(HostSetupCause::Instantiation) => "failed to instantiate component"@,
            ExecError::HostSetup(HostSetupCause::Hook(e)) => e.message@,
            ExecError::HostSetup(HostSetupCause::MissingOutboundHttp) => "missing OutboundHttpFactor"@,
            ExecError::GuestInvocationError => "guest invocation failed"@,
            ExecError::ResponseRejected => "guest failed to produce a response"@,
            ExecError::GuestInvocationPanic => "guest invocation panicked"@,
            ExecError::ResponseNotProduced => "guest failed to produce a response prior to returning"@,
        }
    }

    /// Renders the error for logs and trace spans.
    pub fn message(&self) -> (m: String)
        ensures
            m@ == self.spec_message(),
    {
        match self {
            ExecError::HeaderPrep => String::from_str("failed to prepare request headers"),
            ExecError::HostSetup(HostSetupCause::Instantiation) => String::from_str(
                "failed to instantiate component",
            ),
            ExecError::HostSetup(HostSetupCause::Hook(e)) => e.message.clone(),
            ExecError::HostSetup(HostSetupCause::MissingOutboundHttp) => String::from_str(
                "missing OutboundHttpFactor",
            ),
            ExecError::GuestInvocationError => String::from_str("guest invocation failed"),
            ExecError::ResponseRejected => String::from_str("guest failed to produce a response"),
            ExecError::GuestInvocationPanic => String::from_str("guest invocation panicked"),
            ExecError::ResponseNotProduced => String::from_str(
                "guest failed to produce a response prior to returning",
            ),
        }
    }
}

/// Which side most likely caused an invocation error, as recorded on the
/// trace span: explicit guest errors and a guest that never responded are
/// the guest's; setup failures, header failures and abnormal task aborts
/// are the host's.
pub open spec fn spec_blame_for(e: ExecError) -> Blame {
    match e {
        ExecError::GuestInvocationError => Blame::Guest,
        ExecError::ResponseNotProduced => Blame::Guest,
        ExecError::ResponseRejected => Blame::Guest,
        _ => Blame::Host,
    }
}

pub fn blame_for(e: &ExecError) -> (b: Blame)
    ensures
        b == spec_blame_for(*e),
{
    match e {
        ExecError::GuestInvocationError => Blame::Guest,
        ExecError::ResponseNotProduced => Blame::Guest,
        ExecError::ResponseRejected => Blame::Guest,
        _ => Blame::Host,
    }
}

/// Law: an invocation resolves to exactly one of a response or an error —
/// never both, never neither.
pub proof fn lemma_exactly_one_outcome<R, C>(ev: InvocationEvents<R, C>)
    ensures
        (spec_resolve(ev) matches Ok(_)) <==> !(spec_resolve(ev) matches Err(_)),
{
}

/// Law: once the guest has signalled a response, that response is what the
/// caller gets, whatever the task does afterwards — a later failure cannot
/// retract it.
pub proof fn lemma_response_first_wins<R, C>(r: R, t1: TaskOutcome, t2: TaskOutcome)
    ensures
        spec_resolve(
            (InvocationEvents::<R, C> {
                setup: SetupOutcome::Ready,
                outbound_http_present: true,
                signal: Some(Ok(r)),
                task: t1,
            }),
        ) == Ok::<R, ExecError>(r),
        spec_resolve(
            (InvocationEvents::<R, C> {
                setup: SetupOutcome::Ready,
                outbound_http_present: true,
                signal: Some(Ok(r)),
                task: t1,
            }),
        ) == spec_resolve(
            (InvocationEvents::<R, C> {
                setup: SetupOutcome::Ready,
                outbound_http_present: true,
                signal: Some(Ok(r)),
                task: t2,
            }),
        ),
{
}

/// Law: a signal the guest resolved with an error code fails the
/// invocation at once with that classification, whatever the task does
/// afterwards.
pub proof fn lemma_rejected_signal_yields_error<R, C>(c: C, t1: TaskOutcome, t2: TaskOutcome)
    ensures
        spec_resolve(
            (InvocationEvents::<R, C> {
                setup: SetupOutcome::Ready,
                outbound_http_present: true,
                signal: Some(Err(c)),
                task: t1,
            }),
        ) == Err::<R, ExecError>(ExecError::ResponseRejected),
        spec_resolve(
            (InvocationEvents::<R, C> {
                setup: SetupOutcome::Ready,
                outbound_http_present: true,
                signal: Some(Err(c)),
                task: t1,
            }),
        ) == spec_resolve(
            (InvocationEvents::<R, C> {
                setup: SetupOutcome::Ready,
                outbound_http_present: true,
                signal: Some(Err(c)),
                task: t2,
            }),
        ),
{
}

/// Law: a guest that fails — or even completes — without ever signalling a
/// response yields a classified error, never a response and never an
/// unhandled fault.
pub proof fn lemma_silent_guest_yields_error<R, C>(t: TaskOutcome)
    ensures
        spec_resolve(
            (InvocationEvents::<R, C> {
                setup: SetupOutcome::Ready,
                outbound_http_present: true,
                signal: None,
                task: t,
            }),
        ) == Err::<R, ExecError>(spec_classify_silent_task(t)),
        !(spec_classify_silent_task(t) matches ExecError::HostSetup(_)),
{
}

} // verus!
