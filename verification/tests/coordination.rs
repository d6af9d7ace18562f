//! The response/task race, error classification, dispatch, and blame.

use trigger_http::coordinator::{
    blame_for, classify_silent_task, decide_race, post_response_report, resolve_invocation,
    ExecError, HostSetupCause, InvocationEvents, LogRoute, RaceDecision, SetupOutcome, TaskOutcome,
};
use trigger_http::dispatch::{select_entrypoint, Entrypoint, HandlerVersion};
use trigger_http::hooks::HookError;
use trigger_http::telemetry::Blame;

fn ready_events(signal: Option<Result<u32, u8>>, task: TaskOutcome) -> InvocationEvents<u32, u8> {
    InvocationEvents {
        setup: SetupOutcome::Ready,
        outbound_http_present: true,
        signal,
        task,
    }
}

#[test]
fn response_wins_even_when_the_guest_later_fails() {
    for task in [TaskOutcome::CompletedOk, TaskOutcome::CompletedErr, TaskOutcome::Panicked] {
        let out = resolve_invocation(ready_events(Some(Ok(204)), task));
        assert!(matches!(out, Ok(204)));
    }
}

#[test]
fn rejected_signal_fails_at_once_whatever_the_task_does() {
    for task in [TaskOutcome::CompletedOk, TaskOutcome::CompletedErr, TaskOutcome::Panicked] {
        let out = resolve_invocation(ready_events(Some(Err(7)), task));
        assert!(matches!(out, Err(ExecError::ResponseRejected)));
    }
}

#[test]
fn silent_guest_always_yields_a_classified_error() {
    let out = resolve_invocation(ready_events(None, TaskOutcome::CompletedOk));
    assert!(matches!(out, Err(ExecError::ResponseNotProduced)));
    let out = resolve_invocation(ready_events(None, TaskOutcome::CompletedErr));
    assert!(matches!(out, Err(ExecError::GuestInvocationError)));
    let out = resolve_invocation(ready_events(None, TaskOutcome::Panicked));
    assert!(matches!(out, Err(ExecError::GuestInvocationPanic)));
}

#[test]
fn setup_failures_abort_before_the_guest_runs() {
    let out = resolve_invocation(InvocationEvents::<u32, u8> {
        setup: SetupOutcome::InstantiationFailed,
        outbound_http_present: true,
        signal: Some(Ok(200)),
        task: TaskOutcome::CompletedOk,
    });
    assert!(matches!(out, Err(ExecError::HostSetup(HostSetupCause::Instantiation))));

    let out = resolve_invocation(InvocationEvents::<u32, u8> {
        setup: SetupOutcome::HookFailed(HookError { message: "memory ceiling exceeded".to_string() }),
        outbound_http_present: true,
        signal: Some(Ok(200)),
        task: TaskOutcome::CompletedOk,
    });
    match out {
        Err(ExecError::HostSetup(HostSetupCause::Hook(e))) => {
            assert_eq!(e.message, "memory ceiling exceeded");
        }
        _ => panic!("hook failure must surface verbatim"),
    }

    let out = resolve_invocation(InvocationEvents::<u32, u8> {
        setup: SetupOutcome::Ready,
        outbound_http_present: false,
        signal: Some(Ok(200)),
        task: TaskOutcome::CompletedOk,
    });
    assert!(matches!(out, Err(ExecError::HostSetup(HostSetupCause::MissingOutboundHttp))));
}

#[test]
fn race_decision_follows_what_the_signal_carried() {
    assert!(matches!(decide_race(Some(Ok::<u8, u8>(7))), RaceDecision::Commit(7)));
    assert!(matches!(decide_race(Some(Err::<u8, u8>(3))), RaceDecision::Reject(3)));
    assert!(matches!(decide_race(None::<Result<u8, u8>>), RaceDecision::AwaitTask));
}

#[test]
fn response_then_failure_over_a_real_channel() {
    let rt = tokio::runtime::Builder::new_multi_thread().build().unwrap();
    let out: Result<hyper::Response<Vec<u8>>, ExecError> = rt.block_on(async {
        let (tx, rx) = tokio::sync::oneshot::channel::<Result<hyper::Response<Vec<u8>>, u8>>();
        let handle = tokio::spawn(async move {
            let resp = hyper::Response::builder().status(204).body(Vec::new()).unwrap();
            tx.send(Ok(resp)).unwrap();
            Err::<(), ()>(())
        });
        let signal = rx.await.ok();
        match decide_race(signal) {
            RaceDecision::Commit(r) => {
                let outcome = match handle.await {
                    Ok(Ok(())) => TaskOutcome::CompletedOk,
                    Ok(Err(())) => TaskOutcome::CompletedErr,
                    Err(_) => TaskOutcome::Panicked,
                };
                assert!(matches!(
                    post_response_report(outcome, false),
                    Some(LogRoute::WarningChannel)
                ));
                Ok(r)
            }
            RaceDecision::Reject(_) => Err(ExecError::ResponseRejected),
            RaceDecision::AwaitTask => Err(classify_silent_task(TaskOutcome::CompletedErr)),
        }
    });
    assert_eq!(out.unwrap().status(), 204);
}

#[test]
fn silent_guest_over_a_real_channel() {
    let rt = tokio::runtime::Builder::new_multi_thread().build().unwrap();
    let out: Result<u16, ExecError> = rt.block_on(async {
        let (tx, rx) = tokio::sync::oneshot::channel::<Result<u16, u8>>();
        let handle = tokio::spawn(async move {
            drop(tx);
            Err::<(), ()>(())
        });
        let signal = rx.await.ok();
        match decide_race(signal) {
            RaceDecision::Commit(r) => Ok(r),
            RaceDecision::Reject(_) => Err(ExecError::ResponseRejected),
            RaceDecision::AwaitTask => {
                let outcome = match handle.await {
                    Ok(Ok(())) => TaskOutcome::CompletedOk,
                    Ok(Err(())) => TaskOutcome::CompletedErr,
                    Err(_) => TaskOutcome::Panicked,
                };
                Err(classify_silent_task(outcome))
            }
        }
    });
    assert!(matches!(out, Err(ExecError::GuestInvocationError)));
}

#[test]
fn post_response_failures_are_only_logged() {
    assert_eq!(post_response_report(TaskOutcome::CompletedOk, true), None);
    assert_eq!(post_response_report(TaskOutcome::CompletedOk, false), None);
    assert_eq!(
        post_response_report(TaskOutcome::CompletedErr, true),
        Some(LogRoute::ErrorLevelLog)
    );
    assert_eq!(
        post_response_report(TaskOutcome::Panicked, false),
        Some(LogRoute::WarningChannel)
    );
}

#[test]
fn each_version_loads_only_its_own_entrypoint() {
    assert_eq!(
        select_entrypoint(&HandlerVersion::Latest),
        Entrypoint::IncomingHandlerLatest
    );
    assert_eq!(
        select_entrypoint(&HandlerVersion::V2023_11_10),
        Entrypoint::IncomingHandler2023_11_10
    );
    assert_eq!(
        select_entrypoint(&HandlerVersion::V2023_10_18),
        Entrypoint::IncomingHandler2023_10_18
    );
}

#[test]
fn error_code_over_a_real_channel_fails_before_the_task_ends() {
    let rt = tokio::runtime::Builder::new_multi_thread().build().unwrap();
    let out: Result<u16, ExecError> = rt.block_on(async {
        let (tx, rx) = tokio::sync::oneshot::channel::<Result<u16, u8>>();
        let (still_running_tx, still_running_rx) = tokio::sync::oneshot::channel::<()>();
        let handle = tokio::spawn(async move {
            tx.send(Err(42)).unwrap();
            still_running_rx.await.unwrap();
            Ok::<(), ()>(())
        });
        let signal = rx.await.ok();
        let out = match decide_race(signal) {
            RaceDecision::Commit(r) => Ok(r),
            RaceDecision::Reject(code) => {
                assert_eq!(code, 42);
                Err(ExecError::ResponseRejected)
            }
            RaceDecision::AwaitTask => Err(classify_silent_task(TaskOutcome::CompletedErr)),
        };
        // The invocation already failed; only now may the task finish.
        still_running_tx.send(()).unwrap();
        handle.await.unwrap().unwrap();
        out
    });
    assert!(matches!(out, Err(ExecError::ResponseRejected)));
}

#[test]
fn blame_follows_the_error_kind() {
    assert_eq!(blame_for(&ExecError::GuestInvocationError), Blame::Guest);
    assert_eq!(blame_for(&ExecError::ResponseNotProduced), Blame::Guest);
    assert_eq!(blame_for(&ExecError::ResponseRejected), Blame::Guest);
    assert_eq!(blame_for(&ExecError::GuestInvocationPanic), Blame::Host);
    assert_eq!(
        blame_for(&ExecError::HostSetup(HostSetupCause::MissingOutboundHttp)),
        Blame::Host
    );
    assert_eq!(blame_for(&ExecError::HeaderPrep), Blame::Host);
}

#[test]
fn blame_renders_to_its_attribute_value() {
    assert_eq!(Blame::Guest.as_str(), "guest");
    assert_eq!(Blame::Host.as_str(), "host");
}

#[test]
fn errors_render_their_messages() {
    assert_eq!(
        ExecError::ResponseNotProduced.message(),
        "guest failed to produce a response prior to returning"
    );
    assert_eq!(ExecError::GuestInvocationPanic.message(), "guest invocation panicked");
    assert_eq!(ExecError::ResponseRejected.message(), "guest failed to produce a response");
    assert_eq!(
        ExecError::HostSetup(HostSetupCause::MissingOutboundHttp).message(),
        "missing OutboundHttpFactor"
    );
    assert_eq!(
        ExecError::HostSetup(HostSetupCause::Hook(HookError { message: "no".to_string() }))
            .message(),
        "no"
    );
}
