use bss::lifecycle::{ArtifactState, Directive, LifecycleManager, RunPhase, Signal, StopReason};

fn running(leaves_artifact: bool) -> LifecycleManager {
    let mut manager = LifecycleManager::new();
    assert_eq!(manager.on_signal(Signal::Bound { leaves_artifact }), Directive::Serve);
    manager
}

fn directives(manager: &mut LifecycleManager, signals: &[Signal]) -> Vec<Directive> {
    signals.iter().map(|signal| manager.on_signal(*signal)).collect()
}

#[test]
fn a_new_manager_is_to_bind() {
    let manager = LifecycleManager::new();
    assert_eq!(manager.phase(), RunPhase::Starting);
    assert_eq!(manager.directive(), Directive::Bind);
    assert_eq!(manager.artifact(), ArtifactState::Absent);
    assert_eq!(manager.handlers(), 0);
    assert!(!manager.accepting());
}

#[test]
fn binding_a_local_socket_leaves_an_artifact() {
    let manager = running(true);
    assert_eq!(manager.phase(), RunPhase::Running);
    assert_eq!(manager.artifact(), ArtifactState::Present);
    assert!(manager.accepting());
    let manager = running(false);
    assert_eq!(manager.artifact(), ArtifactState::Absent);
    assert!(manager.accepting());
}

#[test]
fn a_graceful_shutdown_runs_in_order() {
    let mut manager = running(true);
    let seen = directives(
        &mut manager,
        &[
            Signal::Accepted,
            Signal::Accepted,
            Signal::HandlerFinished,
            Signal::AllReceived,
            Signal::ListenerClosed,
            Signal::HandlerFinished,
            Signal::ArtifactRemoved,
        ],
    );
    assert_eq!(
        seen,
        vec![
            Directive::Serve,
            Directive::Serve,
            Directive::Serve,
            Directive::CloseListener,
            Directive::AwaitHandlers,
            Directive::RemoveArtifact,
            Directive::Exit { code: 0 },
        ]
    );
    assert_eq!(manager.artifact(), ArtifactState::Removed);
    assert_eq!(manager.phase(), RunPhase::Stopping { reason: StopReason::Completed });
}

#[test]
fn a_transport_without_artifact_exits_without_removal() {
    let mut manager = running(false);
    let seen = directives(&mut manager, &[Signal::AllReceived, Signal::ListenerClosed]);
    assert_eq!(seen, vec![Directive::CloseListener, Directive::Exit { code: 0 }]);
    assert_eq!(manager.artifact(), ArtifactState::Absent);
}

#[test]
fn the_artifact_is_not_removed_while_the_listener_is_open() {
    let mut manager = running(true);
    assert_eq!(manager.on_signal(Signal::AllReceived), Directive::CloseListener);
    assert_eq!(manager.on_signal(Signal::ArtifactRemoved), Directive::CloseListener);
    assert_eq!(manager.artifact(), ArtifactState::Present);
    assert_eq!(manager.on_signal(Signal::ListenerClosed), Directive::RemoveArtifact);
    assert_eq!(manager.on_signal(Signal::ArtifactRemoved), Directive::Exit { code: 0 });
}

#[test]
fn the_artifact_is_removed_once() {
    let mut manager = running(true);
    directives(&mut manager, &[Signal::AllReceived, Signal::ListenerClosed, Signal::ArtifactRemoved]);
    for signal in [
        Signal::ArtifactRemoved,
        Signal::RemovalFailed,
        Signal::Bound { leaves_artifact: true },
        Signal::ListenerClosed,
        Signal::Terminate,
    ] {
        let directive = manager.on_signal(signal);
        assert_ne!(directive, Directive::RemoveArtifact);
        assert_eq!(manager.artifact(), ArtifactState::Removed);
    }
}

#[test]
fn the_grace_period_ends_in_cancellation() {
    let mut manager = running(true);
    let seen = directives(
        &mut manager,
        &[
            Signal::Accepted,
            Signal::Accepted,
            Signal::AllReceived,
            Signal::ListenerClosed,
            Signal::GraceExpired,
            Signal::HandlerFinished,
            Signal::HandlerFinished,
            Signal::ArtifactRemoved,
        ],
    );
    assert_eq!(
        seen,
        vec![
            Directive::Serve,
            Directive::Serve,
            Directive::CloseListener,
            Directive::AwaitHandlers,
            Directive::CancelHandlers,
            Directive::CancelHandlers,
            Directive::RemoveArtifact,
            Directive::Exit { code: 0 },
        ]
    );
}

#[test]
fn a_fatal_error_cancels_and_cleans_up() {
    let mut manager = running(true);
    let seen = directives(
        &mut manager,
        &[
            Signal::Accepted,
            Signal::Fatal,
            Signal::ListenerClosed,
            Signal::HandlerFinished,
            Signal::ArtifactRemoved,
        ],
    );
    assert_eq!(
        seen,
        vec![
            Directive::Serve,
            Directive::CloseListener,
            Directive::CancelHandlers,
            Directive::RemoveArtifact,
            Directive::Exit { code: 1 },
        ]
    );
    assert_eq!(manager.artifact(), ArtifactState::Removed);
}

#[test]
fn a_request_to_terminate_cancels_and_cleans_up() {
    let mut manager = running(true);
    let seen = directives(
        &mut manager,
        &[
            Signal::Accepted,
            Signal::Terminate,
            Signal::ListenerClosed,
            Signal::HandlerFinished,
            Signal::ArtifactRemoved,
        ],
    );
    assert_eq!(
        seen,
        vec![
            Directive::Serve,
            Directive::CloseListener,
            Directive::CancelHandlers,
            Directive::RemoveArtifact,
            Directive::Exit { code: 1 },
        ]
    );
    assert_eq!(manager.phase(), RunPhase::Stopping { reason: StopReason::Terminated });
    assert_eq!(manager.artifact(), ArtifactState::Removed);
}

#[test]
fn a_failed_bind_exits_with_failure() {
    let mut manager = LifecycleManager::new();
    assert_eq!(manager.on_signal(Signal::BindFailed), Directive::Exit { code: 1 });
    assert_eq!(manager.artifact(), ArtifactState::Absent);
    assert_eq!(manager.phase(), RunPhase::Stopping { reason: StopReason::Fatal });
    assert_eq!(manager.on_signal(Signal::Bound { leaves_artifact: true }), Directive::Exit { code: 1 });
    assert_eq!(manager.artifact(), ArtifactState::Absent);
}

#[test]
fn terminating_before_binding_exits() {
    let mut manager = LifecycleManager::new();
    assert_eq!(manager.on_signal(Signal::Terminate), Directive::Exit { code: 1 });
    assert_eq!(manager.artifact(), ArtifactState::Absent);
}

#[test]
fn a_failed_removal_exits_with_failure() {
    let mut manager = running(true);
    let seen = directives(
        &mut manager,
        &[Signal::AllReceived, Signal::ListenerClosed, Signal::RemovalFailed],
    );
    assert_eq!(
        seen,
        vec![Directive::CloseListener, Directive::RemoveArtifact, Directive::Exit { code: 1 }]
    );
    assert_eq!(manager.artifact(), ArtifactState::Stuck);
}

#[test]
fn a_failure_during_shutdown_is_not_forgotten() {
    let mut manager = running(false);
    manager.on_signal(Signal::AllReceived);
    manager.on_signal(Signal::Fatal);
    assert_eq!(manager.phase(), RunPhase::Stopping { reason: StopReason::Fatal });
    manager.on_signal(Signal::Terminate);
    assert_eq!(manager.phase(), RunPhase::Stopping { reason: StopReason::Fatal });
    manager.on_signal(Signal::AllReceived);
    assert_eq!(manager.on_signal(Signal::ListenerClosed), Directive::Exit { code: 1 });
}

#[test]
fn no_connection_is_served_while_stopping() {
    let mut manager = running(true);
    manager.on_signal(Signal::Accepted);
    manager.on_signal(Signal::AllReceived);
    assert!(!manager.accepting());
    assert_eq!(manager.on_signal(Signal::Accepted), Directive::CloseListener);
    assert_eq!(manager.handlers(), 1);
}

#[test]
fn handlers_are_counted() {
    let mut manager = running(false);
    assert_eq!(manager.on_signal(Signal::HandlerFinished), Directive::Serve);
    assert_eq!(manager.handlers(), 0);
    for expected in 1..=3 {
        manager.on_signal(Signal::Accepted);
        assert_eq!(manager.handlers(), expected);
    }
    manager.on_signal(Signal::HandlerFinished);
    assert_eq!(manager.handlers(), 2);
}

#[test]
fn a_failing_handler_leaves_the_listener_serving() {
    let mut manager = running(true);
    manager.on_signal(Signal::Accepted);
    assert_eq!(manager.on_signal(Signal::HandlerFinished), Directive::Serve);
    assert!(manager.accepting());
    assert_eq!(manager.on_signal(Signal::Accepted), Directive::Serve);
    assert_eq!(manager.artifact(), ArtifactState::Present);
}

#[test]
fn signals_that_mean_nothing_change_nothing() {
    let mut manager = LifecycleManager::new();
    for signal in [
        Signal::Accepted,
        Signal::HandlerFinished,
        Signal::AllReceived,
        Signal::GraceExpired,
        Signal::ListenerClosed,
        Signal::ArtifactRemoved,
        Signal::RemovalFailed,
    ] {
        assert_eq!(manager.on_signal(signal), Directive::Bind);
        assert_eq!(manager.phase(), RunPhase::Starting);
    }
    let mut manager = running(true);
    for signal in [
        Signal::Bound { leaves_artifact: false },
        Signal::BindFailed,
        Signal::GraceExpired,
        Signal::ListenerClosed,
        Signal::ArtifactRemoved,
        Signal::RemovalFailed,
    ] {
        assert_eq!(manager.on_signal(signal), Directive::Serve);
        assert_eq!(manager.artifact(), ArtifactState::Present);
    }
}
