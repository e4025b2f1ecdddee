use neolink::session::{cam_transition, should_update_time, CamEvent, CamState};
use neolink::error::{Error, IoKind};
use neolink::session::{
    is_retryable, on_session_end, Backoff, Keepalive, PingAction, SessionEnd, SupervisorAction,
    TaskAction, TaskRun,
};

#[test]
fn backoff_doubles_to_five_seconds() {
    let mut b = Backoff::new();
    let sleeps: Vec<u64> = (0..10).map(|_| b.after_failure(1000)).collect();
    assert_eq!(sleeps, vec![50, 100, 200, 400, 800, 1600, 3200, 5000, 5000, 5000]);
}

#[test]
fn long_session_resets_backoff() {
    let mut b = Backoff::new();
    for _ in 0..6 {
        b.after_failure(10);
    }
    assert_eq!(b.after_failure(60_000), 50);
    assert_eq!(b.after_failure(59_999), 100);
}

#[test]
fn keepalive_tolerates_five_misses() {
    let mut k = Keepalive::new();
    for i in 1..=5 {
        assert_eq!(k.on_ping(None), PingAction::Continue);
        assert_eq!(k.missed, i);
    }
    let action = k.on_ping(None);
    assert_eq!(action, PingAction::LinkDead(Error::TimeoutDisconnected));
    let mut backoff = Backoff::new();
    let e = match action {
        PingAction::LinkDead(e) => e,
        _ => panic!(),
    };
    assert!(is_retryable(&e));
    assert_eq!(on_session_end(&mut backoff, SessionEnd::Failed(e), 30_000), SupervisorAction::RetryAfter(50));
}

#[test]
fn keepalive_reply_and_unsupported() {
    let mut k = Keepalive::new();
    k.on_ping(None);
    k.on_ping(None);
    assert_eq!(k.on_ping(Some(Ok(()))), PingAction::Continue);
    assert_eq!(k.missed, 0);
    let r = k.on_ping(Some(Err(Error::UnintelligibleReply { id: 93, why: "no" })));
    assert_eq!(r, PingAction::StopPinging);
    assert!(!k.enabled);
    let r = k.on_ping(Some(Err(Error::DroppedConnection)));
    assert_eq!(r, PingAction::LinkDead(Error::DroppedConnection));
}

#[test]
fn session_end_decisions() {
    let mut b = Backoff::new();
    assert_eq!(on_session_end(&mut b, SessionEnd::ConfigChanged, 0), SupervisorAction::Reconnect);
    assert_eq!(on_session_end(&mut b, SessionEnd::DisconnectRequested, 0), SupervisorAction::Reconnect);
    assert_eq!(on_session_end(&mut b, SessionEnd::Finished, 0), SupervisorAction::Shutdown);
    assert_eq!(
        on_session_end(&mut b, SessionEnd::Failed(Error::CameraLoginFail), 0),
        SupervisorAction::Fatal(Error::CameraLoginFail)
    );
    assert_eq!(b.delay_ms, 50);
    assert_eq!(
        on_session_end(&mut b, SessionEnd::Failed(Error::Io(IoKind::BrokenPipe)), 0),
        SupervisorAction::RetryAfter(50)
    );
    assert_eq!(
        on_session_end(&mut b, SessionEnd::Failed(Error::MalformedPayload), 0),
        SupervisorAction::RetryAfter(100)
    );
}

#[test]
fn task_retry_policy() {
    let mut run = TaskRun::new();
    assert!(run.begin_iteration(Some(1)));
    let busy = Error::CameraServiceUnavailable { id: 37, code: 400 };
    for _ in 0..4 {
        assert_eq!(run.after_attempt(Some(&busy)), TaskAction::RetrySameSession);
    }
    assert_eq!(run.after_attempt(Some(&busy)), TaskAction::Fail);
    assert_eq!(run.after_attempt(None), TaskAction::Done);
    assert_eq!(run.after_attempt(Some(&Error::DroppedConnection)), TaskAction::AwaitNewSession);
    assert_eq!(run.after_attempt(Some(&Error::TokioBcSendError)), TaskAction::AwaitNewSession);
    assert_eq!(run.after_attempt(Some(&Error::Io(IoKind::ConnectionReset))), TaskAction::AwaitNewSession);
    assert_eq!(run.after_attempt(Some(&Error::Io(IoKind::Other))), TaskAction::Fail);
    assert_eq!(
        run.after_attempt(Some(&Error::CameraServiceUnavailable { id: 37, code: 500 })),
        TaskAction::Fail
    );
}

#[test]
fn task_follows_new_session() {
    let mut run = TaskRun::new();
    assert!(!run.session_changed(None));
    assert!(run.session_changed(Some(1)));
    run.begin_iteration(Some(1));
    assert!(!run.session_changed(Some(1)));
    // reconnect publishes a new session
    assert!(run.session_changed(Some(2)));
    assert!(run.begin_iteration(Some(2)));
    assert_eq!(run.session, Some(2));
    assert_eq!(run.attempts, 0);
    // disconnect
    assert!(run.session_changed(None));
    assert!(!run.begin_iteration(None));
}

#[test]
fn connection_states() {
    let mut s = CamState::Disconnected;
    for (e, want) in [
        (CamEvent::LoggedIn, CamState::Disconnected),
        (CamEvent::ConnectRequested, CamState::Connecting),
        (CamEvent::LoggedIn, CamState::Connected),
        (CamEvent::ConnectRequested, CamState::Connected),
        (CamEvent::SessionLost, CamState::Disconnecting),
        (CamEvent::Closed, CamState::Disconnected),
        (CamEvent::ConnectRequested, CamState::Connecting),
        (CamEvent::SessionLost, CamState::Disconnected),
    ] {
        s = cam_transition(s, e);
        assert_eq!(s, want);
    }
    assert_eq!(cam_transition(CamState::Connected, CamEvent::DisconnectRequested), CamState::Disconnecting);
    assert!(should_update_time(false, false));
    assert!(should_update_time(true, true));
    assert!(!should_update_time(true, false));
}
