use stadal::application::{Client, CoreState, Stadal};
use stadal::messages::{
    Action, CoreError, CoreNotification, CoreRequest, Memory, OutboundNotification, ResponseValue,
};
use stadal::tracing::TracingSwitch;

fn started(session: &mut Stadal, tracing: &mut TracingSwitch) {
    let r = session.handle_notification(
        tracing,
        CoreNotification::ClientStarted { config_dir: None, client_extras_dir: None },
    );
    assert_eq!(r, Ok(None));
}

#[test]
fn waiting_rejects_other_messages() {
    let mut session = Stadal::new();
    let mut tracing = TracingSwitch::new();

    let r = session.handle_notification(&mut tracing, CoreNotification::SendMemory {});
    assert_eq!(r, Err(CoreError::NotReady));
    assert!(session.is_waiting());

    let r = session.handle_notification(&mut tracing, CoreNotification::Other {});
    assert_eq!(r, Err(CoreError::NotReady));
    assert!(session.is_waiting());

    let r = session.handle_request(CoreRequest::GetConfig {});
    assert_eq!(r, Err(CoreError::NotReady));
    assert!(session.is_waiting());

    let r = session.idle(7);
    assert_eq!(r, Err(CoreError::NotReady));
    assert!(session.is_waiting());

    let r = session.deliver_memory(Memory { total: 1, available: 1, free: 1 });
    assert_eq!(r, Err(CoreError::NotReady));
    assert!(session.is_waiting());

    assert!(matches!(session.inner(), Err(CoreError::NotReady)));
    assert!(matches!(session.take_outbound(), Err(CoreError::NotReady)));
}

#[test]
fn client_started_emits_one_config_status() {
    let mut session = Stadal::new();
    let mut tracing = TracingSwitch::new();
    started(&mut session, &mut tracing);

    assert!(!session.is_waiting());
    let sent = session.take_outbound().unwrap();
    assert_eq!(sent, vec![OutboundNotification::ConfigStatus { success: true }]);

    // Nothing else was recorded.
    let rest = session.take_outbound().unwrap();
    assert_eq!(rest, Vec::new());
}

#[test]
fn second_client_started_is_refused() {
    let mut session = Stadal::new();
    let mut tracing = TracingSwitch::new();
    started(&mut session, &mut tracing);

    let r = session.handle_notification(
        &mut tracing,
        CoreNotification::ClientStarted {
            config_dir: Some(String::from("/tmp/cfg")),
            client_extras_dir: None,
        },
    );
    assert_eq!(r, Err(CoreError::AlreadyStarted));
    assert!(!session.is_waiting());

    // The state the first handshake constructed is untouched: its single
    // config_status notification is still the only one recorded.
    let sent = session.take_outbound().unwrap();
    assert_eq!(sent, vec![OutboundNotification::ConfigStatus { success: true }]);
}

#[test]
fn tracing_toggles_in_waiting_state() {
    let mut session = Stadal::new();
    let mut tracing = TracingSwitch::new();
    assert!(!tracing.is_enabled());

    let r = session.handle_notification(
        &mut tracing,
        CoreNotification::TracingConfig { enabled: true },
    );
    assert_eq!(r, Ok(None));
    assert!(tracing.is_enabled());
    assert!(session.is_waiting());

    let r = session.handle_notification(
        &mut tracing,
        CoreNotification::TracingConfig { enabled: false },
    );
    assert_eq!(r, Ok(None));
    assert!(!tracing.is_enabled());
    assert!(session.is_waiting());
}

#[test]
fn tracing_toggles_in_running_state() {
    let mut session = Stadal::new();
    let mut tracing = TracingSwitch::new();
    started(&mut session, &mut tracing);

    let r = session.handle_notification(
        &mut tracing,
        CoreNotification::TracingConfig { enabled: true },
    );
    assert_eq!(r, Ok(None));
    assert!(tracing.is_enabled());
    assert!(!session.is_waiting());

    let r = session.handle_notification(
        &mut tracing,
        CoreNotification::TracingConfig { enabled: false },
    );
    assert_eq!(r, Ok(None));
    assert!(!tracing.is_enabled());
    assert!(!session.is_waiting());

    // The toggles recorded no outbound notification.
    let sent = session.take_outbound().unwrap();
    assert_eq!(sent, vec![OutboundNotification::ConfigStatus { success: true }]);
}

#[test]
fn send_memory_reports_the_fetched_statistics() {
    let mut session = Stadal::new();
    let mut tracing = TracingSwitch::new();
    started(&mut session, &mut tracing);
    session.take_outbound().unwrap();

    // The notification itself only asks for the fetch.
    let r = session.handle_notification(&mut tracing, CoreNotification::SendMemory {});
    assert_eq!(r, Ok(Some(Action::FetchMemory)));
    assert_eq!(session.take_outbound().unwrap(), Vec::new());

    // The stub provider's numbers come back and are reported exactly once.
    let r = session.deliver_memory(Memory { total: 1000, available: 400, free: 300 });
    assert_eq!(r, Ok(()));
    let sent = session.take_outbound().unwrap();
    assert_eq!(
        sent,
        vec![OutboundNotification::SendMemory { total: 1000, available: 400, free: 300 }]
    );
}

#[test]
fn requests_always_answer_the_placeholder() {
    let mut session = Stadal::new();
    let mut tracing = TracingSwitch::new();
    started(&mut session, &mut tracing);

    for _ in 0..5 {
        let r = session.handle_request(CoreRequest::GetConfig {});
        assert_eq!(r, Ok(ResponseValue::Int(1)));
        let r = session.handle_request(CoreRequest::DebugGetContents {});
        assert_eq!(r, Ok(ResponseValue::Int(1)));
    }

    // No hidden mutation: the requests recorded nothing outbound.
    let sent = session.take_outbound().unwrap();
    assert_eq!(sent, vec![OutboundNotification::ConfigStatus { success: true }]);
}

#[test]
fn idle_tokens_are_accepted_once_running() {
    let mut session = Stadal::new();
    let mut tracing = TracingSwitch::new();
    started(&mut session, &mut tracing);

    assert_eq!(session.idle(0), Ok(()));
    assert_eq!(session.idle(usize::MAX), Ok(()));
    let sent = session.take_outbound().unwrap();
    assert_eq!(sent, vec![OutboundNotification::ConfigStatus { success: true }]);
}

#[test]
fn weak_handle_resolves_only_while_running() {
    let mut session = Stadal::new();
    let mut tracing = TracingSwitch::new();
    assert!(session.weak_self().is_none());

    started(&mut session, &mut tracing);
    let handle = session.weak_self().unwrap();
    assert!(handle.resolve(&session).is_some());

    // Cloned handles observe the same single state.
    let other = handle.clone();
    assert!(other.resolve(&session).is_some());

    // Against a session that owns no state, the handle reports nothing.
    let torn_down = Stadal::new();
    assert!(handle.resolve(&torn_down).is_none());
}

#[test]
fn inner_exposes_the_running_state() {
    let mut session = Stadal::new();
    let mut tracing = TracingSwitch::new();
    started(&mut session, &mut tracing);
    assert!(session.inner().is_ok());
}

#[test]
fn remote_error_carries_code_and_message() {
    // The reserved request-failure channel: a typed code and message.
    let err = CoreError::RemoteError { code: 2, message: String::from("missing resource") };
    match err {
        CoreError::RemoteError { code, message } => {
            assert_eq!(code, 2);
            assert_eq!(message, "missing resource");
        }
        _ => unreachable!(),
    }
}

#[test]
fn scenario_handshake_gates_the_session() {
    let mut session = Stadal::new();
    let mut tracing = TracingSwitch::new();

    // Before the handshake, a request is a protocol violation.
    let r = session.handle_request(CoreRequest::DebugGetContents {});
    assert_eq!(r, Err(CoreError::NotReady));

    // The handshake starts the session and reports readiness once.
    let r = session.handle_notification(
        &mut tracing,
        CoreNotification::ClientStarted {
            config_dir: Some(String::from("/tmp/cfg")),
            client_extras_dir: None,
        },
    );
    assert_eq!(r, Ok(None));
    let sent = session.take_outbound().unwrap();
    assert_eq!(sent, vec![OutboundNotification::ConfigStatus { success: true }]);

    // Now the same request succeeds with the placeholder value.
    let r = session.handle_request(CoreRequest::DebugGetContents {});
    assert_eq!(r, Ok(ResponseValue::Int(1)));

    // A repeated handshake is refused.
    let r = session.handle_notification(
        &mut tracing,
        CoreNotification::ClientStarted {
            config_dir: Some(String::from("/tmp/cfg")),
            client_extras_dir: None,
        },
    );
    assert_eq!(r, Err(CoreError::AlreadyStarted));
}

#[test]
fn peer_buffer_keeps_delivery_order() {
    let mut peer = Client::new();
    peer.send_memory(Memory { total: 3, available: 2, free: 1 });
    peer.send_memory(Memory { total: 30, available: 20, free: 10 });
    let sent = peer.take_pending();
    assert_eq!(
        sent,
        vec![
            OutboundNotification::SendMemory { total: 3, available: 2, free: 1 },
            OutboundNotification::SendMemory { total: 30, available: 20, free: 10 },
        ]
    );
    assert_eq!(peer.take_pending(), Vec::new());
}

#[test]
fn dispatcher_routes_notifications() {
    let mut state = CoreState::new();
    assert_eq!(
        state.client_notification(CoreNotification::SendMemory {}),
        Some(Action::FetchMemory)
    );
    assert_eq!(
        state.client_notification(CoreNotification::ClientStarted {
            config_dir: None,
            client_extras_dir: None,
        }),
        None
    );
    assert_eq!(state.client_notification(CoreNotification::Other {}), None);
    state.handle_idle(42);
    assert_eq!(state.client_request(CoreRequest::GetConfig {}), Ok(ResponseValue::Int(1)));
}
