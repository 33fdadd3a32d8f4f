use blender_bridge::error::{BridgeError, ErrorKind};
use blender_bridge::json::JsonValue;
use blender_bridge::rpc::{ping_request, FrameStep, ReadEvent, ResponseFramer};
use blender_bridge::socket::{
    check_blender_socket, check_blender_socket_with_retry, socket_status, BlenderSocketStatus,
    ProbeStep, RetryPolicy,
};

fn refused() -> Result<JsonValue, BridgeError> {
    Err(BridgeError::new(
        ErrorKind::Connect,
        "Could not connect to Blender socket at 127.0.0.1:9876: refused".to_string(),
    ))
}

fn answered() -> Result<JsonValue, BridgeError> {
    Ok(JsonValue::Object(vec![("status".to_string(), JsonValue::Text("ok".to_string()))]))
}

fn connected(host: &str, port: u16) -> BlenderSocketStatus {
    BlenderSocketStatus {
        connected: true,
        host: host.to_string(),
        port,
        message: "Connected to Blender addon socket.".to_string(),
    }
}

fn finished(step: ProbeStep) -> BlenderSocketStatus {
    match step {
        ProbeStep::Finished(status) => status,
        ProbeStep::Send { .. } => panic!("the probe is not over"),
    }
}

#[test]
fn a_probe_sends_the_liveness_request_to_the_defaults() {
    match check_blender_socket(None, None, None) {
        ProbeStep::Send { host, port, request, delay_millis } => {
            assert_eq!(host, "127.0.0.1");
            assert_eq!(port, 9876);
            assert_eq!(request, ping_request());
            assert_eq!(delay_millis, 0);
        }
        ProbeStep::Finished(_) => panic!("nothing was sent"),
    }
    match check_blender_socket(Some("blender.local".to_string()), Some(1234), None) {
        ProbeStep::Send { host, port, .. } => {
            assert_eq!(host, "blender.local");
            assert_eq!(port, 1234);
        }
        ProbeStep::Finished(_) => panic!("nothing was sent"),
    }
}

#[test]
fn a_listener_that_answers_ok_is_connected() {
    let host = Some("127.0.0.1".to_string());
    let port = Some(9876);
    assert!(matches!(check_blender_socket(host.clone(), port, None), ProbeStep::Send { .. }));
    let outcome = match ResponseFramer::new().on_read(ReadEvent::Data(b"{\"status\":\"ok\"}".to_vec())) {
        FrameStep::Finished(outcome) => outcome,
        FrameStep::ReadMore(_) => panic!("the response was complete"),
    };
    let status = finished(check_blender_socket(host, port, Some(&outcome)));
    assert!(status.connected);
    assert_eq!(status, connected("127.0.0.1", 9876));
}

#[test]
fn a_failed_probe_is_a_status_not_a_failure() {
    let status = finished(check_blender_socket(None, Some(1), Some(&refused())));
    assert_eq!(
        status,
        BlenderSocketStatus {
            connected: false,
            host: "127.0.0.1".to_string(),
            port: 1,
            message: "Blender socket unavailable: Could not connect to Blender socket at 127.0.0.1:9876: refused".to_string(),
        }
    );
    assert_eq!(socket_status("h", 2, &answered()), connected("h", 2));
    assert!(!socket_status("h", 2, &refused()).connected);
    assert_eq!(socket_status("h", 2, &refused()).clone(), socket_status("h", 2, &refused()));
}

#[test]
fn the_setup_policy_is_three_attempts() {
    assert_eq!(RetryPolicy::setup_default(), RetryPolicy { attempts: 3, delay_millis: 900 });
}

#[test]
fn retries_wait_before_every_attempt_but_the_first() {
    let policy = RetryPolicy { attempts: 3, delay_millis: 900 };
    let mut outcomes = Vec::new();
    match check_blender_socket_with_retry("127.0.0.1", 9876, policy, &outcomes) {
        ProbeStep::Send { host, port, request, delay_millis } => {
            assert_eq!(host, "127.0.0.1");
            assert_eq!(port, 9876);
            assert_eq!(request, ping_request());
            assert_eq!(delay_millis, 0);
        }
        ProbeStep::Finished(_) => panic!("no attempt was made"),
    }
    outcomes.push(refused());
    assert!(matches!(
        check_blender_socket_with_retry("127.0.0.1", 9876, policy, &outcomes),
        ProbeStep::Send { delay_millis: 900, .. }
    ));
    outcomes.push(refused());
    assert!(matches!(
        check_blender_socket_with_retry("127.0.0.1", 9876, policy, &outcomes),
        ProbeStep::Send { delay_millis: 900, .. }
    ));
    outcomes.push(Err(BridgeError::new(ErrorKind::NoResponse, "last".to_string())));
    let status = finished(check_blender_socket_with_retry("127.0.0.1", 9876, policy, &outcomes));
    assert!(!status.connected);
    assert_eq!(status.message, "Blender socket unavailable: last");
}

#[test]
fn the_first_success_ends_the_retries() {
    let policy = RetryPolicy { attempts: 3, delay_millis: 900 };
    let status = finished(check_blender_socket_with_retry("h", 7, policy, &vec![answered()]));
    assert_eq!(status, connected("h", 7));
    let status = finished(check_blender_socket_with_retry("h", 7, policy, &vec![refused(), answered()]));
    assert_eq!(status, connected("h", 7));
    let status = finished(check_blender_socket_with_retry(
        "h",
        7,
        policy,
        &vec![refused(), refused(), answered()],
    ));
    assert_eq!(status, connected("h", 7));
}

#[test]
fn outcomes_beyond_the_attempts_do_not_count() {
    let policy = RetryPolicy { attempts: 2, delay_millis: 5 };
    let outcomes = vec![
        refused(),
        Err(BridgeError::new(ErrorKind::NoResponse, "second".to_string())),
        answered(),
    ];
    let status = finished(check_blender_socket_with_retry("h", 7, policy, &outcomes));
    assert!(!status.connected);
    assert_eq!(status.message, "Blender socket unavailable: second");
}

#[test]
fn no_attempts_count_as_one() {
    let policy = RetryPolicy { attempts: 0, delay_millis: 900 };
    assert!(matches!(
        check_blender_socket_with_retry("h", 7, policy, &vec![]),
        ProbeStep::Send { delay_millis: 0, .. }
    ));
    let status = finished(check_blender_socket_with_retry("h", 7, policy, &vec![refused()]));
    assert!(!status.connected);
    let one = RetryPolicy { attempts: 1, delay_millis: 900 };
    let status = finished(check_blender_socket_with_retry("h", 7, one, &vec![refused()]));
    assert!(!status.connected);
}

#[test]
fn a_long_reason_is_cut_in_the_status() {
    let outcome = Err(BridgeError::new(ErrorKind::RemoteReported, "line one\nline two".to_string()));
    assert_eq!(socket_status("h", 1, &outcome).message, "Blender socket unavailable: line one line two");
    let outcome = Err(BridgeError::new(ErrorKind::RemoteReported, "y".repeat(1001)));
    assert_eq!(
        socket_status("h", 1, &outcome).message,
        format!("Blender socket unavailable: {}", "y".repeat(1000))
    );
}
