use lidp_unified::fetch_api::{PumpPhase, PumpStep, ResponsePump, StreamFrame, StreamRegistry};
use lidp_unified::repo::user_repo::check_user_password;
use lidp_unified::storage::iroh::{PeerRegistry, StorageEvent, StorageResponse};

fn connected_peer(event: &StorageEvent) -> Option<&str> {
    match event {
        StorageEvent::Connected { peer_id } => Some(peer_id.as_str()),
        _ => None,
    }
}

#[test]
fn connected_peer_can_sync_and_message() {
    let mut registry = PeerRegistry::new();
    let event = registry.connect_peer("peer123").unwrap();
    assert_eq!(connected_peer(&event), Some("peer123"));
    assert_eq!(connected_peer(&registry.sync_peer("peer123").unwrap()), Some("peer123"));
    match registry.send_message("peer123", "Hello").unwrap() {
        StorageEvent::MessageReceived { peer_id, payload } => {
            assert_eq!(peer_id, "peer123");
            assert_eq!(payload, "Hello");
        }
        _ => panic!("expected a message"),
    }
}

#[test]
fn unknown_or_closed_peer_is_refused() {
    let mut registry = PeerRegistry::new();
    assert_eq!(registry.sync_peer("ghost").unwrap_err(), "peer 'ghost' is not connected");
    registry.connect_peer("p").unwrap();
    match registry.close_session("p").unwrap() {
        StorageEvent::Closed { peer_id, reason } => {
            assert_eq!(peer_id, "p");
            assert_eq!(reason.as_deref(), Some("session closed"));
        }
        _ => panic!("expected a close"),
    }
    assert_eq!(registry.send_message("p", "x").unwrap_err(), "peer 'p' is not connected");
}

#[test]
fn blank_ids_are_refused() {
    let mut registry = PeerRegistry::new();
    assert_eq!(registry.connect_peer("  ").unwrap_err(), "peer id cannot be empty");
    assert_eq!(registry.sync_peer("").unwrap_err(), "peer id cannot be empty");
    assert_eq!(registry.add_device("\t").unwrap_err(), "device id cannot be empty");
    assert_eq!(registry.remove_device("").unwrap_err(), "device id cannot be empty");
    assert_eq!(registry.close_session(" ").unwrap_err(), "peer id cannot be empty");
}

#[test]
fn devices_are_not_peers() {
    let mut registry = PeerRegistry::new();
    assert_eq!(connected_peer(&registry.add_device("laptop").unwrap()), Some("laptop"));
    assert!(registry.sync_peer("laptop").is_err());
    match registry.remove_device("laptop").unwrap() {
        StorageEvent::Closed { peer_id, reason } => {
            assert_eq!(peer_id, "laptop");
            assert_eq!(reason.as_deref(), Some("device removed"));
        }
        _ => panic!("expected a close"),
    }
}

#[test]
fn connecting_twice_then_closing_once_disconnects() {
    let mut registry = PeerRegistry::new();
    registry.connect_peer("p").unwrap();
    registry.connect_peer("p").unwrap();
    registry.close_session("p").unwrap();
    assert!(registry.sync_peer("p").is_err());
}

#[test]
fn opened_stream_is_active_and_takes_uploads() {
    let mut streams = StreamRegistry::new();
    assert!(!streams.is_active("1"));
    streams.open("1");
    assert!(streams.is_active("1"));
    assert!(streams.takes_uploads("1"));
    let plan = streams.plan_upload("1", &vec![1, 2, 3], false);
    assert!(plan.forward && !plan.close);
    let plan = streams.plan_upload("1", &Vec::new(), true);
    assert!(!plan.forward && plan.close);
    streams.close_upload("1");
    assert!(!streams.takes_uploads("1"));
    assert!(streams.is_active("1"));
}

#[test]
fn uploads_to_unknown_streams_are_dropped() {
    let streams = StreamRegistry::new();
    let plan = streams.plan_upload("9", &vec![1], true);
    assert!(!plan.forward && !plan.close);
}

#[test]
fn cancelled_stream_stops_pumping() {
    let mut streams = StreamRegistry::new();
    streams.open("1");
    match streams.pump("1", Ok(vec![7, 8])) {
        PumpStep::Send(StreamFrame::Data(d)) => assert_eq!(d, vec![7, 8]),
        _ => panic!("expected data"),
    }
    streams.cancel("1");
    assert!(matches!(streams.pump("1", Ok(vec![9])), PumpStep::Stop));
    assert!(!streams.takes_uploads("1"));
}

#[test]
fn body_error_ends_the_stream_with_an_error_frame() {
    let mut streams = StreamRegistry::new();
    streams.open("s");
    match streams.pump("s", Err("connection reset".to_string())) {
        PumpStep::SendAndStop(StreamFrame::Error(m)) => assert_eq!(m, "connection reset"),
        _ => panic!("expected an error frame"),
    }
    streams.finish("s");
    assert!(!streams.is_active("s"));
    assert!(streams.takes_uploads("s"));
}

#[test]
fn test_storage_response_success_payload() {
    let response = StorageResponse::success_payload(serde_json::Value::String("Hello, World!".to_string()));
    assert!(response.ok);
    assert_eq!(response.payload, Some(serde_json::Value::String("Hello, World!".to_string())));
    assert!(response.event.is_none());
    assert!(response.error.is_none());
}

#[test]
fn test_storage_response_error() {
    let response = StorageResponse::error("File not found".to_string());
    assert!(!response.ok);
    assert_eq!(response.error, Some("File not found".to_string()));
    assert!(response.payload.is_none());
    assert!(response.event.is_none());
}

#[test]
fn test_storage_response_success_event() {
    let event = StorageEvent::Connected { peer_id: "peer123".to_string() };
    let response = StorageResponse::success_event(event);
    assert!(response.ok);
    assert!(response.event.is_some());
    assert_eq!(connected_peer(response.event.as_ref().unwrap()), Some("peer123"));
    assert!(response.payload.is_none());
}

#[test]
fn storage_responses_carry_what_they_were_given() {
    let r = StorageResponse::success_empty();
    assert!(r.ok && r.event.is_none() && r.payload.is_none() && r.error.is_none());
    let r = StorageResponse::success(None, Some(serde_json::Value::Bool(true)));
    assert!(r.ok && r.event.is_none() && r.error.is_none());
    assert_eq!(r.payload, Some(serde_json::Value::Bool(true)));
}

fn kinds(frames: &[StreamFrame]) -> Vec<&'static str> {
    frames
        .iter()
        .map(|f| match f {
            StreamFrame::ResponseHead { .. } => "head",
            StreamFrame::Data(_) => "data",
            StreamFrame::Error(_) => "error",
            StreamFrame::Complete => "complete",
        })
        .collect()
}

#[test]
fn response_pump_sends_head_data_then_complete() {
    let mut pump = ResponsePump::new();
    let mut frames = Vec::new();
    frames.push(pump.begin(200, vec![("content-type".to_string(), "text/plain".to_string())]).unwrap());
    assert!(pump.begin(200, Vec::new()).is_none());
    pump.delivered(true);
    assert_eq!(pump.phase(), PumpPhase::Body);
    frames.push(pump.next_piece(true, Some(Ok(vec![1, 2]))).unwrap());
    pump.delivered(true);
    frames.push(pump.next_piece(true, Some(Ok(vec![3]))).unwrap());
    pump.delivered(true);
    assert!(pump.next_piece(true, None).is_none());
    assert_eq!(pump.phase(), PumpPhase::Ending);
    frames.push(pump.finish().unwrap());
    assert_eq!(pump.phase(), PumpPhase::Over);
    assert!(pump.finish().is_none());
    assert_eq!(kinds(&frames), vec!["head", "data", "data", "complete"]);
    match &frames[0] {
        StreamFrame::ResponseHead { status, headers } => {
            assert_eq!(*status, 200);
            assert_eq!(headers.len(), 1);
        }
        _ => panic!("expected the head"),
    }
}

#[test]
fn response_pump_error_ends_the_body() {
    let mut pump = ResponsePump::new();
    let mut frames = vec![pump.begin(502, Vec::new()).unwrap()];
    pump.delivered(true);
    frames.push(pump.next_piece(true, Some(Err("reset".to_string()))).unwrap());
    pump.delivered(true);
    assert!(pump.next_piece(true, Some(Ok(vec![1]))).is_none());
    frames.push(pump.finish().unwrap());
    assert_eq!(kinds(&frames), vec!["head", "error", "complete"]);
}

#[test]
fn response_pump_stops_on_refusal_or_cancel() {
    let mut pump = ResponsePump::new();
    pump.begin(200, Vec::new()).unwrap();
    pump.delivered(false);
    assert_eq!(pump.phase(), PumpPhase::Over);
    assert!(pump.finish().is_none());

    let mut pump = ResponsePump::new();
    pump.begin(200, Vec::new()).unwrap();
    pump.delivered(true);
    assert!(pump.next_piece(false, Some(Ok(vec![1]))).is_none());
    assert!(matches!(pump.finish(), Some(StreamFrame::Complete)));

    let mut pump = ResponsePump::new();
    pump.begin(200, Vec::new()).unwrap();
    pump.delivered(true);
    pump.next_piece(true, Some(Ok(vec![1]))).unwrap();
    pump.delivered(false);
    assert_eq!(pump.phase(), PumpPhase::Ending);
}

#[test]
fn user_password_must_not_be_blank() {
    assert_eq!(
        check_user_password("  \t").unwrap_err(),
        "password is required for user key material"
    );
    assert!(check_user_password("").is_err());
    assert!(check_user_password(" secret ").is_ok());
}
