use ibapi::bus::MessageBusCore;
use ibapi::dispatcher::DispatchDecision;
use ibapi::errors::BusError;
use ibapi::messages::{IncomingKind, RequestMessage, ResponseMessage};
use ibapi::recorder::MessageRecorder;
use ibapi::server_versions;

fn new_bus() -> MessageBusCore {
    MessageBusCore::new(server_versions::SIZE_RULES, MessageRecorder::new(None))
}

#[test]
fn place_market_order_lifecycle() {
    let mut bus = new_bus();
    let mut req = RequestMessage::new();
    req.push_int(3);
    req.push_int(13);
    let (frame, promise) = bus.send_order_message(13, &req).unwrap();
    assert_eq!(frame.frame, b"\x00\x00\x00\x053\x0013\x00".to_vec());
    assert!(bus.contains_order(13));

    let open_order = ResponseMessage::from("5\x0013\x0076792991\x00TSLA\x00STK\x00");
    let status = ResponseMessage::from("3\x0013\x00PreSubmitted\x000\x00100\x000\x00");
    let execution = ResponseMessage::from("11\x00-1\x0013\x0076792991\x00TSLA\x00STK\x00");
    assert_eq!(bus.dispatch_message(open_order), DispatchDecision::ToOrder(13));
    assert_eq!(bus.dispatch_message(status), DispatchDecision::ToOrder(13));
    assert_eq!(bus.dispatch_message(execution), DispatchDecision::ToOrder(13));

    let first = promise.message().unwrap();
    assert_eq!(first.message_type(), IncomingKind::OpenOrder);
    assert_eq!(first.peek_string(3).unwrap(), "TSLA");
    let second = promise.message().unwrap();
    assert_eq!(second.message_type(), IncomingKind::OrderStatus);
    assert_eq!(second.peek_string(2).unwrap(), "PreSubmitted");
    let third = promise.message().unwrap();
    assert_eq!(third.message_type(), IncomingKind::ExecutionData);
    assert_eq!(third.order_id(), Some(13));
}

#[test]
fn replies_arrive_in_emission_order() {
    let mut bus = new_bus();
    let req = RequestMessage::new();
    let (_frame, promise) = bus.write_message_for_request(21, &req).unwrap();
    for tick in 0..5 {
        let payload = format!("1\x002\x0021\x00{}\x00", tick);
        let decision = bus.dispatch_message(ResponseMessage::from(&payload));
        assert_eq!(decision, DispatchDecision::ToRequest(21));
    }
    for tick in 0..5 {
        let m = promise.message().unwrap();
        assert_eq!(m.peek_int(3).unwrap(), tick);
    }
}

#[test]
fn error_routed_to_request() {
    let mut bus = new_bus();
    let req = RequestMessage::new();
    let (_frame, promise) = bus.write_message_for_request(42, &req).unwrap();
    let error = ResponseMessage::from("4\x002\x0042\x00321\x00some failure\x00");
    assert_eq!(bus.dispatch_message(error), DispatchDecision::ToRequest(42));
    let m = promise.message().unwrap();
    assert_eq!(m.message_type(), IncomingKind::Error);
    assert_eq!(m.peek_int(3).unwrap(), 321);
    assert_eq!(m.peek_string(4).unwrap(), "some failure");
    assert!(bus.next_connection_error().is_none());
}

#[test]
fn broadcast_error_reaches_error_channel() {
    let mut bus = new_bus();
    let req = RequestMessage::new();
    let (_frame, promise) = bus.write_message_for_request(1, &req).unwrap();
    let error = ResponseMessage::from("4\x002\x00-1\x00502\x00connection lost\x00");
    assert_eq!(bus.dispatch_message(error), DispatchDecision::BroadcastError);
    let notice = bus.next_connection_error().unwrap();
    assert_eq!(notice.request_id, -1);
    assert_eq!(notice.error_code, 502);
    assert_eq!(notice.message, "connection lost");
    assert_eq!(notice.advanced_order_reject_json, "");
    assert!(bus.next_connection_error().is_none());
    assert!(matches!(promise.message_within(0), Err(BusError::Timeout)));
}

#[test]
fn advanced_order_reject_json_is_version_gated() {
    let mut bus = MessageBusCore::new(
        server_versions::ADVANCED_ORDER_REJECT,
        MessageRecorder::new(None),
    );
    let error = ResponseMessage::from("4\x002\x00-1\x00502\x00rejected\x00{\"k\":1}\x00");
    assert_eq!(bus.dispatch_message(error), DispatchDecision::BroadcastError);
    let notice = bus.next_connection_error().unwrap();
    assert_eq!(notice.advanced_order_reject_json, "{\"k\":1}");
}

#[test]
fn old_error_form_carries_text_alone() {
    let mut bus = new_bus();
    let error = ResponseMessage::from("4\x001\x00-1\x00");
    assert_eq!(bus.dispatch_message(error), DispatchDecision::BroadcastError);
    let notice = bus.next_connection_error().unwrap();
    assert_eq!(notice.request_id, -1);
    assert_eq!(notice.error_code, 0);
    assert_eq!(notice.message, "-1");
}

#[test]
fn next_valid_id_side_channel() {
    let mut bus = new_bus();
    let req = RequestMessage::new();
    let (_frame, promise) = bus.write_message_for_request(8, &req).unwrap();
    let msg = ResponseMessage::from("9\x001\x00100\x00");
    assert_eq!(bus.dispatch_message(msg), DispatchDecision::PublishNextOrderId(100));
    assert_eq!(bus.next_order_id(), Some(100));
    assert_eq!(bus.next_order_id(), None);
    assert!(matches!(promise.message_within(0), Err(BusError::Timeout)));
}

#[test]
fn managed_accounts_side_channel() {
    let mut bus = new_bus();
    let msg = ResponseMessage::from("15\x001\x00DU1236109,DU1236110\x00");
    assert_eq!(bus.dispatch_message(msg), DispatchDecision::PublishManagedAccounts);
    assert_eq!(bus.managed_accounts().unwrap(), "DU1236109,DU1236110");
    assert!(bus.managed_accounts().is_none());
}

#[test]
fn routing_miss_is_harmless() {
    let mut bus = new_bus();
    let stray = ResponseMessage::from("3\x00999\x00Filled\x00");
    assert_eq!(bus.dispatch_message(stray), DispatchDecision::Miss(999));
    let next = ResponseMessage::from("9\x001\x007\x00");
    assert_eq!(bus.dispatch_message(next), DispatchDecision::PublishNextOrderId(7));
}

#[test]
fn tie_break_prefers_request_map() {
    let mut bus = new_bus();
    let req = RequestMessage::new();
    let (_f1, request_promise) = bus.write_message_for_request(7, &req).unwrap();
    let (_f2, order_promise) = bus.send_order_message(7, &req).unwrap();
    let tick = ResponseMessage::from("1\x002\x007\x00500\x00");
    assert_eq!(bus.dispatch_message(tick), DispatchDecision::ToRequest(7));
    let m = request_promise.message().unwrap();
    assert_eq!(m.peek_int(3).unwrap(), 500);
    assert!(matches!(order_promise.message_within(0), Err(BusError::Timeout)));
}

#[test]
fn order_notification_prefers_order_id_over_request_id() {
    let mut bus = new_bus();
    let req = RequestMessage::new();
    let (_f1, request_promise) = bus.write_message_for_request(9000, &req).unwrap();
    let (_f2, order_promise) = bus.send_order_message(13, &req).unwrap();
    let execution = ResponseMessage::from("11\x009000\x0013\x00");
    assert_eq!(bus.dispatch_message(execution), DispatchDecision::ToOrder(13));
    assert!(order_promise.message().is_ok());
    assert!(matches!(request_promise.message_within(0), Err(BusError::Timeout)));
}

#[test]
fn execution_data_without_order_sink_falls_back_to_request() {
    let mut bus = new_bus();
    let req = RequestMessage::new();
    let (_f, promise) = bus.write_message_for_request(9000, &req).unwrap();
    let end = ResponseMessage::from("55\x001\x009000\x00");
    assert_eq!(bus.dispatch_message(end), DispatchDecision::ToRequest(9000));
    let m = promise.message().unwrap();
    assert_eq!(m.message_type(), IncomingKind::ExecutionDataEnd);
}

#[test]
fn cancel_unregisters_request_id() {
    let mut bus = new_bus();
    let req = RequestMessage::new();
    let (_f, _promise) = bus.write_message_for_request(5, &req).unwrap();
    assert!(bus.contains_request(5));
    bus.cancel_request(5);
    assert!(!bus.contains_request(5));
    bus.cancel_request(5);
    assert!(!bus.contains_request(5));
    let reply = ResponseMessage::from("1\x002\x005\x00");
    assert_eq!(bus.dispatch_message(reply), DispatchDecision::Miss(5));
}

#[test]
fn cancel_unregisters_order_id() {
    let mut bus = new_bus();
    let req = RequestMessage::new();
    let (_f, _promise) = bus.send_order_message(13, &req).unwrap();
    assert!(bus.contains_order(13));
    bus.cancel_order(13);
    assert!(!bus.contains_order(13));
}

#[test]
fn closed_bus_refuses_sends() {
    let mut bus = new_bus();
    bus.mark_closed();
    assert!(bus.is_closed());
    let req = RequestMessage::new();
    assert!(matches!(bus.write_message(&req), Err(BusError::TransportClosed)));
    assert!(matches!(
        bus.write_message_for_request(1, &req),
        Err(BusError::TransportClosed)
    ));
    assert!(matches!(bus.send_order_message(1, &req), Err(BusError::TransportClosed)));
}

#[test]
fn connection_metadata_is_stored() {
    let mut bus = new_bus();
    assert_eq!(bus.server_version(), server_versions::SIZE_RULES);
    assert!(bus.connection_time().is_none());
    bus.set_connection_time(String::from("20230224 12:04:56 EST"));
    assert_eq!(bus.connection_time().unwrap(), "20230224 12:04:56 EST");
}

#[test]
fn recorder_sequencing() {
    let recorder = MessageRecorder::new(Some(String::from("/tmp/rec")));
    let mut bus = MessageBusCore::new(server_versions::SIZE_RULES, recorder);
    let mut req = RequestMessage::new();
    req.push_int(3);
    req.push_int(13);
    let frame = bus.write_message(&req).unwrap();
    let record = frame.record.unwrap();
    assert_eq!(record.path, "/tmp/rec/0000-request.msg");
    assert_eq!(record.contents, b"3|13|".to_vec());
    let reply = ResponseMessage::from("3\x0013\x00Filled\x00");
    let record2 = bus.record_response(&reply).unwrap();
    assert_eq!(record2.path, "/tmp/rec/0001-response.msg");
    assert_eq!(record2.contents, b"3|13|Filled|".to_vec());
    let record3 = bus.record_response(&reply).unwrap();
    assert_eq!(record3.path, "/tmp/rec/0002-response.msg");
}

#[test]
fn recorder_pads_and_grows_record_ids() {
    let recorder = MessageRecorder::new(Some(String::from("d")));
    assert_eq!(recorder.request_file(0), "d/0000-request.msg");
    assert_eq!(recorder.response_file(42), "d/0042-response.msg");
    assert_eq!(recorder.request_file(9999), "d/9999-request.msg");
    assert_eq!(recorder.response_file(123456), "d/123456-response.msg");
}

#[test]
fn disabled_recorder_records_nothing() {
    let mut bus = new_bus();
    let req = RequestMessage::new();
    let frame = bus.write_message(&req).unwrap();
    assert!(frame.record.is_none());
    let reply = ResponseMessage::from("9\x001\x001\x00");
    assert!(bus.record_response(&reply).is_none());
}

#[test]
fn promise_signal_is_best_effort() {
    let mut bus = new_bus();
    let req = RequestMessage::new();
    let (_f, promise) = bus.write_message_for_request(3, &req).unwrap();
    promise.signal(3);
    promise.signal(3);
}

#[test]
fn iterator_step_yields_dispatched_payloads() {
    let mut bus = new_bus();
    let req = RequestMessage::new();
    let (_f, mut promise) = bus.write_message_for_request(11, &req).unwrap();
    let reply = ResponseMessage::from("1\x002\x0011\x00");
    assert_eq!(bus.dispatch_message(reply), DispatchDecision::ToRequest(11));
    assert!(promise.next().is_some());
}

#[test]
fn shutdown_terminates_all_streams() {
    let mut bus = new_bus();
    let req = RequestMessage::new();
    let (_f1, request_promise) = bus.write_message_for_request(1, &req).unwrap();
    let (_f2, order_promise) = bus.send_order_message(2, &req).unwrap();
    bus.shutdown();
    assert!(bus.is_closed());
    assert!(!bus.contains_request(1));
    assert!(!bus.contains_order(2));
    assert!(matches!(request_promise.message_within(0), Err(BusError::TransportClosed)));
    assert!(matches!(order_promise.message_within(0), Err(BusError::TransportClosed)));
}
