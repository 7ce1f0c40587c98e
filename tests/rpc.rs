use ersha::client::{
    batch_upload_result, hello_result, ping_result, Client, ClientError, RpcError,
    DEFAULT_TIMEOUT_MS,
};
use ersha::message::{Envelope, MessageId, WireError, WireErrorCode, WireMessage};
use ersha::model::{
    BatchId, BatchUploadResponse, DispatcherId, H3Cell, HelloRejectionReason, HelloRequest,
    HelloResponse,
};
use ersha::server::{dispatch, refusal, reply, Dispatch, RequestKind, Routes};

fn request(id: u128, payload: WireMessage) -> Envelope {
    Envelope { msg_id: MessageId(id), reply_to: None, payload }
}

#[test]
fn ping_without_pong_responder_is_unsupported() {
    let routes = Routes::new().on_hello();
    let mut client = Client::new();
    let ping = client.begin_call_with_id(MessageId(1), WireMessage::Ping).unwrap();

    let decision = dispatch(&routes, &ping);
    assert_eq!(decision, Dispatch::Refuse(WireErrorCode::Unsupported));
    let Dispatch::Refuse(code) = decision else { unreachable!() };
    let answer = refusal(&ping, MessageId(2), code);
    assert_eq!(answer.reply_to, Some(MessageId(1)));

    assert_eq!(client.receive(&answer), Some(MessageId(1)));
    match ping_result(answer) {
        Err(ClientError::ErrorResponse(e)) => assert_eq!(e.code, WireErrorCode::Unsupported),
        other => panic!("unexpected {:?}", other),
    }
}

#[test]
fn registered_requests_reach_their_handler() {
    let routes = Routes::new().on_ping().on_hello().on_batch_upload();
    assert_eq!(dispatch(&routes, &request(1, WireMessage::Ping)), Dispatch::Handle(RequestKind::Ping));
    let hello = HelloRequest { dispatcher_id: DispatcherId(9), location: H3Cell(0x8a2a1072b59ffff) };
    assert_eq!(
        dispatch(&routes, &request(2, WireMessage::HelloRequest(hello))),
        Dispatch::Handle(RequestKind::Hello)
    );
}

#[test]
fn replies_and_non_requests_are_bad_requests() {
    let routes = Routes::new().on_ping();
    assert_eq!(
        dispatch(&routes, &request(1, WireMessage::Pong)),
        Dispatch::Refuse(WireErrorCode::BadRequest)
    );
    let answered = Envelope { msg_id: MessageId(3), reply_to: Some(MessageId(1)), payload: WireMessage::Ping };
    assert_eq!(dispatch(&routes, &answered), Dispatch::Refuse(WireErrorCode::BadRequest));
}

#[test]
fn reply_answers_the_request() {
    let req = request(41, WireMessage::Ping);
    let r = reply(&req, MessageId(42), WireMessage::Pong);
    assert_eq!(r.msg_id, MessageId(42));
    assert_eq!(r.reply_to, Some(MessageId(41)));
    assert!(matches!(r.payload, WireMessage::Pong));
}

#[test]
fn typed_results_follow_the_reply_kind() {
    let pong = request(1, WireMessage::Pong);
    assert_eq!(ping_result(pong), Ok(()));
    assert_eq!(ping_result(request(1, WireMessage::Ping)), Err(ClientError::UnexpectedResponse));

    let accepted = HelloResponse::Accepted { dispatcher_id: DispatcherId(5) };
    assert_eq!(hello_result(request(1, WireMessage::HelloResponse(accepted))), Ok(accepted));
    let rejected = HelloResponse::Rejected { reason: HelloRejectionReason::UnknownDispatcher };
    assert_eq!(hello_result(request(1, WireMessage::HelloResponse(rejected))), Ok(rejected));

    let ack = BatchUploadResponse { id: BatchId(77) };
    assert_eq!(batch_upload_result(request(1, WireMessage::BatchUploadResponse(ack))), Ok(ack));
    let err = WireError { code: WireErrorCode::Internal, message: "disk full".to_string() };
    assert_eq!(
        batch_upload_result(request(1, WireMessage::Error(err.clone()))),
        Err(ClientError::ErrorResponse(err))
    );
    assert_eq!(batch_upload_result(request(1, WireMessage::Pong)), Err(ClientError::UnexpectedResponse));
}

#[test]
fn replies_are_matched_by_correlation_id() {
    let mut client = Client::new().with_timeout(250);
    assert_eq!(client.timeout_ms(), 250);
    let a = client.begin_call_with_id(MessageId(10), WireMessage::Ping).unwrap();
    assert_eq!(a.reply_to, None);
    assert!(client.begin_call_with_id(MessageId(11), WireMessage::Ping).is_some());
    assert!(client.begin_call_with_id(MessageId(10), WireMessage::Ping).is_none());

    let stray = Envelope { msg_id: MessageId(99), reply_to: Some(MessageId(12)), payload: WireMessage::Pong };
    assert_eq!(client.receive(&stray), None);
    let for_b = Envelope { msg_id: MessageId(98), reply_to: Some(MessageId(11)), payload: WireMessage::Pong };
    assert_eq!(client.receive(&for_b), Some(MessageId(11)));
    // The same reply again answers nothing.
    assert_eq!(client.receive(&for_b), None);
}

#[test]
fn timed_out_call_ignores_late_reply() {
    let mut client = Client::new();
    assert_eq!(client.timeout_ms(), DEFAULT_TIMEOUT_MS);
    let call = client.begin_call(WireMessage::Ping).unwrap();
    assert_eq!(client.expire(call.msg_id), ClientError::Rpc(RpcError::Timeout));
    let late = Envelope { msg_id: MessageId(5), reply_to: Some(call.msg_id), payload: WireMessage::Pong };
    assert_eq!(client.receive(&late), None);
}

#[test]
fn malformed_frames_get_a_bad_request_notice() {
    let notice = ersha::server::malformed_notice(MessageId(8));
    assert_eq!(notice.msg_id, MessageId(8));
    assert_eq!(notice.reply_to, None);
    match notice.payload {
        WireMessage::Error(e) => assert_eq!(e.code, WireErrorCode::BadRequest),
        other => panic!("unexpected {:?}", other),
    }
}
