use publish::context::Context;
use publish::handler::handle_request;
use publish::handler::step;
use publish::handler::HandlerEvent;
use publish::handler::HandlerState;
use publish::http::ok;
use publish::http::response;
use publish::http::Error;
use publish::http::Method;

/// Drive one upload to completion the way the surrounding process would:
/// open an in-memory sink, feed the body chunks one at a time, write each
/// into the sink, and report the body's end. Returns the response's status
/// and body, and the bytes the sink holds.
fn drive_upload(ctx: &mut Context, chunks: Vec<Vec<u8>>) -> (u16, String, Vec<u8>) {
    let state = handle_request(ctx, Method::Post);
    assert!(matches!(state, HandlerState::Opening { .. }));
    let mut state = step(state, HandlerEvent::SinkOpened);
    let mut sink: Vec<u8> = Vec::new();
    let mut pending = chunks.into_iter();
    loop {
        match &state {
            HandlerState::Reading { .. } => {
                let event = match pending.next() {
                    Some(chunk) => HandlerEvent::ChunkArrived { chunk },
                    None => HandlerEvent::BodyEnded,
                };
                state = step(state, event);
            }
            HandlerState::Writing { chunk, .. } => {
                sink.extend_from_slice(chunk);
                state = step(state, HandlerEvent::ChunkWritten);
            }
            HandlerState::Done { .. } => break,
            HandlerState::Opening { .. } => unreachable!(),
        }
    }
    match state {
        HandlerState::Done { response, .. } => (response.status, response.body, sink),
        _ => unreachable!(),
    }
}

#[test]
fn get_is_rejected_with_invalid_method() {
    let mut ctx = Context::new();
    let state = handle_request(&mut ctx, Method::Get);
    match state {
        HandlerState::Done { response, .. } => {
            assert_eq!(response.status, 400);
            assert_eq!(response.body, "invalid method");
        }
        _ => panic!("a GET must be rejected immediately"),
    }
}

#[test]
fn put_and_delete_are_rejected_with_invalid_method() {
    let mut ctx = Context::new();
    for method in [Method::Put, Method::Delete] {
        let state = handle_request(&mut ctx, method);
        match state {
            HandlerState::Done { response, .. } => {
                assert_eq!(response.status, 400);
                assert_eq!(response.body, "invalid method");
            }
            _ => panic!("a non-POST must be rejected immediately"),
        }
    }
}

#[test]
fn rejected_request_consumes_no_identifier() {
    let mut ctx = Context::new();
    for method in [Method::Get, Method::Put, Method::Delete, Method::Other] {
        let state = handle_request(&mut ctx, method);
        assert!(matches!(state, HandlerState::Done { .. }));
    }
    let (status, body, _) = drive_upload(&mut ctx, vec![]);
    assert_eq!(status, 200);
    assert_eq!(body, "0", "the rejected requests must not have consumed an identifier");
}

#[test]
fn empty_body_round_trip() {
    let mut ctx = Context::new();
    let (status, body, sink) = drive_upload(&mut ctx, vec![]);
    assert_eq!(status, 200);
    assert_eq!(body, "0");
    assert_eq!(sink, Vec::<u8>::new());
}

#[test]
fn small_body_round_trip() {
    let mut ctx = Context::new();
    let (status, body, sink) = drive_upload(&mut ctx, vec![b"hello ".to_vec(), b"world".to_vec()]);
    assert_eq!(status, 200);
    assert_eq!(body, "0");
    assert_eq!(sink, b"hello world".to_vec());
}

#[test]
fn large_body_round_trip() {
    let mut ctx = Context::new();
    let chunk_size = 65536;
    let chunk_count = 64;
    let mut chunks = Vec::new();
    let mut expected: Vec<u8> = Vec::new();
    for c in 0..chunk_count {
        let mut chunk = Vec::with_capacity(chunk_size);
        for i in 0..chunk_size {
            chunk.push(((c * chunk_size + i) % 251) as u8);
        }
        expected.extend_from_slice(&chunk);
        chunks.push(chunk);
    }
    let (status, body, sink) = drive_upload(&mut ctx, chunks);
    assert_eq!(status, 200);
    assert_eq!(body, "0");
    assert_eq!(sink.len(), chunk_size * chunk_count);
    assert_eq!(sink, expected);
}

#[test]
fn sink_open_failure_maps_to_server_error() {
    let mut ctx = Context::new();
    let state = handle_request(&mut ctx, Method::Post);
    let state = step(
        state,
        HandlerEvent::SinkOpenFailed { message: "permission denied".to_string() },
    );
    match state {
        HandlerState::Done { response, .. } => {
            assert_eq!(response.status, 500);
            assert_eq!(response.body, "permission denied");
        }
        _ => panic!("a sink-open failure must end the request"),
    }
    // The process keeps serving: the next upload succeeds, under the next
    // identifier (the failed request's identifier stays consumed).
    let (status, body, sink) = drive_upload(&mut ctx, vec![b"x".to_vec()]);
    assert_eq!(status, 200);
    assert_eq!(body, "1");
    assert_eq!(sink, b"x".to_vec());
}

#[test]
fn read_failure_maps_to_server_error_and_keeps_partial_data() {
    let mut ctx = Context::new();
    let state = handle_request(&mut ctx, Method::Post);
    let state = step(state, HandlerEvent::SinkOpened);
    let state = step(state, HandlerEvent::ChunkArrived { chunk: b"part".to_vec() });
    let mut sink: Vec<u8> = Vec::new();
    match &state {
        HandlerState::Writing { chunk, .. } => sink.extend_from_slice(chunk),
        _ => panic!("an arrived chunk must be written next"),
    }
    let state = step(state, HandlerEvent::ChunkWritten);
    let state = step(
        state,
        HandlerEvent::ReadFailed { message: "connection reset".to_string() },
    );
    match state {
        HandlerState::Done { response, .. } => {
            assert_eq!(response.status, 500);
            assert_eq!(response.body, "connection reset");
        }
        _ => panic!("a read failure must end the request"),
    }
    assert_eq!(sink, b"part".to_vec(), "bytes written before the failure remain");
}

#[test]
fn write_failure_maps_to_server_error() {
    let mut ctx = Context::new();
    let state = handle_request(&mut ctx, Method::Post);
    let state = step(state, HandlerEvent::SinkOpened);
    let state = step(state, HandlerEvent::ChunkArrived { chunk: b"abc".to_vec() });
    let state = step(state, HandlerEvent::WriteFailed { message: "disk full".to_string() });
    match state {
        HandlerState::Done { response, .. } => {
            assert_eq!(response.status, 500);
            assert_eq!(response.body, "disk full");
        }
        _ => panic!("a write failure must end the request"),
    }
}

#[test]
fn sequential_uploads_receive_sequential_identifiers() {
    let mut ctx = Context::new();
    let bodies: [&[u8]; 3] = [b"a", b"bb", b"ccc"];
    let mut stored = Vec::new();
    for (expected_id, body) in bodies.iter().enumerate() {
        let (status, id_text, sink) = drive_upload(&mut ctx, vec![body.to_vec()]);
        assert_eq!(status, 200);
        assert_eq!(id_text, expected_id.to_string());
        stored.push(sink);
    }
    assert_eq!(stored[1], b"bb".to_vec(), "the content stored under identifier 1");
}

#[test]
fn error_new_keeps_status_and_message() {
    let error = Error::new(400, "invalid method".to_string());
    let response = error.into_response();
    assert_eq!(response.status, 400);
    assert_eq!(response.body, "invalid method");
}

#[test]
fn error_io_is_a_server_error() {
    let error = Error::io("broken pipe".to_string());
    assert_eq!(error.status, 500);
    assert_eq!(error.message, "broken pipe");
    let response = error.into_response();
    assert_eq!(response.status, 500);
    assert_eq!(response.body, "broken pipe");
}

#[test]
fn response_builds_the_given_status_and_body() {
    let r: Result<publish::http::Response, ()> = response(200, "7".to_string());
    let r = r.unwrap();
    assert_eq!(r.status, 200);
    assert_eq!(r.body, "7");
}

#[test]
fn ok_wraps_the_value() {
    let r = ok(41);
    assert_eq!(r, Ok(41));
}
