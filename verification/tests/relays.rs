use import_http::body::Body;
use import_http::exchange::{EncodeError, SendError};
use import_http::listener::on_response_received;
use import_http::method::Method;
use import_http::relay::{
    DecodeError, ForwardError, Relay, RelayAction, RelayError, RelayEvent, RelayState,
};
use import_http::request::Request;
use import_http::response::Response;
use import_http::responses::ResponseMap;

fn request() -> Request {
    Request {
        method: Method::Get,
        path: "/".to_string(),
        headers: Vec::new(),
        query: None,
        body: Body::Empty,
    }
}

fn decoded(id: u128) -> Relay {
    let (mut relay, action) = Relay::start();
    assert!(matches!(action, RelayAction::Decode));
    let action = relay.step(RelayEvent::Decoded(Ok((id, request()))));
    assert!(matches!(action, RelayAction::Forward(ref r) if r.path == "/"));
    assert_eq!(relay.state, RelayState::Forwarding(id));
    relay
}

#[test]
fn listener_receiving_invalid_request_bytes_returns_error() {
    let (mut relay, _) = Relay::start();
    let action = relay.step(RelayEvent::Decoded(Err(DecodeError)));
    assert!(matches!(action, RelayAction::Finish(Err(RelayError::Decode))));
    assert_eq!(relay.state, RelayState::Finished);
}

#[test]
fn failure_to_send_request_returns_error() {
    let mut relay = decoded(5);
    let action = relay.step(RelayEvent::Forwarded(Err(ForwardError)));
    assert!(matches!(action, RelayAction::Finish(Err(RelayError::Forward))));
}

#[test]
fn failure_to_send_response_bytes_returns_error() {
    let mut relay = decoded(5);
    let action = relay.step(RelayEvent::Forwarded(Ok(Response::default())));
    assert!(matches!(action, RelayAction::Encode(5, ref r) if r.status_code == 200));
    let action = relay.step(RelayEvent::Encoded(Ok(vec![9])));
    assert!(matches!(action, RelayAction::Send(ref b) if *b == vec![9]));
    let action = relay.step(RelayEvent::Sent(Err(SendError)));
    assert!(matches!(action, RelayAction::Finish(Err(RelayError::Send))));
}

#[test]
fn failure_to_encode_response_returns_error() {
    let mut relay = decoded(5);
    let _ = relay.step(RelayEvent::Forwarded(Ok(Response::default())));
    let action = relay.step(RelayEvent::Encoded(Err(EncodeError)));
    assert!(matches!(action, RelayAction::Finish(Err(RelayError::Encode))));
}

#[test]
fn relayed_response_succeeds_under_the_request_id() {
    let mut relay = decoded(u128::MAX);
    let action = relay.step(RelayEvent::Forwarded(Ok(Response::from_status(418))));
    assert!(matches!(action, RelayAction::Encode(u128::MAX, ref r) if r.status_code == 418));
    let _ = relay.step(RelayEvent::Encoded(Ok(vec![1])));
    let action = relay.step(RelayEvent::Sent(Ok(())));
    assert!(matches!(action, RelayAction::Finish(Ok(()))));
    assert!(matches!(relay.step(RelayEvent::Sent(Ok(()))), RelayAction::Ignore));
}

#[test]
fn receiving_invalid_request_bytes_returns_error() {
    let mut map: ResponseMap<u8> = ResponseMap::new();
    map.request_response(1, 10);
    assert!(on_response_received(&mut map, Err(DecodeError)).is_err());
    assert!(map.is_waiting(1));
}

#[test]
fn receiving_valid_request_bytes_notifies_response_map() {
    let mut map: ResponseMap<u8> = ResponseMap::default();
    map.request_response(1, 10);
    map.request_response(2, 20);
    match on_response_received(&mut map, Ok((2, Response::from_status(201)))) {
        Ok(Some((w, r))) => {
            assert_eq!(w, 20);
            assert_eq!(r.status_code, 201);
        }
        other => panic!("unexpected {other:?}"),
    }
    assert!(!map.is_waiting(2));
    assert!(map.is_waiting(1));
    assert!(matches!(
        on_response_received(&mut map, Ok((2, Response::default()))),
        Ok(None)
    ));
}

#[test]
fn response_map_gives_back_what_was_registered() {
    let mut map: ResponseMap<&str> = ResponseMap::new();
    map.request_response(3, "first");
    map.request_response(3, "second");
    assert_eq!(map.len(), 1);
    assert_eq!(map.receive_response(3), Some("second"));
    assert_eq!(map.receive_response(3), None);
    map.request_response(4, "x");
    map.remove_response(4);
    assert_eq!(map.receive_response(4), None);
    map.remove_response(99);
    assert_eq!(map.len(), 0);
}
