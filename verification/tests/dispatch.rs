use apigrok::dispatch::Admission;
use apigrok::dispatch::Dispatcher;
use apigrok::error::ClientError;
use apigrok::handshake::ConnectionHandle;
use apigrok::handshake::DriverStatus;
use apigrok::protocols::NegotiatedProtocol;
use apigrok::request::Response;

fn dispatcher() -> Dispatcher {
    Dispatcher::new(ConnectionHandle::established(NegotiatedProtocol::Http1))
}

fn ok_response(status: u16) -> Response {
    Response { status, headers: Vec::new(), body: b"hello".to_vec() }
}

#[test]
fn fresh_dispatcher_admits_the_first_caller() {
    let mut d = dispatcher();
    assert_eq!(d.holder(), None);
    assert_eq!(d.acquire(1), Ok(Admission::Proceed));
    assert_eq!(d.holder(), Some(1));
}

#[test]
fn second_caller_waits_until_the_first_is_done() {
    let mut d = dispatcher();
    assert_eq!(d.acquire(1), Ok(Admission::Proceed));
    assert_eq!(d.acquire(2), Ok(Admission::Wait));
    assert_eq!(d.acquire(2), Ok(Admission::Wait));
    assert_eq!(d.holder(), Some(1));
    assert_eq!(d.complete(1, Ok(ok_response(200))), Ok(ok_response(200)));
    assert_eq!(d.holder(), None);
    assert_eq!(d.acquire(2), Ok(Admission::Proceed));
    assert_eq!(d.holder(), Some(2));
}

#[test]
fn holder_asking_again_waits_too() {
    let mut d = dispatcher();
    assert_eq!(d.acquire(7), Ok(Admission::Proceed));
    assert_eq!(d.acquire(7), Ok(Admission::Wait));
    assert_eq!(d.holder(), Some(7));
}

#[test]
fn only_the_holder_can_give_the_sender_back() {
    let mut d = dispatcher();
    d.acquire(1).unwrap();
    assert!(!d.release(2));
    assert_eq!(d.holder(), Some(1));
    assert_eq!(
        d.complete(2, Ok(ok_response(200))),
        Err(ClientError::SendFailed("no send in flight".to_string()))
    );
    assert_eq!(d.holder(), Some(1));
    assert!(d.release(1));
    assert_eq!(d.holder(), None);
    assert!(!d.release(1));
}

#[test]
fn completing_without_a_send_in_flight_fails() {
    let mut d = dispatcher();
    assert_eq!(
        d.complete(1, Ok(ok_response(200))),
        Err(ClientError::SendFailed("no send in flight".to_string()))
    );
    assert_eq!(d.holder(), None);
}

#[test]
fn abandoned_send_releases_the_sender() {
    let mut d = dispatcher();
    d.acquire(1).unwrap();
    assert!(d.release(1));
    assert_eq!(d.acquire(2), Ok(Admission::Proceed));
}

#[test]
fn failed_send_is_reported_with_its_reason_and_frees_the_sender() {
    let mut d = dispatcher();
    d.acquire(1).unwrap();
    assert_eq!(
        d.complete(1, Err("timed out".to_string())),
        Err(ClientError::SendFailed("timed out".to_string()))
    );
    assert_eq!(d.holder(), None);
    assert_eq!(d.acquire(2), Ok(Admission::Proceed));
}

#[test]
fn closed_connection_refuses_at_once() {
    let mut d = dispatcher();
    d.driver_stopped("peer closed the socket".to_string());
    assert_eq!(d.acquire(1), Err(ClientError::ConnectionClosed));
    assert_eq!(d.acquire(2), Err(ClientError::ConnectionClosed));
    assert_eq!(d.holder(), None);
    assert_eq!(
        d.handle().driver_status(),
        &DriverStatus::Stopped("peer closed the socket".to_string())
    );
}

#[test]
fn closed_connection_refuses_even_while_a_send_is_pending() {
    let mut d = dispatcher();
    d.acquire(1).unwrap();
    d.driver_stopped("reset".to_string());
    assert_eq!(d.acquire(2), Err(ClientError::ConnectionClosed));
    assert_eq!(d.holder(), Some(1));
    assert_eq!(d.complete(1, Err("broken pipe".to_string())), Err(ClientError::ConnectionClosed));
    assert_eq!(d.holder(), None);
    assert_eq!(d.acquire(1), Err(ClientError::ConnectionClosed));
}

#[test]
fn response_that_was_complete_survives_the_close() {
    let mut d = dispatcher();
    d.acquire(1).unwrap();
    d.driver_stopped("peer closed".to_string());
    assert_eq!(d.complete(1, Ok(ok_response(204))), Ok(ok_response(204)));
}

#[test]
fn protocol_of_the_connection_never_changes() {
    let mut d = Dispatcher::new(ConnectionHandle::established(NegotiatedProtocol::Http2));
    d.acquire(1).unwrap();
    d.release(1);
    d.driver_stopped("x".to_string());
    assert_eq!(d.handle().protocol(), NegotiatedProtocol::Http2);
}

#[test]
fn many_callers_are_served_one_after_another() {
    let mut d = dispatcher();
    let mut served = Vec::new();
    let mut waiting: Vec<u64> = vec![5, 3, 9, 1];
    while !waiting.is_empty() {
        let mut admitted = None;
        for (i, caller) in waiting.iter().enumerate() {
            match d.acquire(*caller).unwrap() {
                Admission::Proceed => {
                    assert_eq!(admitted, None);
                    admitted = Some(i);
                }
                Admission::Wait => {
                    assert!(admitted.is_some());
                }
            }
        }
        let caller = waiting.remove(admitted.unwrap());
        assert_eq!(d.holder(), Some(caller));
        assert_eq!(d.complete(caller, Ok(ok_response(200))), Ok(ok_response(200)));
        served.push(caller);
    }
    assert_eq!(served, vec![5, 3, 9, 1]);
}

#[test]
fn admission_is_told_without_changing_anything() {
    let mut d = dispatcher();
    assert_eq!(d.admission(1), Ok(Admission::Proceed));
    assert_eq!(d.admission(1), Ok(Admission::Proceed));
    assert_eq!(d.holder(), None);
    d.acquire(1).unwrap();
    assert_eq!(d.admission(2), Ok(Admission::Wait));
    d.driver_stopped("gone".to_string());
    assert_eq!(d.admission(2), Err(ClientError::ConnectionClosed));
    assert_eq!(d.holder(), Some(1));
}
