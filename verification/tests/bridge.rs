use serial_bridge::bridge::{Bridge, RequestState, Step, STATUS_NO_DELIMITER, STATUS_SUCCESS};
use serial_bridge::SubmitError;

fn expect_receive(step: Step) -> Vec<u8> {
    match step {
        Step::Receive(b) => b,
        Step::Notify { client, status, length } => {
            panic!("expected a receive, got notify ({client}, {status}, {length})")
        }
    }
}

fn expect_notify(step: Step) -> (u32, usize, usize) {
    match step {
        Step::Notify { client, status, length } => (client, status, length),
        Step::Receive(_) => panic!("expected a notify, got a receive"),
    }
}

/// Drives one whole exchange: submit, transmit-completion, then one
/// receive-completion per byte of `stream`.
fn run_exchange(
    bridge: &mut Bridge,
    client: u32,
    address: &[u8],
    body: &[u8],
    stream: &[u8],
    response: &mut Vec<u8>,
) -> (u32, usize, usize) {
    let t = bridge.submit(client, &address.to_vec(), &body.to_vec()).expect("submit refused");
    let mut buffer = expect_receive(bridge.transmit_complete(t.buffer, Ok(())));
    for (k, &byte) in stream.iter().enumerate() {
        let step = bridge.byte_received(buffer, byte, Ok(()), response);
        if k + 1 < stream.len() {
            buffer = expect_receive(step);
        } else {
            return expect_notify(step);
        }
    }
    panic!("the stream never ended");
}

#[test]
fn whole_get_exchange() {
    let mut bridge = Bridge::new(vec![0u8; 64]);
    let mut response = vec![0u8; 32];
    let t = bridge.submit(7, &b"a.b/c".to_vec(), &Vec::new()).expect("submit refused");
    assert_eq!(t.length, 14);
    assert_eq!(&t.buffer[..14], b"GET  a.b/c\r\n\r\n");
    assert_eq!(bridge.state, RequestState::Requesting { client: 7 });
    assert!(bridge.scratch.is_none());

    let mut buffer = expect_receive(bridge.transmit_complete(t.buffer, Ok(())));
    for &byte in b"HTTP/1.1 200 OK\r\n\r\nhello" {
        buffer = expect_receive(bridge.byte_received(buffer, byte, Ok(()), &mut response));
    }
    let step = bridge.byte_received(buffer, 0, Ok(()), &mut response);
    assert_eq!(expect_notify(step), (7, STATUS_SUCCESS, 5));
    assert_eq!(&response[..5], b"hello");
    assert_eq!(bridge.state, RequestState::Idle);
    assert!(bridge.scratch.is_some());
}

#[test]
fn second_submit_is_busy_and_changes_nothing() {
    let mut bridge = Bridge::new(vec![0u8; 64]);
    let t = bridge.submit(1, &b"a".to_vec(), &Vec::new()).expect("submit refused");
    let cursor_before = bridge.cursor;
    let r = bridge.submit(2, &b"b".to_vec(), &Vec::new());
    assert!(matches!(r, Err(SubmitError::Busy)));
    assert_eq!(bridge.state, RequestState::Requesting { client: 1 });
    assert!(bridge.scratch.is_none());
    assert_eq!(bridge.cursor, cursor_before);
    // the first exchange goes on undisturbed
    let _ = expect_receive(bridge.transmit_complete(t.buffer, Ok(())));
}

#[test]
fn submit_without_scratch_is_out_of_memory() {
    let mut bridge = Bridge { state: RequestState::Idle, scratch: None, cursor: 0 };
    let r = bridge.submit(3, &b"a".to_vec(), &Vec::new());
    assert!(matches!(r, Err(SubmitError::OutOfMemory)));
    assert_eq!(bridge.state, RequestState::Idle);
    assert!(bridge.scratch.is_none());
}

#[test]
fn oversized_get_is_rejected_synchronously() {
    let mut bridge = Bridge::new(vec![0u8; 10]);
    let r = bridge.submit(4, &b"ab".to_vec(), &Vec::new());
    assert!(matches!(r, Err(SubmitError::Size)));
    assert_eq!(bridge.state, RequestState::Idle);
    assert!(bridge.scratch.is_some());
}

#[test]
fn oversized_post_is_rejected_synchronously() {
    let mut bridge = Bridge::new(vec![0u8; 66]);
    let r = bridge.submit(4, &b"x".to_vec(), &b"{}".to_vec());
    assert!(matches!(r, Err(SubmitError::InvalidArgument)));
    assert_eq!(bridge.state, RequestState::Idle);
    assert!(bridge.scratch.is_some());
}

#[test]
fn whole_post_exchange() {
    let mut bridge = Bridge::new(vec![0u8; 80]);
    let mut response = vec![0u8; 32];
    let (client, status, length) = run_exchange(
        &mut bridge,
        9,
        b"x",
        b"{}",
        b"HTTP/1.1 200 OK\r\n\r\nok!\0",
        &mut response,
    );
    assert_eq!((client, status, length), (9, STATUS_SUCCESS, 3));
    assert_eq!(&response[..3], b"ok!");
}

#[test]
fn response_without_delimiter_reports_418() {
    let mut bridge = Bridge::new(vec![0u8; 64]);
    let mut response = vec![0u8; 32];
    let (client, status, length) =
        run_exchange(&mut bridge, 5, b"a", b"", b"no blank line here\0", &mut response);
    assert_eq!((client, status, length), (5, STATUS_NO_DELIMITER, 0));
    assert_eq!(bridge.state, RequestState::Idle);
}

#[test]
fn transmit_failure_notifies_and_goes_idle() {
    let mut bridge = Bridge::new(vec![0u8; 64]);
    let t = bridge.submit(8, &b"a".to_vec(), &Vec::new()).expect("submit refused");
    let step = bridge.transmit_complete(t.buffer, Err(5));
    assert_eq!(expect_notify(step), (8, 5, 0));
    assert_eq!(bridge.state, RequestState::Idle);
    assert!(bridge.scratch.is_some());
}

#[test]
fn receive_failure_notifies_and_goes_idle() {
    let mut bridge = Bridge::new(vec![0u8; 64]);
    let mut response = vec![0u8; 32];
    let t = bridge.submit(8, &b"a".to_vec(), &Vec::new()).expect("submit refused");
    let buffer = expect_receive(bridge.transmit_complete(t.buffer, Ok(())));
    let before = response.clone();
    let step = bridge.byte_received(buffer, b'H', Err(11), &mut response);
    assert_eq!(expect_notify(step), (8, 11, 0));
    assert_eq!(bridge.state, RequestState::Idle);
    assert!(bridge.scratch.is_some());
    assert_eq!(response, before);
}

#[test]
fn rejected_receive_submission_notifies_and_goes_idle() {
    let mut bridge = Bridge::new(vec![0u8; 64]);
    let t = bridge.submit(2, &b"a".to_vec(), &Vec::new()).expect("submit refused");
    let buffer = expect_receive(bridge.transmit_complete(t.buffer, Ok(())));
    let step = bridge.transport_failed(buffer, 6);
    assert_eq!(expect_notify(step), (2, 6, 0));
    assert_eq!(bridge.state, RequestState::Idle);
    assert!(bridge.scratch.is_some());
}

#[test]
fn bridge_is_reusable_after_an_exchange() {
    let mut bridge = Bridge::new(vec![0u8; 64]);
    let mut response = vec![0u8; 32];
    let first = run_exchange(&mut bridge, 1, b"a", b"", b"h\r\n\r\nAB\0", &mut response);
    assert_eq!(first, (1, STATUS_SUCCESS, 2));
    assert_eq!(&response[..2], b"AB");
    let mut response2 = vec![0u8; 32];
    let second = run_exchange(&mut bridge, 2, b"b", b"", b"h\r\n\r\nXYZ\0", &mut response2);
    assert_eq!(second, (2, STATUS_SUCCESS, 3));
    assert_eq!(&response2[..3], b"XYZ");
}

#[test]
fn cursor_resets_between_exchanges() {
    let mut bridge = Bridge::new(vec![0u8; 64]);
    let mut response = vec![0u8; 8];
    let _ = run_exchange(&mut bridge, 1, b"a", b"", b"123456\0", &mut response);
    assert_eq!(bridge.cursor, 7);
    let t = bridge.submit(2, &b"a".to_vec(), &Vec::new()).expect("submit refused");
    assert_eq!(bridge.cursor, 0);
    let _ = bridge.transmit_complete(t.buffer, Err(1));
}
