use serial_bridge::builder::build_message;
use serial_bridge::SubmitError;

#[test]
fn get_scenario_a_b_c() {
    // address "a.b/c", no body: "GET  a.b/c\r\n\r\n", 14 bytes
    let mut scratch = vec![0u8; 64];
    let address = b"a.b/c".to_vec();
    let body: Vec<u8> = Vec::new();
    let r = build_message(&mut scratch, &address, &body);
    assert_eq!(r, Ok(14));
    assert_eq!(&scratch[..14], b"GET  a.b/c\r\n\r\n");
}

#[test]
fn get_empty_address() {
    let mut scratch = vec![0u8; 16];
    let address: Vec<u8> = Vec::new();
    let body: Vec<u8> = Vec::new();
    let r = build_message(&mut scratch, &address, &body);
    assert_eq!(r, Ok(9));
    assert_eq!(&scratch[..9], b"GET  \r\n\r\n");
}

#[test]
fn get_leaves_tail_alone() {
    let mut scratch = vec![7u8; 20];
    let address = b"zz".to_vec();
    let body: Vec<u8> = Vec::new();
    let r = build_message(&mut scratch, &address, &body);
    assert_eq!(r, Ok(11));
    assert_eq!(&scratch[..11], b"GET  zz\r\n\r\n");
    assert!(scratch[11..].iter().all(|&b| b == 7));
}

#[test]
fn get_exactly_fits() {
    let mut scratch = vec![0u8; 11];
    let address = b"ab".to_vec();
    let body: Vec<u8> = Vec::new();
    assert_eq!(build_message(&mut scratch, &address, &body), Ok(11));
}

#[test]
fn get_too_long_fails_with_size() {
    let mut scratch = vec![9u8; 10];
    let address = b"ab".to_vec();
    let body: Vec<u8> = Vec::new();
    let r = build_message(&mut scratch, &address, &body);
    assert_eq!(r, Err(SubmitError::Size));
    // nothing was written
    assert!(scratch.iter().all(|&b| b == 9));
}

#[test]
fn post_scenario_x_braces() {
    // address "x", body "{}": Content-Length "002", 64 + 1 + 2 = 67 bytes
    let mut scratch = vec![0u8; 80];
    let address = b"x".to_vec();
    let body = b"{}".to_vec();
    let r = build_message(&mut scratch, &address, &body);
    assert_eq!(r, Ok(67));
    let expected: Vec<u8> =
        b"POST x\r\nContent-Type: application/json\r\nContent-Length: 002\r\n\r\n{}\r\n".to_vec();
    assert_eq!(&scratch[..67], &expected[..]);
    // the three Content-Length digits stand at offsets 56..59 for a
    // one-byte address
    assert_eq!(&scratch[56..59], b"002");
}

#[test]
fn post_three_digit_length() {
    let mut scratch = vec![0u8; 400];
    let address = b"host/path".to_vec();
    let body = vec![b'j'; 123];
    let r = build_message(&mut scratch, &address, &body);
    assert_eq!(r, Ok(64 + 9 + 123));
    // digits at 5 + 9 + 50
    assert_eq!(&scratch[64..67], b"123");
    // body sits between the header block and the trailing "\r\n"
    assert_eq!(&scratch[5 + 9 + 57..5 + 9 + 57 + 123], &body[..]);
    assert_eq!(&scratch[196 - 2..196], b"\r\n");
}

#[test]
fn post_length_field_truncates_above_999() {
    // 1234 bytes: the field only fits three digits and keeps "234"
    let mut scratch = vec![0u8; 1400];
    let address = b"a".to_vec();
    let body = vec![b'q'; 1234];
    let r = build_message(&mut scratch, &address, &body);
    assert_eq!(r, Ok(64 + 1 + 1234));
    assert_eq!(&scratch[56..59], b"234");
}

#[test]
fn post_too_long_fails_with_invalid_argument() {
    let mut scratch = vec![3u8; 66];
    let address = b"x".to_vec();
    let body = b"{}".to_vec();
    let r = build_message(&mut scratch, &address, &body);
    assert_eq!(r, Err(SubmitError::InvalidArgument));
    assert!(scratch.iter().all(|&b| b == 3));
}

#[test]
fn post_exactly_fits() {
    let mut scratch = vec![0u8; 67];
    let address = b"x".to_vec();
    let body = b"{}".to_vec();
    assert_eq!(build_message(&mut scratch, &address, &body), Ok(67));
}
