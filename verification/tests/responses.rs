use nanwei_api_rust::responses::{request_text, response_text, PartialResponses};
use quiche::Error;

#[test]
fn response_is_written_piece_by_piece() {
    let mut r = PartialResponses::new();
    assert!(r.record_start(8, b"hello world".to_vec(), Ok(5)));
    assert_eq!(r.unsent(8), Some(&b" world"[..]));
    r.record_send(8, Ok(1));
    assert_eq!(r.unsent(8), Some(&b"world"[..]));
    r.record_send(8, Err(Error::Done));
    assert_eq!(r.unsent(8), Some(&b"world"[..]));
    r.record_send(8, Ok(5));
    assert_eq!(r.unsent(8), None);
    r.record_send(8, Ok(0));
    assert_eq!(r.unsent(8), None);
}

#[test]
fn response_taken_at_once_does_not_wait() {
    let mut r = PartialResponses::new();
    assert!(r.record_start(4, b"abc".to_vec(), Ok(3)));
    assert_eq!(r.unsent(4), None);
}

#[test]
fn response_that_a_full_stream_refuses_waits() {
    let mut r = PartialResponses::new();
    assert!(r.record_start(4, b"abc".to_vec(), Err(Error::Done)));
    assert_eq!(r.unsent(4), Some(&b"abc"[..]));
}

#[test]
fn response_on_a_failed_stream_is_given_up() {
    let mut r = PartialResponses::new();
    assert!(!r.record_start(4, b"abc".to_vec(), Err(Error::StreamStopped(1))));
    assert_eq!(r.unsent(4), None);
    assert!(r.record_start(4, b"abc".to_vec(), Ok(1)));
    r.record_send(4, Err(Error::StreamStopped(1)));
    assert_eq!(r.unsent(4), None);
}

#[test]
fn streams_do_not_disturb_each_other() {
    let mut r = PartialResponses::new();
    r.record_start(4, b"abc".to_vec(), Ok(1));
    r.record_start(8, b"xyz".to_vec(), Ok(2));
    r.record_send(4, Ok(2));
    assert_eq!(r.unsent(4), None);
    assert_eq!(r.unsent(8), Some(&b"z"[..]));
}

#[test]
fn request_has_to_be_text() {
    assert_eq!(request_text(b"{}"), Some("{}".to_string()));
    assert_eq!(request_text("收到".as_bytes()), Some("收到".to_string()));
    assert_eq!(request_text(&[0xff, 0x00]), None);
    assert_eq!(request_text(b""), Some(String::new()));
}

#[test]
fn response_repeats_the_request() {
    assert_eq!(response_text("hello"), "收到：hello\n");
    assert_eq!(response_text(""), "收到：\n");
}
