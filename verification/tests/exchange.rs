use testopenssl::{
    HttpRequest, Method, Next, ReadOutcome, Step, TestHandler, WriteOutcome,
};
use testopenssl::message::u16_to_decimal;
use testopenssl::request::json_content_type;

fn post(body: &[u8]) -> HttpRequest {
    HttpRequest {
        method: Method::Post,
        url: String::from("https://eu.httpbin.org/post"),
        body: body.to_vec(),
    }
}

fn count_emission(step: &Step, results: &mut Vec<Result<Vec<u8>, String>>) {
    if let Some(r) = &step.emit {
        results.push(r.clone());
    }
}

#[test]
fn full_exchange_reflects_submitted_content() {
    // An exchange that echoes the submitted body back delivers a success
    // result carrying exactly the submitted content.
    let body = b"foo";
    let mut h = TestHandler::new(post(body));
    let (head, next) = h.on_request();
    assert_eq!(head.method, Method::Post);
    assert_eq!(head.content_length, 3);
    assert_eq!(next, Next::Write);

    assert_eq!(h.remaining_body(), b"foo");
    let s = h.on_request_writable(WriteOutcome::Wrote(2));
    assert_eq!(s.next, Next::Write);
    assert_eq!(h.remaining_body(), b"o");
    let s = h.on_request_writable(WriteOutcome::Wrote(1));
    assert_eq!(s.next, Next::Write);
    assert_eq!(h.remaining_body(), b"");
    let s = h.on_request_writable(WriteOutcome::Wrote(0));
    assert_eq!(s.next, Next::ReadTimeout);

    let s = h.on_response(200, Some(body.len() as u64));
    assert_eq!(s.next, Next::Read);
    assert!(s.emit.is_none());

    let s = h.on_response_readable(ReadOutcome::Data(b"fo".to_vec()));
    assert_eq!(s.next, Next::Read);
    assert!(s.emit.is_none());
    let s = h.on_response_readable(ReadOutcome::Data(b"o".to_vec()));
    assert_eq!(s.next, Next::Read);
    let s = h.on_response_readable(ReadOutcome::Data(Vec::new()));
    assert_eq!(s.next, Next::End);
    assert_eq!(s.emit, Some(Ok(b"foo".to_vec())));
    assert!(h.is_done());
}

#[test]
fn exactly_one_result_per_exchange() {
    // Over a whole exchange, would-blocks and retries included, exactly one
    // result comes out: never zero, never more than one.
    let mut results: Vec<Result<Vec<u8>, String>> = Vec::new();
    let mut h = TestHandler::new(post(b"xy"));
    let (_head, _next) = h.on_request();
    count_emission(&h.on_request_writable(WriteOutcome::WouldBlock), &mut results);
    count_emission(&h.on_request_writable(WriteOutcome::Wrote(2)), &mut results);
    count_emission(&h.on_request_writable(WriteOutcome::Wrote(0)), &mut results);
    count_emission(&h.on_response(201, Some(1)), &mut results);
    count_emission(&h.on_response_readable(ReadOutcome::WouldBlock), &mut results);
    count_emission(&h.on_response_readable(ReadOutcome::Data(b"z".to_vec())), &mut results);
    assert_eq!(results.len(), 0);
    count_emission(&h.on_response_readable(ReadOutcome::Data(Vec::new())), &mut results);
    assert!(h.is_done());
    assert_eq!(results, vec![Ok(b"z".to_vec())]);
}

#[test]
fn non_success_status_yields_failure_naming_it() {
    let mut h = TestHandler::new(post(b""));
    let (_head, _next) = h.on_request();
    let _ = h.on_request_writable(WriteOutcome::Wrote(0));
    let s = h.on_response(404, Some(10));
    assert_eq!(s.next, Next::End);
    assert_eq!(s.emit, Some(Err(String::from("failed response status: 404"))));
    assert!(h.is_done());
}

#[test]
fn success_without_declared_body_yields_empty_result() {
    let mut h = TestHandler::new(post(b"abc"));
    let (_head, _next) = h.on_request();
    let _ = h.on_request_writable(WriteOutcome::Wrote(3));
    let _ = h.on_request_writable(WriteOutcome::Wrote(0));
    let s = h.on_response(204, None);
    assert_eq!(s.next, Next::End);
    assert_eq!(s.emit, Some(Ok(Vec::new())));
}

#[test]
fn success_with_zero_declared_length_yields_empty_result() {
    let mut h = TestHandler::new(post(b""));
    let (_head, _next) = h.on_request();
    let _ = h.on_request_writable(WriteOutcome::Wrote(0));
    let s = h.on_response(200, Some(0));
    assert_eq!(s.next, Next::End);
    assert_eq!(s.emit, Some(Ok(Vec::new())));
}

#[test]
fn write_failure_forwards_error_text() {
    let mut h = TestHandler::new(post(b"abc"));
    let (_head, _next) = h.on_request();
    let s = h.on_request_writable(WriteOutcome::Failed(String::from("broken pipe")));
    assert_eq!(s.next, Next::Remove);
    assert_eq!(s.emit, Some(Err(String::from("broken pipe"))));
    assert!(h.is_done());
}

#[test]
fn read_failure_is_described() {
    let mut h = TestHandler::new(post(b""));
    let (_head, _next) = h.on_request();
    let _ = h.on_request_writable(WriteOutcome::Wrote(0));
    let _ = h.on_response(200, Some(5));
    let s = h.on_response_readable(ReadOutcome::Failed(String::from("connection reset")));
    assert_eq!(s.next, Next::End);
    assert_eq!(
        s.emit,
        Some(Err(String::from("unable to read response body: connection reset")))
    );
}

#[test]
fn connection_error_is_described() {
    let mut h = TestHandler::new(post(b"abc"));
    let (_head, _next) = h.on_request();
    let s = h.on_error("timed out");
    assert_eq!(s.next, Next::Remove);
    assert_eq!(s.emit, Some(Err(String::from("on_error: timed out"))));
    assert!(h.is_done());
}

#[test]
fn would_block_rearms_the_same_operation() {
    let mut h = TestHandler::new(post(b"ab"));
    let (_head, _next) = h.on_request();
    let s = h.on_request_writable(WriteOutcome::WouldBlock);
    assert_eq!(s.next, Next::Write);
    assert!(s.emit.is_none());
    assert_eq!(h.remaining_body(), b"ab");
    let _ = h.on_request_writable(WriteOutcome::Wrote(2));
    let _ = h.on_request_writable(WriteOutcome::Wrote(0));
    let _ = h.on_response(200, Some(1));
    let s = h.on_response_readable(ReadOutcome::WouldBlock);
    assert_eq!(s.next, Next::Read);
    assert!(s.emit.is_none());
    assert!(!h.is_done());
}

#[test]
fn decimal_rendering_is_exact() {
    assert_eq!(u16_to_decimal(0), "0");
    assert_eq!(u16_to_decimal(7), "7");
    assert_eq!(u16_to_decimal(10), "10");
    assert_eq!(u16_to_decimal(200), "200");
    assert_eq!(u16_to_decimal(404), "404");
    assert_eq!(u16_to_decimal(65535), "65535");
}

#[test]
fn largest_status_is_reported_in_full() {
    let mut h = TestHandler::new(post(b""));
    let (_head, _next) = h.on_request();
    let _ = h.on_request_writable(WriteOutcome::Wrote(0));
    let s = h.on_response(65535, None);
    assert_eq!(s.emit, Some(Err(String::from("failed response status: 65535"))));
}

#[test]
fn request_head_carries_method_and_content_type() {
    assert_eq!(json_content_type(), "application/json; charset=utf-8");
    assert_eq!(Method::Post.as_str(), "POST");
    assert_eq!(Method::Get.as_str(), "GET");
    assert_eq!(Method::Delete.as_str(), "DELETE");
}
