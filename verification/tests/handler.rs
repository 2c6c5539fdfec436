use miniserver::handler::handle_connection;
use miniserver::request::{classify, home_prefix_bytes, sleep_prefix_bytes, Route};
use miniserver::response::{build_response, not_found_status_bytes, ok_status_bytes};
use miniserver::transport::MemStream;

const HOME_PAGE: &[u8] = b"<html><body>Hello!</body></html>";
const NOT_FOUND_PAGE: &[u8] = b"<html><body>Oops!</body></html>";

fn padded_to_1024(input: &[u8]) -> Vec<u8> {
    let mut contents = vec![0u8; 1024];
    contents[..input.len()].clone_from_slice(input);
    contents
}

#[test]
fn test_handle_connection() {
    let input_bytes = b"GET / HTTP/1.1\r\n";
    let mut contents = vec![0u8; 1024];
    contents[..input_bytes.len()].clone_from_slice(input_bytes);
    let mut stream = MemStream::new(contents);

    let home = HOME_PAGE.to_vec();
    let not_found = NOT_FOUND_PAGE.to_vec();
    handle_connection(&mut stream, &home, &not_found);

    let expected_contents = String::from_utf8(home.clone()).unwrap();
    let expected_response = format!("HTTP/1.1 200 OK\r\n\r\n{}", expected_contents);
    assert!(stream.written().starts_with(expected_response.as_bytes()));
}

#[test]
fn prefix_bytes_match_literals() {
    assert_eq!(home_prefix_bytes(), b"GET / HTTP/1.1\r\n".to_vec());
    assert_eq!(sleep_prefix_bytes(), b"GET /sleep HTTP/1.1\r\n".to_vec());
}

#[test]
fn status_lines_match_literals() {
    assert_eq!(ok_status_bytes(), b"HTTP/1.1 200 OK\r\n\r\n".to_vec());
    assert_eq!(not_found_status_bytes(), b"HTTP/1.1 404 NOT FOUND\r\n\r\n".to_vec());
}

#[test]
fn classify_home() {
    let buf = padded_to_1024(b"GET / HTTP/1.1\r\nHost: localhost\r\n\r\n");
    assert_eq!(classify(&buf), Route::Home);
}

#[test]
fn classify_sleep() {
    let buf = padded_to_1024(b"GET /sleep HTTP/1.1\r\n");
    assert_eq!(classify(&buf), Route::Sleep);
}

#[test]
fn classify_other() {
    let buf = padded_to_1024(b"GET /missing HTTP/1.1\r\n");
    assert_eq!(classify(&buf), Route::NotFound);
}

#[test]
fn classify_empty() {
    let buf = vec![0u8; 1024];
    assert_eq!(classify(&buf), Route::NotFound);
}

#[test]
fn classify_truncated_request_line() {
    // One byte short of the home request line: padding zeros must not
    // complete the match.
    let buf = padded_to_1024(b"GET / HTTP/1.1\r");
    assert_eq!(classify(&buf), Route::NotFound);
}

#[test]
fn build_response_exact_bytes() {
    let home = HOME_PAGE.to_vec();
    let not_found = NOT_FOUND_PAGE.to_vec();

    let mut expected_ok = b"HTTP/1.1 200 OK\r\n\r\n".to_vec();
    expected_ok.extend_from_slice(HOME_PAGE);
    assert_eq!(build_response(Route::Home, &home, &not_found), expected_ok);
    assert_eq!(build_response(Route::Sleep, &home, &not_found), expected_ok);

    let mut expected_nf = b"HTTP/1.1 404 NOT FOUND\r\n\r\n".to_vec();
    expected_nf.extend_from_slice(NOT_FOUND_PAGE);
    assert_eq!(build_response(Route::NotFound, &home, &not_found), expected_nf);
}

#[test]
fn home_scenario_padded_input() {
    // `GET / HTTP/1.1\r\n` padded to 1024 bytes with zero bytes.
    let input = padded_to_1024(b"GET / HTTP/1.1\r\n");
    let mut stream = MemStream::new(input);
    let home = HOME_PAGE.to_vec();
    let not_found = NOT_FOUND_PAGE.to_vec();

    let route = handle_connection(&mut stream, &home, &not_found);

    assert_eq!(route, Route::Home);
    let mut expected = b"HTTP/1.1 200 OK\r\n\r\n".to_vec();
    expected.extend_from_slice(HOME_PAGE);
    assert_eq!(stream.written(), &expected);
}

#[test]
fn missing_scenario() {
    let input = b"GET /missing HTTP/1.1\r\n".to_vec();
    let mut stream = MemStream::new(input);
    let home = HOME_PAGE.to_vec();
    let not_found = NOT_FOUND_PAGE.to_vec();

    let route = handle_connection(&mut stream, &home, &not_found);

    assert_eq!(route, Route::NotFound);
    let mut expected = b"HTTP/1.1 404 NOT FOUND\r\n\r\n".to_vec();
    expected.extend_from_slice(NOT_FOUND_PAGE);
    assert_eq!(stream.written(), &expected);
}

#[test]
fn sleep_request_same_page_as_home() {
    let input = padded_to_1024(b"GET /sleep HTTP/1.1\r\n");
    let mut stream = MemStream::new(input);
    let home = HOME_PAGE.to_vec();
    let not_found = NOT_FOUND_PAGE.to_vec();

    let route = handle_connection(&mut stream, &home, &not_found);

    assert_eq!(route, Route::Sleep);
    let mut expected = b"HTTP/1.1 200 OK\r\n\r\n".to_vec();
    expected.extend_from_slice(HOME_PAGE);
    assert_eq!(stream.written(), &expected);
}

#[test]
fn identical_requests_identical_responses() {
    let home = HOME_PAGE.to_vec();
    let not_found = NOT_FOUND_PAGE.to_vec();

    let input = padded_to_1024(b"GET / HTTP/1.1\r\n");
    let mut first = MemStream::new(input.clone());
    let mut second = MemStream::new(input);

    handle_connection(&mut first, &home, &not_found);
    handle_connection(&mut second, &home, &not_found);

    assert_eq!(first.written(), second.written());
}

#[test]
fn oversized_request_is_truncated_not_lost() {
    // The request line sits in the first 1024 bytes; everything past the
    // single read is ignored.
    let mut input = padded_to_1024(b"GET / HTTP/1.1\r\n");
    input.extend_from_slice(&[7u8; 2000]);
    let mut stream = MemStream::new(input);
    let home = HOME_PAGE.to_vec();
    let not_found = NOT_FOUND_PAGE.to_vec();

    let route = handle_connection(&mut stream, &home, &not_found);

    assert_eq!(route, Route::Home);
    assert!(stream.written().starts_with(b"HTTP/1.1 200 OK\r\n\r\n"));
}

#[test]
fn empty_input_gets_not_found() {
    let mut stream = MemStream::new(Vec::new());
    let home = HOME_PAGE.to_vec();
    let not_found = NOT_FOUND_PAGE.to_vec();

    let route = handle_connection(&mut stream, &home, &not_found);

    assert_eq!(route, Route::NotFound);
    let mut expected = b"HTTP/1.1 404 NOT FOUND\r\n\r\n".to_vec();
    expected.extend_from_slice(NOT_FOUND_PAGE);
    assert_eq!(stream.written(), &expected);
}

#[test]
fn empty_resources_give_bare_status_lines() {
    let input = padded_to_1024(b"GET / HTTP/1.1\r\n");
    let mut stream = MemStream::new(input);
    let empty: Vec<u8> = Vec::new();

    handle_connection(&mut stream, &empty, &empty);

    assert_eq!(stream.written(), &b"HTTP/1.1 200 OK\r\n\r\n".to_vec());
}
