use mt_webserver::error::ServerError;
use mt_webserver::response::{build_response, handle_request, plan_response, response_head, Resource};

#[test]
fn routes_get_root_to_success_page() {
    assert_eq!(plan_response("GET", "/"), Some(Resource::SuccessPage));
}

#[test]
fn routes_other_get_paths_to_not_found_page() {
    assert_eq!(plan_response("GET", "/missing"), Some(Resource::NotFoundPage));
    assert_eq!(plan_response("GET", ""), Some(Resource::NotFoundPage));
}

#[test]
fn non_get_methods_get_no_response() {
    // The deliberate silent no-op: no status line, no bytes, no error.
    assert_eq!(plan_response("POST", "/"), None);
    assert_eq!(plan_response("PUT", "/"), None);
    assert_eq!(plan_response("get", "/"), None); // case-sensitive match
}

#[test]
fn handle_request_end_to_end() {
    assert_eq!(handle_request("GET / HTTP/1.1\r\n"), Ok(Some(Resource::SuccessPage)));
    assert_eq!(handle_request("GET /missing HTTP/1.1\r\n"), Ok(Some(Resource::NotFoundPage)));
    assert_eq!(handle_request("POST / HTTP/1.1\r\n"), Ok(None));
    assert_eq!(handle_request("BADLINE\r\n"), Err(ServerError::BadRequest));
}

#[test]
fn empty_read_is_an_io_error_not_a_bad_request() {
    // End-of-stream before any byte is an I/O failure of the connection;
    // only a non-empty, short request line is a parse failure.
    assert_eq!(handle_request(""), Err(ServerError::Io));
    assert_eq!(handle_request("\r\n"), Err(ServerError::BadRequest));
}

#[test]
fn resource_constants() {
    assert_eq!(Resource::SuccessPage.status_line(), "HTTP/1.1 200 OK\r\n");
    assert_eq!(Resource::NotFoundPage.status_line(), "HTTP/1.1 404 NOT FOUND\r\n");
    assert_eq!(Resource::SuccessPage.file_path(), "index.html");
    assert_eq!(Resource::NotFoundPage.file_path(), "404.html");
}

#[test]
fn head_carries_exact_content_length() {
    assert_eq!(
        response_head(Resource::SuccessPage, 15),
        "HTTP/1.1 200 OK\r\nContent-Length: 15\r\nContent-Type: text/html\r\n\r\n"
    );
    assert_eq!(
        response_head(Resource::NotFoundPage, 0),
        "HTTP/1.1 404 NOT FOUND\r\nContent-Length: 0\r\nContent-Type: text/html\r\n\r\n"
    );
    assert_eq!(
        response_head(Resource::SuccessPage, 90210),
        "HTTP/1.1 200 OK\r\nContent-Length: 90210\r\nContent-Type: text/html\r\n\r\n"
    );
}

#[test]
fn success_response_is_head_then_body() {
    let body = b"<html>hello</html>";
    let out = build_response(Resource::SuccessPage, body);
    let mut expected = format!(
        "HTTP/1.1 200 OK\r\nContent-Length: {}\r\nContent-Type: text/html\r\n\r\n",
        body.len()
    )
    .into_bytes();
    expected.extend_from_slice(body);
    assert_eq!(out, expected);
}

#[test]
fn not_found_body_is_byte_identical() {
    // Arbitrary bytes stand in for the not-found page's file contents; they
    // must come back unchanged after the head.
    let body: Vec<u8> = (0u8..=255).collect();
    let out = build_response(Resource::NotFoundPage, &body);
    let head = format!(
        "HTTP/1.1 404 NOT FOUND\r\nContent-Length: {}\r\nContent-Type: text/html\r\n\r\n",
        body.len()
    );
    assert_eq!(&out[..head.len()], head.as_bytes());
    assert_eq!(&out[head.len()..], &body[..]);
}

#[test]
fn empty_body_response() {
    let out = build_response(Resource::SuccessPage, b"");
    assert_eq!(
        out,
        b"HTTP/1.1 200 OK\r\nContent-Length: 0\r\nContent-Type: text/html\r\n\r\n".to_vec()
    );
}
