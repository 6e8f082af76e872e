use mt_webserver::error::ServerError;
use mt_webserver::request::parse_request;

#[test]
fn parses_simple_get() {
    assert_eq!(parse_request("GET / HTTP/1.1\r\n"), Ok(("GET", "/")));
}

#[test]
fn rejects_single_token_line() {
    assert_eq!(parse_request("BADLINE\r\n"), Err(ServerError::BadRequest));
}

#[test]
fn rejects_empty_request() {
    assert_eq!(parse_request(""), Err(ServerError::BadRequest));
}

#[test]
fn rejects_blank_line() {
    assert_eq!(parse_request("\r\n"), Err(ServerError::BadRequest));
}

#[test]
fn ignores_tokens_after_the_path() {
    assert_eq!(parse_request("GET /index HTTP/1.1 extra\r\n"), Ok(("GET", "/index")));
}

#[test]
fn tolerates_extra_whitespace() {
    assert_eq!(parse_request("  GET \t /path  \r\n"), Ok(("GET", "/path")));
}

#[test]
fn reads_only_the_first_line() {
    // The second token must come from the first line; here the first line
    // holds only the method.
    assert_eq!(parse_request("GET\n/ HTTP/1.1\r\n"), Err(ServerError::BadRequest));
}

#[test]
fn splits_on_unicode_whitespace() {
    // No-break space and em space separate tokens just as ASCII blanks do.
    assert_eq!(parse_request("GET\u{a0}/ x\n"), Ok(("GET", "/")));
    assert_eq!(parse_request("GET\u{2003}/index\u{3000}HTTP/1.1\n"), Ok(("GET", "/index")));
}

#[test]
fn works_without_line_terminator() {
    assert_eq!(parse_request("POST /submit"), Ok(("POST", "/submit")));
}

#[test]
fn error_messages() {
    assert_eq!(ServerError::BadRequest.message(), "Request parse error");
    assert_eq!(ServerError::Io.message(), "I/O error");
    assert_eq!(ServerError::Utf8.message(), "UTF-8 conversion error");
}
