use http_server::request::HttpMethod;
use http_server::request::HttpRequest;
use http_server::request::HttpRequestLine;
use http_server::request::HttpVersion;

#[test]
fn request_parse_get_method() {
    let method = "GET";

    let result = HttpMethod::from_str(method);

    assert!(matches!(result, Ok(HttpMethod::Get)));
}

#[test]
fn request_parse_unknown_method() {
    let method = "UNKNOWN";

    let result = HttpMethod::from_str(method);

    assert!(matches!(result, Err(_)));
}

#[test]
fn request_parse_11_version() {
    let version = "HTTP/1.1";

    let result = HttpVersion::from_str(version);

    assert!(matches!(result, Ok(HttpVersion::V11)));
}

#[test]
fn request_parse_unknown_version() {
    let version = "UNKNOWN";

    let result = HttpVersion::from_str(version);

    assert!(matches!(result, Err(_)));
}

#[test]
fn request_parse_request_line() {
    let request_line = "GET /index.html HTTP/1.1 \r\n";

    let result = HttpRequestLine::from_str(request_line).expect("");

    assert!(matches!(result.method, HttpMethod::Get));
    assert_eq!(result.uri, String::from("/index.html"));
    assert!(matches!(result.version, HttpVersion::V11));
}

#[test]
fn request_parse_wrong_request_line() {
    let request_line = "GET /index.html HTTP/.1 \r\n";
    assert!(matches!(HttpRequestLine::from_str(request_line), Err(_)));
}

#[test]
fn http_request_parse_get_method() {
    let method = "GET";

    let result = HttpMethod::from_str(method);

    assert!(matches!(result, Ok(HttpMethod::Get)));
}

#[test]
fn http_request_parse_unknown_method() {
    let method = "UNKNOWN";

    let result = HttpMethod::from_str(method);

    assert!(matches!(result, Err(_)));
}

#[test]
fn http_request_parse_11_version() {
    let version = "HTTP/1.1";

    let result = HttpVersion::from_str(version);

    assert!(matches!(result, Ok(HttpVersion::V11)));
}

#[test]
fn http_request_parse_unknown_version() {
    let version = "UNKNOWN";

    let result = HttpVersion::from_str(version);

    assert!(matches!(result, Err(_)));
}

#[test]
fn http_request_parse_request_line() {
    let request_line = "GET /index.html HTTP/1.1 \r\n";

    let result = HttpRequestLine::from_str(request_line).expect("");

    assert!(matches!(result.method, HttpMethod::Get));
    assert_eq!(result.uri, String::from("/index.html"));
    assert!(matches!(result.version, HttpVersion::V11));
}

#[test]
fn http_request_parse_wrong_request_line() {
    let request_line = "GET /index.html HTTP/.1 \r\n";
    assert!(matches!(HttpRequestLine::from_str(request_line), Err(_)));
}

#[test]
fn parse_version_token_alone_fails() {
    assert!(matches!(HttpRequestLine::from_str("HTTP/1.1"), Err(_)));
}

#[test]
fn parse_lowercase_method_fails() {
    assert!(matches!(HttpRequestLine::from_str("get /index.html HTTP/1.1 \r\n"), Err(_)));
}

#[test]
fn parse_empty_uri_is_kept() {
    let result = HttpRequestLine::from_str("GET  HTTP/1.1").expect("");
    assert_eq!(result.uri, String::from(""));
}

#[test]
fn parse_version_with_trailing_digits_fails() {
    assert!(matches!(HttpRequestLine::from_str("GET /index.html HTTP/1.12 \r\n"), Err(_)));
}

#[test]
fn parse_uri_keeps_inner_spaces() {
    let result = HttpRequestLine::from_str("GET /a b/c HTTP/1.1 \r\n").expect("");
    assert_eq!(result.uri, String::from("/a b/c"));
}

#[test]
fn parse_picks_last_version_token() {
    let result = HttpRequestLine::from_str("GET /HTTP/ HTTP/1.1 \r\n").expect("");
    assert_eq!(result.uri, String::from("/HTTP/"));
}

#[test]
fn parse_full_request() {
    let request = HttpRequest::from_str("GET /index.html HTTP/1.1 \r\nHost: example\r\n").expect("");
    assert!(matches!(request.line.method, HttpMethod::Get));
    assert_eq!(request.line.uri, String::from("/index.html"));
    assert!(request.header.is_none());
    assert!(request.body.is_none());
}

#[test]
fn request_error_keeps_message() {
    let error = http_server::request::HttpRequestError::new("Unknown http method");
    assert_eq!(error.message(), "Unknown http method");
}

#[test]
fn parse_errors_carry_their_messages() {
    assert_eq!(
        HttpMethod::from_str("POST").unwrap_err().message(),
        "Unknown http method"
    );
    assert_eq!(
        HttpVersion::from_str("HTTP/1.0").unwrap_err().message(),
        "Unknown http version"
    );
    assert_eq!(
        HttpRequestLine::from_str("no line").unwrap_err().message(),
        "No captures found when parsing Http request"
    );
    assert_eq!(
        HttpRequestLine::from_str("POST /x HTTP/1.1").unwrap_err().message(),
        "Unknown http method"
    );
    assert_eq!(
        HttpRequestLine::from_str("GET /x HTTP/2.0").unwrap_err().message(),
        "Unknown http version"
    );
}
