//! The HTTP server core: turning one raw request buffer into the exact
//! response bytes. Content loading is an external collaborator, handed in as a
//! callback; the status-reason table comes from the `http` crate.
use vstd::prelude::*;
use vstd::string::StrSliceExecFns;
use vstd::string::StringExecFns;
use vstd::utf8::valid_utf8;
use vstd::utf8::decode_utf8;
use crate::content::Message;
use crate::content::MimeKind;
use crate::content::build_content_type;
use crate::content::find_mimetype;
use crate::content::spec_content_type;
use crate::content::spec_extension;
use crate::content::spec_mime_kind;
use crate::request::HttpMethod;
use crate::request::HttpRequest;
use crate::request::spec_parse_request_line;

verus! {

/// Error returned when using server methods.
#[derive(Debug, Clone)]
pub struct ServerError {
    msg: String,
}

impl ServerError {
    /// The error message carried by this error.
    pub closed spec fn spec_msg(&self) -> Seq<char> {
        self.msg@
    }

    /// Creates a new [`ServerError`] carrying the given message.
    pub fn new(msg: &str) -> (e: ServerError)
        ensures
            e.spec_msg() == msg@,
    {
        ServerError { msg: msg.to_owned() }
    }

    /// The error message, for callers that report the failure.
    pub fn message(&self) -> (m: &str)
        ensures
            m@ == self.spec_msg(),
    {
        self.msg.as_str()
    }
}

/// The canonical reason phrase of a status code, when the code is in the
/// `http` crate's table.
pub uninterp spec fn status_reason(code: u16) -> Option<Seq<char>>;

/// Relies on `http::StatusCode::from_u16` and `StatusCode::canonical_reason`:
/// together they give the canonical reason phrase of a status code, or nothing
/// for a code outside the table. The table plainly holds `200 => "OK"`,
/// `404 => "Not Found"` and `501 => "Not Implemented"`.
#[verifier::external_body]
fn lookup_reason(code: u16) -> (r: Option<String>)
    ensures
        r is Some <==> status_reason(code) is Some,
        r matches Some(s) ==> status_reason(code) == Some(s@),
        r is Some <== code == 200 || code == 404 || code == 501,
        r matches Some(s) ==> (code == 200 ==> s@ == "OK"@),
        r matches Some(s) ==> (code == 404 ==> s@ == "Not Found"@),
        r matches Some(s) ==> (code == 501 ==> s@ == "Not Implemented"@),
{
    match http::StatusCode::from_u16(code) {
        Ok(c) => c.canonical_reason().map(|p| p.to_string()),
        Err(_) => None,
    }
}

/// Relies on std's `str::from_utf8`: it succeeds exactly on valid UTF-8 and
/// returns the decoding of those bytes.
#[verifier::external_body]
fn bytes_to_str(bytes: &[u8]) -> (r: Option<&str>)
    ensures
        r matches Some(s) ==> valid_utf8(bytes@) && s@ == decode_utf8(bytes@),
        r is None ==> !valid_utf8(bytes@),
{
    std::str::from_utf8(bytes).ok()
}

/// The character of a decimal digit.
pub open spec fn digit_char(d: int) -> char {
    if d == 0 {
        '0'
    } else if d == 1 {
        '1'
    } else if d == 2 {
        '2'
    } else if d == 3 {
        '3'
    } else if d == 4 {
        '4'
    } else if d == 5 {
        '5'
    } else if d == 6 {
        '6'
    } else if d == 7 {
        '7'
    } else if d == 8 {
        '8'
    } else {
        '9'
    }
}

/// The decimal representation of a number, most significant digit first.
pub open spec fn dec_rep(n: int) -> Seq<char>
    decreases n,
{
    if n < 10 {
        seq![digit_char(n)]
    } else {
        dec_rep(n / 10).push(digit_char(n % 10))
    }
}

/// The one-character string of a decimal digit.
fn digit_str(d: u16) -> (r: &'static str)
    requires
        d < 10,
    ensures
        r@ == seq![digit_char(d as int)],
{
    proof {
        reveal_strlit("0");
        reveal_strlit("1");
        reveal_strlit("2");
        reveal_strlit("3");
        reveal_strlit("4");
        reveal_strlit("5");
        reveal_strlit("6");
        reveal_strlit("7");
        reveal_strlit("8");
        reveal_strlit("9");
    }
    let r = match d {
        0 => "0",
        1 => "1",
        2 => "2",
        3 => "3",
        4 => "4",
        5 => "5",
        6 => "6",
        7 => "7",
        8 => "8",
        _ => "9",
    };
    proof {
        assert(r@ =~= seq![digit_char(d as int)]);
    }
    r
}

/// The decimal representation of a number, as a string.
fn u16_to_string(n: u16) -> (r: String)
    ensures
        r@ == dec_rep(n as int),
    decreases n,
{
    if n < 10 {
        String::from_str(digit_str(n))
    } else {
        let mut r = u16_to_string(n / 10);
        r.append(digit_str(n % 10));
        proof {
            assert(r@ =~= dec_rep(n as int));
        }
        r
    }
}

/// Appends a byte slice to a byte vector.
fn push_bytes(dst: &mut Vec<u8>, src: &[u8])
    ensures
        final(dst)@ == old(dst)@ + src@,
{
    let n = src.len();
    let mut i: usize = 0;
    while i < n
        invariant
            i <= n,
            n == src@.len(),
            dst@ == old(dst)@ + src@.subrange(0, i as int),
        decreases n - i,
    {
        dst.push(src[i]);
        proof {
            assert(dst@ =~= old(dst)@ + src@.subrange(0, i as int + 1));
        }
        i += 1;
    }
    proof {
        assert(dst@ =~= old(dst)@ + src@);
    }
}

/// The status line of a response, built from the code's decimal digits and its
/// canonical reason phrase.
pub open spec fn spec_status_line(code: u16) -> Seq<char> {
    "HTTP/1.1 "@ + dec_rep(code as int) + " "@ + status_reason(code)->0 + "\r\n"@
}

/// The whole Not Implemented response: its status line and a blank line.
pub open spec fn spec_not_implemented_message() -> Seq<u8> {
    vstd::utf8::encode_utf8(spec_status_line(501) + "\r\n"@)
}

/// The whole Not Found response: its status line, a blank line, and either the
/// configured not-found page or the literal fallback body.
pub open spec fn spec_not_found_message(page: Option<Seq<u8>>) -> Seq<u8> {
    match page {
        Some(p) => vstd::utf8::encode_utf8(spec_status_line(404) + "\r\n"@) + p,
        None => vstd::utf8::encode_utf8(
            spec_status_line(404) + "\r\n"@ + "404 - Page not found"@,
        ),
    }
}

/// The whole OK response: its status line, a `Content-Type` header, a blank
/// line, and the content bytes.
pub open spec fn spec_ok_message(kind: MimeKind, content: Seq<u8>) -> Seq<u8> {
    vstd::utf8::encode_utf8(spec_status_line(200) + spec_content_type(kind) + "\r\n"@) + content
}

/// What a URI names once its leading path separator is stripped.
pub open spec fn spec_strip_separator(uri: Seq<char>) -> Seq<char> {
    if uri.len() == 0 {
        uri
    } else {
        uri.drop_first()
    }
}

/// The response owed to a GET request, given the content collaborator's two
/// possible answers: the content of the stripped URI, and the not-found page.
pub open spec fn spec_get_response(
    uri: Seq<char>,
    content: Option<Seq<u8>>,
    page: Option<Seq<u8>>,
) -> Seq<u8> {
    match content {
        Some(c) => spec_ok_message(spec_mime_kind(spec_extension(spec_strip_separator(uri))), c),
        None => spec_not_found_message(page),
    }
}

/// Trait for an HTTP connection used by the server to handle requests.
/// Implementations own the transport: they read each request's bytes, hand
/// them to the callback, and send back the bytes the callback returns.
pub trait Connection {
    /// Loops over the input connection and handles incoming data with the
    /// provided callback. The callback takes one request buffer and returns
    /// the response bytes, or a [`ServerError`] when the buffer is rejected.
    fn listen<F: 'static + Copy + Fn(&[u8]) -> Result<Message, ServerError> + Send + Sync>(
        &self,
        callback: F,
    );
}

/// HTTP server implementation: one connection, one content-loading
/// collaborator, and the verified request handling between them.
pub struct Server<T, L> where T: Connection, L: Fn(String) -> Option<Message> {
    /// Connection used to receive requests and send responses.
    connection: T,
    /// Content-loading collaborator: returns the bytes a path names, or
    /// nothing when the path cannot be resolved.
    loader: L,
}

impl<T, L> Server<T, L> where
    T: Connection,
    L: Fn(String) -> Option<Message> + Copy + Send + Sync + 'static,
 {
    /// A server is well-formed when its loader accepts every path.
    pub closed spec fn wf(&self) -> bool {
        forall|u: String| call_requires(self.loader, (u,))
    }

    /// Returns a new [`Server`] using the provided connection and content
    /// loader.
    pub fn new(connection: T, loader: L) -> (s: Server<T, L>)
        requires
            forall|u: String| call_requires(loader, (u,)),
        ensures
            s.wf(),
    {
        Server { connection, loader }
    }

    /// Starts listening to incoming HTTP requests.
    pub fn run(&self)
        requires
            self.wf(),
    {
        let loader = self.loader;
        self.connection.listen(
            move |request: &[u8]| -> (r: Result<Message, ServerError>)
                {
                    Self::request_handler(request, &loader)
                },
        );
    }

    /// Handles one HTTP request buffer: rejects buffers that are not UTF-8,
    /// answers unparsable requests with a Not Implemented response, and
    /// answers GET requests from the content loader.
    pub fn request_handler(request: &[u8], loader: &L) -> (r: Result<Message, ServerError>)
        requires
            forall|u: String| call_requires(*loader, (u,)),
        ensures
            r is Err <==> !valid_utf8(request@),
            r matches Err(e) ==> e.spec_msg()
                == "Unable to convert request to utf8 format. Request rejected"@,
            valid_utf8(request@) ==> (r matches Ok(m) && {
                match spec_parse_request_line(decode_utf8(request@)) {
                    None => m@ == spec_not_implemented_message(),
                    Some(t) => spec_get_contract(*loader, t.1, m@),
                }
            }),
    {
        let s = match bytes_to_str(request) {
            Some(s) => s,
            None => {
                return Err(
                    ServerError::new("Unable to convert request to utf8 format. Request rejected"),
                );
            },
        };
        match HttpRequest::from_str(s) {
            Err(_) => Ok(Self::build_not_implemented_response()),
            Ok(http_request) => match http_request.line.method {
                HttpMethod::Get => Self::handle_get_request(&http_request, loader),
            },
        }
    }

    /// Handles a GET request: resolves the stripped URI through the content
    /// loader and builds the OK or Not Found response.
    pub fn handle_get_request(request: &HttpRequest, loader: &L) -> (r: Result<
        Message,
        ServerError,
    >)
        requires
            forall|u: String| call_requires(*loader, (u,)),
        ensures
            r matches Ok(m) && spec_get_contract(*loader, request.line.uri@, m@),
    {
        let path = strip_separator(&request.line.uri);
        let kind = find_mimetype(path.as_str());
        match loader(path) {
            Some(content) => Ok(Self::build_ok_response(&kind, content)),
            None => {
                let page = loader(String::from_str("404.html"));
                Ok(Self::build_not_found_response(page))
            },
        }
    }

    /// Builds the OK response for content of the given MIME kind.
    pub fn build_ok_response(kind: &MimeKind, content: Message) -> (m: Message)
        ensures
            m@ == spec_ok_message(*kind, content@),
    {
        let mut head = match Self::build_http_response(200) {
            Ok(line) => line,
            // Unreachable: 200 is always in the reason table.
            Err(_) => String::new(),
        };
        let content_type = build_content_type(kind);
        head.append(content_type.as_str());
        head.append("\r\n");
        proof {
            assert(head@ =~= spec_status_line(200) + spec_content_type(*kind) + "\r\n"@);
        }
        let mut message = head.as_str().as_bytes_vec();
        push_bytes(&mut message, content.as_slice());
        message
    }

    /// Generates a Not Implemented response.
    pub fn build_not_implemented_response() -> (m: Message)
        ensures
            m@ == spec_not_implemented_message(),
    {
        match Self::build_http_response(501) {
            Ok(line) => {
                let mut head = line;
                head.append("\r\n");
                proof {
                    assert(head@ =~= spec_status_line(501) + "\r\n"@);
                }
                head.as_str().as_bytes_vec()
            },
            // Unreachable: 501 is always in the reason table.
            Err(_) => Vec::new(),
        }
    }

    /// Generates a Not Found response: embeds the user-defined not-found page
    /// when one is given, else falls back to a literal body.
    pub fn build_not_found_response(page: Option<Message>) -> (m: Message)
        ensures
            m@ == spec_not_found_message(page.deep_view()),
    {
        let head = match Self::build_http_response(404) {
            Ok(line) => line,
            // Unreachable: 404 is always in the reason table.
            Err(_) => String::new(),
        };
        match page {
            Some(content) => {
                let mut head = head;
                head.append("\r\n");
                proof {
                    assert(head@ =~= spec_status_line(404) + "\r\n"@);
                }
                let mut message = head.as_str().as_bytes_vec();
                push_bytes(&mut message, content.as_slice());
                message
            },
            None => {
                let mut head = head;
                head.append("\r\n404 - Page not found");
                proof {
                    assert(head@ =~= spec_status_line(404) + "\r\n"@ + "404 - Page not found"@)
                        by {
                        reveal_strlit("\r\n404 - Page not found");
                        reveal_strlit("\r\n");
                        reveal_strlit("404 - Page not found");
                        assert(("\r\n404 - Page not found"@) =~= "\r\n"@
                            + "404 - Page not found"@);
                    }
                }
                head.as_str().as_bytes_vec()
            },
        }
    }

    /// Builds an HTTP status line for the code, using its canonical reason
    /// phrase; fails exactly when the code is not in the reason table.
    pub fn build_http_response(status_code: u16) -> (r: Result<String, ServerError>)
        ensures
            r is Ok <==> status_reason(status_code) is Some,
            r matches Ok(s) ==> s@ == spec_status_line(status_code),
            r matches Err(e) ==> e.spec_msg() == "Unknown status code"@,
            status_code == 200 ==> r is Ok && status_reason(200) == Some("OK"@),
            status_code == 404 ==> r is Ok && status_reason(404) == Some("Not Found"@),
            status_code == 501 ==> r is Ok && status_reason(501) == Some("Not Implemented"@),
    {
        match lookup_reason(status_code) {
            None => Err(ServerError::new("Unknown status code")),
            Some(reason) => {
                let mut line = String::from_str("HTTP/1.1 ");
                let digits = u16_to_string(status_code);
                line.append(digits.as_str());
                line.append(" ");
                line.append(reason.as_str());
                line.append("\r\n");
                proof {
                    assert(line@ =~= spec_status_line(status_code));
                }
                Ok(line)
            },
        }
    }
}

/// What the server owes a GET request for `uri`, over the loader's contract:
/// some answer of the loader for the stripped URI explains the message, and
/// where that answer is empty, some answer for the not-found page does.
pub open spec fn spec_get_contract<L: Fn(String) -> Option<Message>>(
    loader: L,
    uri: Seq<char>,
    m: Seq<u8>,
) -> bool {
    exists|u: String, c: Option<Message>|
        {
            &&& u@ == spec_strip_separator(uri)
            &&& #[trigger] call_ensures(loader, (u,), c)
            &&& match c {
                Some(content) => m == spec_get_response(uri, Some(content@), None),
                None => exists|u2: String, page: Option<Message>|
                    {
                        &&& u2@ == "404.html"@
                        &&& #[trigger] call_ensures(loader, (u2,), page)
                        &&& m == spec_get_response(uri, None, page.deep_view())
                    },
            }
        }
}

/// Strips the leading path separator from a URI: what follows its first
/// character, or the empty string when the URI is empty.
fn strip_separator(uri: &String) -> (r: String)
    ensures
        r@ == spec_strip_separator(uri@),
{
    let n = uri.as_str().unicode_len();
    if n == 0 {
        String::new()
    } else {
        let r = uri.as_str().substring_char(1, n).to_owned();
        proof {
            assert(r@ =~= spec_strip_separator(uri@));
        }
        r
    }
}

} // verus!
