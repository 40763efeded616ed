//! The HTTP request-line model: method, URI and version, parsed from the
//! first line of a raw request buffer.
use vstd::prelude::*;

verus! {

/// Error returned when HTTP request parsing fails.
#[derive(Debug, Clone)]
pub struct HttpRequestError {
    msg: String,
}

impl HttpRequestError {
    /// The error message carried by this error.
    pub closed spec fn spec_msg(&self) -> Seq<char> {
        self.msg@
    }

    /// Creates a new [`HttpRequestError`] carrying the given message.
    pub fn new(msg: &str) -> (e: HttpRequestError)
        ensures
            e.spec_msg() == msg@,
    {
        HttpRequestError { msg: msg.to_owned() }
    }

    /// The error message, for callers that report the failure.
    pub fn message(&self) -> (m: &str)
        ensures
            m@ == self.spec_msg(),
    {
        self.msg.as_str()
    }
}

/// HTTP method (only GET is modeled).
#[derive(Debug, Clone, Copy, PartialEq, Eq, Structural)]
pub enum HttpMethod {
    Get,
}

impl HttpMethod {
    /// Creates an [`HttpMethod`] from the method token of a request line.
    /// Only `GET` is recognized; every other token is rejected.
    pub fn from_str(s: &str) -> (r: Result<HttpMethod, HttpRequestError>)
        ensures
            r is Ok <==> s@ == "GET"@,
            r matches Ok(m) ==> m == HttpMethod::Get,
            r matches Err(e) ==> e.spec_msg() == "Unknown http method"@,
    {
        if str_eq(s, "GET") {
            Ok(HttpMethod::Get)
        } else {
            Err(HttpRequestError::new("Unknown http method"))
        }
    }
}

/// HTTP protocol version (only HTTP/1.1 is modeled).
#[derive(Debug, Clone, Copy, PartialEq, Eq, Structural)]
pub enum HttpVersion {
    V11,
}

impl HttpVersion {
    /// Creates an [`HttpVersion`] from the version token of a request line.
    /// Only `HTTP/1.1` is recognized; every other token is rejected.
    pub fn from_str(s: &str) -> (r: Result<HttpVersion, HttpRequestError>)
        ensures
            r is Ok <==> s@ == "HTTP/1.1"@,
            r matches Ok(v) ==> v == HttpVersion::V11,
            r matches Err(e) ==> e.spec_msg() == "Unknown http version"@,
    {
        if str_eq(s, "HTTP/1.1") {
            Ok(HttpVersion::V11)
        } else {
            Err(HttpRequestError::new("Unknown http version"))
        }
    }
}

/// An uppercase letter, as the method token is made of.
pub open spec fn is_upper(c: char) -> bool {
    65 <= (c as u32) && (c as u32) <= 90
}

/// A digit or a dot, as the version token is made of after `HTTP/`.
pub open spec fn is_version_char(c: char) -> bool {
    (c as u32) == 46 || (48 <= (c as u32) && (c as u32) <= 57)
}

/// Where the run of uppercase letters that starts at `i` ends.
pub open spec fn upper_run_end(s: Seq<char>, i: int) -> int
    decreases s.len() - i,
{
    if 0 <= i < s.len() && is_upper(s[i]) {
        upper_run_end(s, i + 1)
    } else {
        i
    }
}

/// Where the run of version characters that starts at `i` ends.
pub open spec fn version_run_end(s: Seq<char>, i: int) -> int
    decreases s.len() - i,
{
    if 0 <= i < s.len() && is_version_char(s[i]) {
        version_run_end(s, i + 1)
    } else {
        i
    }
}

/// A space at `j` followed by the literal `HTTP/`: the start of a
/// space-delimited version token.
pub open spec fn is_version_mark(s: Seq<char>, j: int) -> bool {
    &&& 0 <= j
    &&& j + 6 <= s.len()
    &&& s[j] == ' '
    &&& s[j + 1] == 'H'
    &&& s[j + 2] == 'T'
    &&& s[j + 3] == 'T'
    &&& s[j + 4] == 'P'
    &&& s[j + 5] == '/'
}

/// The last version mark at or before `k`, if any.
pub open spec fn last_mark_from(s: Seq<char>, k: int) -> Option<int>
    decreases k,
{
    if k < 0 {
        None
    } else if is_version_mark(s, k) {
        Some(k)
    } else if k == 0 {
        None
    } else {
        last_mark_from(s, k - 1)
    }
}

/// Splits a request line into its method, URI and version tokens.
///
/// The line matches `METHOD SP URI SP VERSION`: the method is the leading run
/// of one or more uppercase letters, the version token is `HTTP/` followed by
/// the run of digits and dots after the last space-delimited `HTTP/`, and the
/// URI is everything in between.
pub open spec fn spec_request_tokens(s: Seq<char>) -> Option<(Seq<char>, Seq<char>, Seq<char>)> {
    let m = upper_run_end(s, 0);
    if !(1 <= m && m < s.len() && s[m] == ' ') {
        None
    } else {
        match last_mark_from(s, s.len() - 1) {
            None => None,
            Some(j) => if j <= m {
                None
            } else {
                Some(
                    (
                        s.subrange(0, m),
                        s.subrange(m + 1, j),
                        s.subrange(j + 1, version_run_end(s, j + 6)),
                    ),
                )
            },
        }
    }
}

/// The parse of a request line: the grammar must match, the method token must
/// be `GET` and the version token must be `HTTP/1.1`.
pub open spec fn spec_parse_request_line(s: Seq<char>) -> Option<(HttpMethod, Seq<char>, HttpVersion)> {
    match spec_request_tokens(s) {
        None => None,
        Some(tokens) => if tokens.0 == "GET"@ && tokens.2 == "HTTP/1.1"@ {
            Some((HttpMethod::Get, tokens.1, HttpVersion::V11))
        } else {
            None
        },
    }
}

/// The message a failed parse carries: one for a line the grammar rejects,
/// one for an unrecognized method token, one for an unrecognized version
/// token (the method is checked first).
pub open spec fn spec_parse_error_message(s: Seq<char>) -> Seq<char> {
    match spec_request_tokens(s) {
        None => "No captures found when parsing Http request"@,
        Some(tokens) => if tokens.0 != "GET"@ {
            "Unknown http method"@
        } else {
            "Unknown http version"@
        },
    }
}

/// Stores HTTP request line information.
#[derive(Debug)]
pub struct HttpRequestLine {
    pub method: HttpMethod,
    pub uri: String,
    pub version: HttpVersion,
}

impl HttpRequestLine {
    /// Creates an [`HttpRequestLine`] from a string holding the complete
    /// request line, exactly when [`spec_parse_request_line`] accepts it.
    pub fn from_str(s: &str) -> (r: Result<HttpRequestLine, HttpRequestError>)
        ensures
            r is Ok <==> spec_parse_request_line(s@) is Some,
            r matches Ok(line) ==> {
                &&& spec_parse_request_line(s@) matches Some(t)
                &&& line.method == t.0
                &&& line.uri@ == t.1
                &&& line.version == t.2
            },
            r matches Err(e) ==> e.spec_msg() == spec_parse_error_message(s@),
    {
        let n = s.unicode_len();
        // The method token: the leading run of uppercase letters.
        let mut m: usize = 0;
        while m < n && is_upper_exec(s.get_char(m))
            invariant
                m <= n,
                n == s@.len(),
                upper_run_end(s@, 0) == upper_run_end(s@, m as int),
                forall|k: int| 0 <= k < m ==> is_upper(s@[k]),
            decreases n - m,
        {
            m += 1;
        }
        assert(upper_run_end(s@, 0) == m as int);
        if m == 0 || m >= n || s.get_char(m) != ' ' {
            return Err(HttpRequestError::new("No captures found when parsing Http request"));
        }
        // The version token: the last space followed by `HTTP/`.
        let mut k: usize = n;
        let mut found: Option<usize> = None;
        while k > 0 && found.is_none()
            invariant
                k <= n,
                n == s@.len(),
                match found {
                    None => last_mark_from(s@, n as int - 1) == last_mark_from(s@, k as int - 1),
                    Some(j) => is_version_mark(s@, j as int) && last_mark_from(s@, n as int - 1)
                        == Some(j as int),
                },
            decreases k,
        {
            k -= 1;
            if version_mark_at(s, k, n) {
                found = Some(k);
            }
        }
        let j = match found {
            Some(j) => j,
            None => {
                return Err(HttpRequestError::new("No captures found when parsing Http request"));
            },
        };
        if j <= m {
            return Err(HttpRequestError::new("No captures found when parsing Http request"));
        }
        // The end of the run of digits and dots after `HTTP/`.
        assert(j + 6 <= n);
        let mut e: usize = j + 6;
        while e < n && is_version_char_exec(s.get_char(e))
            invariant
                j + 6 <= e <= n,
                n == s@.len(),
                version_run_end(s@, j as int + 6) == version_run_end(s@, e as int),
            decreases n - e,
        {
            e += 1;
        }
        assert(version_run_end(s@, j as int + 6) == e as int);
        let method = match HttpMethod::from_str(s.substring_char(0, m)) {
            Ok(method) => method,
            Err(e) => {
                return Err(e);
            },
        };
        let version = match HttpVersion::from_str(s.substring_char(j + 1, e)) {
            Ok(version) => version,
            Err(e) => {
                return Err(e);
            },
        };
        Ok(HttpRequestLine { method, uri: s.substring_char(m + 1, j).to_owned(), version })
    }
}

/// An HTTP header block. Headers are read into the request buffer but never
/// parsed or used by the core, so a parsed request carries none.
#[derive(Debug)]
pub struct HttpRequestHeader {}

/// An HTTP request body. Bodies are read into the request buffer but never
/// parsed or used by the core, so a parsed request carries none.
#[derive(Debug)]
pub struct HttpRequestBody {}

/// Stores full HTTP request content. Only the request line is parsed; the
/// header and body are read into the buffer but never interpreted.
#[derive(Debug)]
pub struct HttpRequest {
    pub line: HttpRequestLine,
    pub header: Option<HttpRequestHeader>,
    pub body: Option<HttpRequestBody>,
}

impl HttpRequest {
    /// Creates an [`HttpRequest`] from a string holding the complete request.
    /// Succeeds exactly when the request line parses.
    pub fn from_str(s: &str) -> (r: Result<HttpRequest, HttpRequestError>)
        ensures
            r is Ok <==> spec_parse_request_line(s@) is Some,
            r matches Ok(req) ==> {
                &&& spec_parse_request_line(s@) matches Some(t)
                &&& req.line.method == t.0
                &&& req.line.uri@ == t.1
                &&& req.line.version == t.2
                &&& req.header is None
                &&& req.body is None
            },
            r matches Err(e) ==> e.spec_msg() == spec_parse_error_message(s@),
    {
        let line = match HttpRequestLine::from_str(s) {
            Ok(line) => line,
            Err(e) => {
                return Err(e);
            },
        };
        Ok(HttpRequest { line, header: None, body: None })
    }
}

/// Whether the character is an uppercase letter.
fn is_upper_exec(c: char) -> (b: bool)
    ensures
        b == is_upper(c),
{
    let u = c as u32;
    65 <= u && u <= 90
}

/// Whether the character is a digit or a dot.
fn is_version_char_exec(c: char) -> (b: bool)
    ensures
        b == is_version_char(c),
{
    let u = c as u32;
    u == 46 || (48 <= u && u <= 57)
}

/// Whether a version mark (a space followed by `HTTP/`) stands at `k`.
fn version_mark_at(s: &str, k: usize, n: usize) -> (b: bool)
    requires
        k < n,
        n == s@.len(),
    ensures
        b == is_version_mark(s@, k as int),
{
    if n - k < 6 {
        return false;
    }
    s.get_char(k) == ' ' && s.get_char(k + 1) == 'H' && s.get_char(k + 2) == 'T' && s.get_char(
        k + 3,
    ) == 'T' && s.get_char(k + 4) == 'P' && s.get_char(k + 5) == '/'
}

/// Compares two string slices character by character.
pub(crate) fn str_eq(s: &str, t: &str) -> (b: bool)
    ensures
        b == (s@ == t@),
{
    let n = s.unicode_len();
    if n != t.unicode_len() {
        return false;
    }
    let mut i: usize = 0;
    while i < n
        invariant
            i <= n,
            n == s@.len(),
            n == t@.len(),
            forall|k: int| 0 <= k < i ==> s@[k] == t@[k],
        decreases n - i,
    {
        if s.get_char(i) != t.get_char(i) {
            return false;
        }
        i += 1;
    }
    proof {
        assert(s@ =~= t@);
    }
    true
}

} // verus!
