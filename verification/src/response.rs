use vstd::prelude::*;
use vstd::string::*;

verus! {

/// Why a Lua value could not become an HTTP response.
#[derive(Debug, Clone, PartialEq, Eq)]
pub enum ResponseError {
    /// A header name that HTTP does not accept.
    InvalidHeaderName,
    /// A header value holding a control character other than tab.
    InvalidHeaderValue,
    /// A status code outside `100..=999`.
    InvalidStatus(u16),
    /// The handler returned neither a string nor a table; holds the Lua type
    /// name of what it returned.
    NotAResponse(String),
}

/// How a response was given by the Lua handler.
#[derive(Debug, Clone, Copy, PartialEq, Eq)]
pub enum LuaResponseKind {
    /// A plain string: the body of a `200 text/plain` response.
    PlainText,
    /// A table with optional `status`, `headers` and `body` fields.
    Table,
}

/// What a Lua request handler returned, as the values that the response
/// logic reads.
#[derive(Debug, Clone)]
pub enum LuaResponseValue {
    /// A Lua string, as its bytes.
    Text(Vec<u8>),
    /// A Lua table: its `status`, its `headers` (name and value of each entry,
    /// in the order the table is walked) and its `body`.
    Table {
        status: Option<u16>,
        headers: Option<Vec<(String, Vec<u8>)>>,
        body: Option<Vec<u8>>,
    },
    /// Any other Lua value, by its type name.
    Other(String),
}

/// A response given by a Lua handler, with validated headers.
#[derive(Debug, Clone)]
pub struct LuaResponse {
    pub kind: LuaResponseKind,
    pub status: u16,
    pub headers: Vec<(String, Vec<u8>)>,
    pub body: Option<Vec<u8>>,
}

/// The parts of the HTTP response that is sent back to the web view.
#[derive(Debug, Clone)]
pub struct ResponseParts {
    pub status: u16,
    pub headers: Vec<(String, Vec<u8>)>,
    pub body: Vec<u8>,
}

/// Whether HTTP accepts the byte `b` in a header value: a visible character,
/// a space, a tab, or a byte above 127.
pub open spec fn valid_header_byte(b: u8) -> bool {
    (b >= 32 && b != 127) || b == 9
}

/// Whether HTTP accepts `v` as a header value.
pub open spec fn valid_header_value(v: Seq<u8>) -> bool {
    forall|i: int| 0 <= i < v.len() ==> valid_header_byte(#[trigger] v[i])
}

/// Whether `c` is a token character of HTTP: a letter, a digit, or one of
/// ``! # $ % & ' * + - . ^ _ ` | ~``.
pub open spec fn is_token_char(c: char) -> bool {
    ||| ('a' <= c <= 'z')
    ||| ('A' <= c <= 'Z')
    ||| ('0' <= c <= '9')
    ||| c == '!' || c == '#' || c == '$' || c == '%' || c == '&' || c == '\''
    ||| c == '*' || c == '+' || c == '-' || c == '.' || c == '^' || c == '_'
    ||| c == '`' || c == '|' || c == '~'
}

/// Whether HTTP accepts `name` as a header name: 1 to 65535 token
/// characters.
pub open spec fn valid_header_name(name: Seq<char>) -> bool {
    &&& 1 <= name.len() <= 65535
    &&& forall|i: int| 0 <= i < name.len() ==> is_token_char(#[trigger] name[i])
}

/// `c` with an ASCII capital letter turned into its small letter.
pub open spec fn ascii_lower(c: char) -> char {
    if 'A' <= c <= 'Z' {
        ((c as u32) + 32) as char
    } else {
        c
    }
}

/// `name` in ASCII lower case.
pub open spec fn lowered(name: Seq<char>) -> Seq<char> {
    name.map_values(|c: char| ascii_lower(c))
}

/// Parses a header name with `http::HeaderName::from_str`, and gives back the
/// normalized name (`HeaderName::as_str`).
///
/// Trusted: the call succeeds exactly for 1 to 65535 token characters (its
/// `HEADER_CHARS` table maps every other byte, and every byte of a
/// non-ASCII character, to 0, and `parse_hdr` refuses the length 0 and every
/// length above `MAX_HEADER_NAME_LEN`), and the name it keeps is the given
/// one in ASCII lower case (the table maps `A` to `Z` to `a` to `z`; the
/// standard headers it recognizes are spelled in lower case).
#[verifier::external_body]
fn parse_header_name(name: &str) -> (res: Option<String>)
    ensures
        res is Some <==> valid_header_name(name@),
        res matches Some(n) ==> n@ == lowered(name@),
{
    match name.parse::<http::HeaderName>() {
        Ok(n) => Some(n.as_str().to_string()),
        Err(_) => None,
    }
}

/// Checks a header value with `http::HeaderValue::from_bytes`.
///
/// Trusted: the call succeeds exactly when every byte is a tab or at least 32
/// and not 127 (its `is_valid`), and the value keeps the bytes it was given.
#[verifier::external_body]
fn parse_header_value(value: &[u8]) -> (res: Option<Vec<u8>>)
    ensures
        res is Some <==> valid_header_value(value@),
        res matches Some(v) ==> v@ == value@,
{
    match http::HeaderValue::from_bytes(value) {
        Ok(v) => Some(v.as_bytes().to_vec()),
        Err(_) => None,
    }
}

/// Checks a status code with `http::StatusCode::from_u16`.
///
/// Trusted: the call succeeds exactly for `100..=999`, as its documentation
/// and source say.
#[verifier::external_body]
fn status_is_valid(code: u16) -> (res: bool)
    ensures
        res == (100 <= code <= 999),
{
    http::StatusCode::from_u16(code).is_ok()
}

/// The header that one Lua entry gives, or why it is refused.
pub open spec fn checked_header(entry: (Seq<char>, Seq<u8>)) -> Result<(Seq<char>, Seq<u8>), ResponseError> {
    if !valid_header_name(entry.0) {
        Err(ResponseError::InvalidHeaderName)
    } else if !valid_header_value(entry.1) {
        Err(ResponseError::InvalidHeaderValue)
    } else {
        Ok((lowered(entry.0), entry.1))
    }
}

/// The headers that the Lua entries give, in order, or the error of the
/// first entry that is refused.
pub open spec fn checked_headers(entries: Seq<(Seq<char>, Seq<u8>)>) -> Result<Seq<(Seq<char>, Seq<u8>)>, ResponseError>
    decreases entries.len(),
{
    if entries.len() == 0 {
        Ok(Seq::empty())
    } else {
        match checked_headers(entries.drop_last()) {
            Err(e) => Err(e),
            Ok(done) => match checked_header(entries.last()) {
                Err(e) => Err(e),
                Ok(h) => Ok(done.push(h)),
            },
        }
    }
}

/// The headers that an optional `headers` field gives: none when the field
/// is absent.
pub open spec fn headers_outcome(headers: Option<Vec<(String, Vec<u8>)>>) -> Result<Seq<(Seq<char>, Seq<u8>)>, ResponseError> {
    match headers {
        None => Ok(Seq::empty()),
        Some(h) => checked_headers(h.deep_view()),
    }
}

/// Every accepted header keeps the value bytes that the Lua table gave and
/// the name it gave, in ASCII lower case, in the order of the entries; a
/// name or a value that HTTP refuses makes the whole table refused.
pub proof fn law_headers_keep_values(entries: Seq<(Seq<char>, Seq<u8>)>)
    ensures
        checked_headers(entries) matches Ok(v) ==> {
            &&& v.len() == entries.len()
            &&& forall|k: int| 0 <= k < v.len() ==> (#[trigger] v[k]).1 == entries[k].1
            &&& forall|k: int| 0 <= k < v.len() ==> (#[trigger] v[k]).0.len() == entries[k].0.len()
            &&& forall|k: int, i: int| 0 <= k < v.len() && 0 <= i < v[k].0.len() ==>
                (#[trigger] v[k].0[i]) == (if 'A' <= entries[k].0[i] <= 'Z' {
                    ((entries[k].0[i] as u32) + 32) as char
                } else {
                    entries[k].0[i]
                })
        },
        (exists|k: int| 0 <= k < entries.len() && (#[trigger] entries[k]).0.len() == 0)
            ==> checked_headers(entries) is Err,
        (exists|k: int, i: int| 0 <= k < entries.len() && 0 <= i < entries[k].1.len()
            && (#[trigger] entries[k].1[i]) < 32 && entries[k].1[i] != 9)
            ==> checked_headers(entries) is Err,
    decreases entries.len(),
{
    if entries.len() > 0 {
        let rest = entries.drop_last();
        law_headers_keep_values(rest);
        let n = entries.len() - 1;
        if checked_headers(entries) is Ok {
            let v = checked_headers(entries)->Ok_0;
            let w = checked_headers(rest)->Ok_0;
            assert(v == w.push(checked_header(entries.last())->Ok_0));
            assert forall|k: int| 0 <= k < v.len() implies (#[trigger] v[k]).1 == entries[k].1 by {
                if k < n {
                    assert(rest[k] == entries[k]);
                }
            }
            assert forall|k: int| 0 <= k < v.len() implies (#[trigger] v[k]).0.len() == entries[k].0.len() by {
                if k < n {
                    assert(rest[k] == entries[k]);
                }
            }
            assert forall|k: int, i: int| 0 <= k < v.len() && 0 <= i < v[k].0.len() implies
                (#[trigger] v[k].0[i]) == (if 'A' <= entries[k].0[i] <= 'Z' {
                    ((entries[k].0[i] as u32) + 32) as char
                } else {
                    entries[k].0[i]
                }) by {
                if k < n {
                    assert(rest[k] == entries[k]);
                    assert(v[k] == w[k]);
                }
            }
        }
        if exists|k: int| 0 <= k < entries.len() && (#[trigger] entries[k]).0.len() == 0 {
            let k = choose|k: int| 0 <= k < entries.len() && (#[trigger] entries[k]).0.len() == 0;
            if k < n {
                assert(rest[k] == entries[k]);
            }
        }
        if exists|k: int, i: int| 0 <= k < entries.len() && 0 <= i < entries[k].1.len()
            && (#[trigger] entries[k].1[i]) < 32 && entries[k].1[i] != 9 {
            let (k, i) = choose|k: int, i: int| 0 <= k < entries.len() && 0 <= i < entries[k].1.len()
                && (#[trigger] entries[k].1[i]) < 32 && entries[k].1[i] != 9;
            if k < n {
                assert(rest[k] == entries[k]);
            } else {
                assert(!valid_header_byte(entries.last().1[i]));
            }
        }
    }
}

/// Validates the header entries of a Lua response table, in order; no table
/// gives no headers.
pub fn lua_table_to_headers(headers: Option<Vec<(String, Vec<u8>)>>) -> (res: Result<Vec<(String, Vec<u8>)>, ResponseError>)
    ensures
        match headers_outcome(headers) {
            Ok(expected) => res matches Ok(v) && v.deep_view() == expected,
            Err(e) => res == Err::<Vec<(String, Vec<u8>)>, ResponseError>(e),
        },
{
    let mut out: Vec<(String, Vec<u8>)> = Vec::new();
    match headers {
        None => {
            assert(out.deep_view() =~= Seq::<(Seq<char>, Seq<u8>)>::empty());
            Ok(out)
        },
        Some(h) => {
            let n = h.len();
            let mut i: usize = 0;
            assert(h.deep_view().take(0) =~= Seq::<(Seq<char>, Seq<u8>)>::empty());
            assert(out.deep_view() =~= Seq::<(Seq<char>, Seq<u8>)>::empty());
            while i < n
                invariant
                    n == h.len(),
                    0 <= i <= n,
                    headers == Some(h),
                    checked_headers(h.deep_view().take(i as int)) == Ok::<Seq<(Seq<char>, Seq<u8>)>, ResponseError>(out.deep_view()),
                decreases n - i,
            {
                let ghost before = h.deep_view().take(i as int);
                let ghost upto = h.deep_view().take(i + 1);
                assert(upto.drop_last() =~= before);
                assert(upto.last() == h.deep_view()[i as int]);
                assert(h.deep_view()[i as int] == (h[i as int].0@, h[i as int].1@));
                let name = parse_header_name(h[i].0.as_str());
                match name {
                    None => {
                        proof { lemma_checked_headers_stuck(h.deep_view(), i as int); }
                        return Err(ResponseError::InvalidHeaderName);
                    },
                    Some(name) => {
                        let value = parse_header_value(h[i].1.as_slice());
                        match value {
                            None => {
                                proof { lemma_checked_headers_stuck(h.deep_view(), i as int); }
                                return Err(ResponseError::InvalidHeaderValue);
                            },
                            Some(value) => {
                                let ghost prev = out.deep_view();
                                out.push((name, value));
                                assert(out.deep_view() =~= prev.push(checked_header(h.deep_view()[i as int])->Ok_0));
                            },
                        }
                    },
                }
                i = i + 1;
            }
            assert(h.deep_view().take(n as int) =~= h.deep_view());
            Ok(out)
        },
    }
}

/// Once an entry is refused, every longer prefix is refused with the same
/// error.
proof fn lemma_checked_headers_stuck(entries: Seq<(Seq<char>, Seq<u8>)>, i: int)
    requires
        0 <= i < entries.len(),
        checked_headers(entries.take(i)) is Ok,
        checked_header(entries[i]) is Err,
    ensures
        checked_headers(entries) == Err::<Seq<(Seq<char>, Seq<u8>)>, ResponseError>(checked_header(entries[i])->Err_0),
    decreases entries.len() - i,
{
    let k = entries.len() - 1;
    if i == k {
        assert(entries.drop_last() =~= entries.take(i));
    } else {
        assert(entries.drop_last().take(i) =~= entries.take(i));
        assert(entries.drop_last()[i] == entries[i]);
        lemma_checked_headers_stuck(entries.drop_last(), i);
    }
}


/// The bytes of `text/plain`.
pub open spec fn text_plain() -> Seq<u8> {
    seq![116u8, 101u8, 120u8, 116u8, 47u8, 112u8, 108u8, 97u8, 105u8, 110u8]
}

impl LuaResponse {
    /// Reads the value that a Lua request handler returned: a string is the
    /// body of a plain text response with status 200; a table gives its
    /// `status` (200 when absent), its `headers` (checked) and its `body`;
    /// anything else is refused.
    pub fn from_lua(value: LuaResponseValue) -> (res: Result<LuaResponse, ResponseError>)
        ensures
            match value {
                LuaResponseValue::Text(bytes) => res matches Ok(r) && {
                    &&& r.kind == LuaResponseKind::PlainText
                    &&& r.status == 200
                    &&& r.headers@.len() == 0
                    &&& r.body == Some(bytes)
                },
                LuaResponseValue::Table { status, headers, body } => match headers_outcome(headers) {
                    Err(e) => res == Err::<LuaResponse, ResponseError>(e),
                    Ok(expected) => res matches Ok(r) && {
                        &&& r.kind == LuaResponseKind::Table
                        &&& r.status == (match status { Some(s) => s, None => 200u16 })
                        &&& r.headers.deep_view() == expected
                        &&& r.body == body
                    },
                },
                LuaResponseValue::Other(kind_name) => res matches Err(ResponseError::NotAResponse(t)) && t@ == kind_name@,
            },
    {
        match value {
            LuaResponseValue::Text(bytes) => Ok(LuaResponse {
                kind: LuaResponseKind::PlainText,
                status: 200,
                headers: Vec::new(),
                body: Some(bytes),
            }),
            LuaResponseValue::Table { status, headers, body } => {
                let headers = lua_table_to_headers(headers)?;
                let status = match status {
                    Some(s) => s,
                    None => 200,
                };
                Ok(LuaResponse { kind: LuaResponseKind::Table, status, headers, body })
            },
            LuaResponseValue::Other(kind_name) => Err(ResponseError::NotAResponse(kind_name)),
        }
    }

    /// Turns the response into the parts of an HTTP response: a plain text
    /// response is sent with status 200 and a `content-type: text/plain`
    /// header; a table response with its own status, which must lie in
    /// `100..=999`, and its own headers.
    pub fn into_response(self) -> (res: Result<ResponseParts, ResponseError>)
        requires
            self.body is Some,
        ensures
            match self.kind {
                LuaResponseKind::PlainText => res matches Ok(p) && {
                    &&& p.status == 200
                    &&& p.headers.deep_view() == seq![("content-type"@, text_plain())]
                    &&& p.body@ == self.body->0@
                },
                LuaResponseKind::Table => if 100 <= self.status <= 999 {
                    res matches Ok(p) && {
                        &&& p.status == self.status
                        &&& p.headers.deep_view() == self.headers.deep_view()
                        &&& p.body@ == self.body->0@
                    }
                } else {
                    res == Err::<ResponseParts, ResponseError>(ResponseError::InvalidStatus(self.status))
                },
            },
    {
        let body = match self.body {
            Some(b) => b,
            None => Vec::new(),
        };
        match self.kind {
            LuaResponseKind::PlainText => {
                let mut headers: Vec<(String, Vec<u8>)> = Vec::new();
                let value: Vec<u8> = vec![116u8, 101u8, 120u8, 116u8, 47u8, 112u8, 108u8, 97u8, 105u8, 110u8];
                assert(value@ =~= text_plain());
                assert(value.deep_view() =~= text_plain());
                let name = String::from_str("content-type");
                assert(name.deep_view() == "content-type"@);
                headers.push((name, value));
                assert(headers.deep_view()[0] == ("content-type"@, text_plain()));
                assert(headers.deep_view() =~= seq![("content-type"@, text_plain())]);
                Ok(ResponseParts { status: 200, headers, body })
            },
            LuaResponseKind::Table => {
                if !status_is_valid(self.status) {
                    return Err(ResponseError::InvalidStatus(self.status));
                }
                Ok(ResponseParts { status: self.status, headers: self.headers, body })
            },
        }
    }
}

} // verus!
