//! The request that a poll sends to the alarm endpoint, and the text of the
//! error that a failed poll reports.

use vstd::prelude::*;
use vstd::utf8::encode_utf8;
use crate::settings::{base_url_of, empty_url_message, normalize_base_url, Settings, SettingsView};
use crate::text::{trim_spec, trim_text};

verus! {

/// The path of the alarm endpoint below the server's base address.
pub open spec fn alarm_endpoint() -> Seq<char> {
    "/rest/staff/alarm"@
}

/// The character that stands for the 6-bit value `v` in the standard base64 alphabet.
pub open spec fn base64_char(v: int) -> char {
    if v < 26 {
        (65 + v) as char
    } else if v < 52 {
        (97 + v - 26) as char
    } else if v < 62 {
        (48 + v - 52) as char
    } else if v == 62 {
        '+'
    } else {
        '/'
    }
}

/// Standard base64 (RFC 4648, alphabet `A-Z a-z 0-9 + /`, padded with `=`).
pub open spec fn base64_spec(b: Seq<u8>) -> Seq<char>
    decreases b.len(),
{
    if b.len() == 0 {
        Seq::empty()
    } else {
        let x = b[0] as int;
        if b.len() == 1 {
            seq![base64_char(x / 4), base64_char((x % 4) * 16), '=', '=']
        } else {
            let y = b[1] as int;
            if b.len() == 2 {
                seq![base64_char(x / 4), base64_char((x % 4) * 16 + y / 16), base64_char((y % 16) * 4), '=']
            } else {
                let z = b[2] as int;
                seq![
                    base64_char(x / 4),
                    base64_char((x % 4) * 16 + y / 16),
                    base64_char((y % 16) * 4 + z / 64),
                    base64_char(z % 64),
                ] + base64_spec(b.subrange(3, b.len() as int))
            }
        }
    }
}

/// The length of the padded base64 text of `n` bytes fits in a `usize`.
pub open spec fn base64_fits(n: int) -> bool {
    4 * ((n + 2) / 3) <= usize::MAX
}

/// Encodes bytes as padded standard base64 through the `base64` crate's
/// `engine::general_purpose::STANDARD` engine (`Engine::encode`). Trusted: the
/// result is the RFC 4648 encoding that `base64_spec` states; `requires` leaves
/// out the lengths for which the crate's size computation overflows and panics.
#[verifier::external_body]
fn base64_standard(bytes: &[u8]) -> (r: String)
    requires
        base64_fits(bytes@.len() as int),
    ensures
        r@ == base64_spec(bytes@),
{
    base64::Engine::encode(&base64::engine::general_purpose::STANDARD, bytes)
}

/// One header of a request.
#[derive(Debug)]
pub struct Header {
    pub name: String,
    pub value: String,
}

/// The request of a poll: where it goes and which headers it carries.
#[derive(Debug)]
pub struct PollRequest {
    pub url: String,
    pub headers: Vec<Header>,
}

/// A header as plain values.
pub open spec fn header_view(h: Header) -> (Seq<char>, Seq<char>) {
    (h.name@, h.value@)
}

/// The headers of a request as plain values.
pub open spec fn headers_view(v: Vec<Header>) -> Seq<(Seq<char>, Seq<char>)> {
    v@.map_values(|h: Header| header_view(h))
}

/// The user name and password as the `Authorization` header joins them.
pub open spec fn credentials_text(s: SettingsView) -> Seq<char> {
    trim_spec(s.basic_auth_user) + ":"@ + s.basic_auth_password
}

/// The request carries basic credentials: a user name that is not blank, or a password.
pub open spec fn uses_basic_auth(s: SettingsView) -> bool {
    trim_spec(s.basic_auth_user).len() > 0 || s.basic_auth_password.len() > 0
}

/// The headers of a poll: JSON is accepted and the client names itself; the
/// cookie header follows when it is not blank, trimmed; basic credentials
/// follow when a user name or a password is set.
pub open spec fn poll_headers(s: SettingsView) -> Seq<(Seq<char>, Seq<char>)> {
    let fixed = seq![("Accept"@, "application/json"@), ("User-Agent"@, "KDS-Guard/0.1 Windows"@)];
    let cookie = trim_spec(s.cookie_header);
    let with_cookie = if cookie.len() > 0 {
        fixed.push(("Cookie"@, cookie))
    } else {
        fixed
    };
    if uses_basic_auth(s) {
        with_cookie.push(
            ("Authorization"@, "Basic "@ + base64_spec(encode_utf8(credentials_text(s)))),
        )
    } else {
        with_cookie
    }
}

/// Builds the request of a poll, or the error for an empty server address.
pub fn build_poll_request(settings: &Settings) -> (r: Result<PollRequest, String>)
    requires
        uses_basic_auth(settings@) ==> base64_fits(
            encode_utf8(credentials_text(settings@)).len() as int,
        ),
    ensures
        base_url_of(settings@.server_url) is None ==> (r is Err && r->Err_0@ == empty_url_message()),
        base_url_of(settings@.server_url) is Some ==> (r is Ok && r->Ok_0.url@ == base_url_of(
            settings@.server_url,
        )->0 + alarm_endpoint() && headers_view(r->Ok_0.headers) == poll_headers(settings@)),
{
    let base = match normalize_base_url(settings.server_url.as_str()) {
        Ok(b) => b,
        Err(e) => return Err(e),
    };
    let url = base.concat("/rest/staff/alarm");
    let mut headers: Vec<Header> = Vec::new();
    headers.push(
        Header {
            name: String::from_str("Accept"),
            value: String::from_str("application/json"),
        },
    );
    headers.push(
        Header {
            name: String::from_str("User-Agent"),
            value: String::from_str("KDS-Guard/0.1 Windows"),
        },
    );
    let ghost fixed = seq![("Accept"@, "application/json"@), ("User-Agent"@, "KDS-Guard/0.1 Windows"@)];
    assert(headers_view(headers) =~= fixed);
    let cookie = trim_text(settings.cookie_header.as_str());
    if cookie.as_str().unicode_len() > 0 {
        let ghost before = headers_view(headers);
        let h = Header { name: String::from_str("Cookie"), value: cookie };
        headers.push(h);
        assert(headers_view(headers) =~= before.push(header_view(h)));
    }
    let user = trim_text(settings.basic_auth_user.as_str());
    if user.as_str().unicode_len() > 0 || settings.basic_auth_password.as_str().unicode_len() > 0 {
        let raw = user.concat(":").concat(settings.basic_auth_password.as_str());
        let encoded = base64_standard(raw.as_str().as_bytes());
        let h = Header {
            name: String::from_str("Authorization"),
            value: String::from_str("Basic ").concat(encoded.as_str()),
        };
        let ghost before = headers_view(headers);
        headers.push(h);
        assert(headers_view(headers) =~= before.push(header_view(h)));
    }
    Ok(PollRequest { url, headers })
}

/// The HTTP status is a success (200 to 299).
pub fn is_success_status(code: u16) -> (r: bool)
    ensures
        r == (200 <= code < 300),
{
    200 <= code && code < 300
}

/// The decimal digit `d` as a character.
pub open spec fn digit_char(d: int) -> char {
    (48 + d) as char
}

/// The decimal text of `n`, without leading zeros.
pub open spec fn decimal_spec(n: nat) -> Seq<char>
    decreases n,
{
    if n < 10 {
        seq![digit_char(n as int)]
    } else {
        decimal_spec(n / 10).push(digit_char((n % 10) as int))
    }
}

/// The decimal digit `d` as a one-character text.
fn digit_text(d: u64) -> (r: &'static str)
    requires
        d < 10,
    ensures
        r@ == seq![digit_char(d as int)],
{
    proof {
        reveal_strlit("0");
        reveal_strlit("1");
        reveal_strlit("2");
        reveal_strlit("3");
        reveal_strlit("4");
        reveal_strlit("5");
        reveal_strlit("6");
        reveal_strlit("7");
        reveal_strlit("8");
        reveal_strlit("9");
    }
    if d == 0 {
        "0"
    } else if d == 1 {
        "1"
    } else if d == 2 {
        "2"
    } else if d == 3 {
        "3"
    } else if d == 4 {
        "4"
    } else if d == 5 {
        "5"
    } else if d == 6 {
        "6"
    } else if d == 7 {
        "7"
    } else if d == 8 {
        "8"
    } else {
        "9"
    }
}

/// The decimal text of `n`.
pub fn decimal_text(n: u64) -> (r: String)
    ensures
        r@ == decimal_spec(n as nat),
    decreases n,
{
    if n < 10 {
        String::from_str(digit_text(n))
    } else {
        let r = decimal_text(n / 10).concat(digit_text(n % 10));
        assert(r@ =~= decimal_spec(n as nat));
        r
    }
}

/// Why a poll failed.
#[derive(Debug)]
pub enum PollFailure {
    /// The request could not be sent; the transport's message.
    Request(String),
    /// The response body could not be read; the transport's message.
    Read(String),
    /// The server answered with this HTTP status, which is not a success.
    Status(u16),
    /// The body is not JSON; the parser's message.
    Parse(String),
}

/// The error text of a failed poll of `url`.
pub open spec fn failure_text(f: PollFailure, url: Seq<char>) -> Seq<char> {
    match f {
        PollFailure::Request(e) => "Poll request failed: "@ + e@,
        PollFailure::Read(e) => "Poll response read failed: "@ + e@,
        PollFailure::Status(code) => "Poll HTTP "@ + decimal_spec(code as nat) + " from "@ + url,
        PollFailure::Parse(e) => "Alarm JSON parse failed: "@ + e@,
    }
}

/// The error text of a failed poll of `url`.
pub fn poll_failure_message(failure: &PollFailure, url: &str) -> (r: String)
    ensures
        r@ == failure_text(*failure, url@),
{
    match failure {
        PollFailure::Request(e) => String::from_str("Poll request failed: ").concat(e.as_str()),
        PollFailure::Read(e) => String::from_str("Poll response read failed: ").concat(e.as_str()),
        PollFailure::Status(code) => String::from_str("Poll HTTP ").concat(
            decimal_text(*code as u64).as_str(),
        ).concat(" from ").concat(url),
        PollFailure::Parse(e) => String::from_str("Alarm JSON parse failed: ").concat(e.as_str()),
    }
}

} // verus!
