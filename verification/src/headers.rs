//! The headers of a request to the mimo channel.

use crate::cookie::{is_visible_text, shape_of, shape_text};
use crate::error::{BridgeError, BridgeErrorView};
use crate::session::Session;
use crate::text::optional_text;
use reqwest::header::{HeaderMap, HeaderName, HeaderValue, InvalidHeaderValue};
use vstd::prelude::*;
use vstd::utf8::{decode_utf8, encode_utf8, is_ascii_chars};

verus! {

/// Declares `http::HeaderMap`, the multimap from header names to values.
#[verifier::external_type_specification]
#[verifier::external_body]
#[verifier::reject_recursive_types(T)]
pub struct ExHeaderMap<T>(HeaderMap<T>);

/// Declares `http::HeaderValue`, the values of a header map.
#[verifier::external_type_specification]
#[verifier::external_body]
pub struct ExHeaderValue(HeaderValue);

/// Declares the error that `http::HeaderValue::from_str` returns.
#[verifier::external_type_specification]
#[verifier::external_body]
pub struct ExInvalidHeaderValue(InvalidHeaderValue);

/// What a header map holds: for each name, in lower case, the bytes of its values
/// in order.
pub uninterp spec fn header_entries(headers: HeaderMap) -> Map<Seq<char>, Seq<Seq<u8>>>;

/// What an empty header map holds.
pub open spec fn no_entries() -> Map<Seq<char>, Seq<Seq<u8>>> {
    Map::empty()
}

/// Whether a text is a header name made of lower-case letters and hyphens.
pub open spec fn is_plain_name(name: Seq<char>) -> bool {
    &&& 0 < name.len() <= 64
    &&& forall|i: int|
        0 <= i < name.len() ==> 'a' <= #[trigger] name[i] <= 'z' || name[i] == '-'
}

/// Whether a text can be written as a header value: it holds no ASCII control character
/// but the tab.
pub open spec fn is_field_text(text: Seq<char>) -> bool {
    forall|i: int|
        0 <= i < text.len() ==> (' ' <= #[trigger] text[i] && text[i] != '\u{7f}')
            || text[i] == '\t'
}

/// Calls `HeaderMap::new`: the map holds nothing.
#[verifier::external_body]
fn new_headers() -> (headers: HeaderMap)
    ensures
        header_entries(headers) == no_entries(),
{
    HeaderMap::new()
}

/// Calls `HeaderMap::insert`, with the name from `HeaderName::from_static` and the
/// value from `HeaderValue::from_str`. A text without ASCII control characters (but for
/// the tab) becomes the only value of the name, as its UTF-8 bytes; any other is
/// refused and the map stays as it was. `from_static` panics on some names and
/// `insert` on a map that grows too large, so both are excluded.
#[verifier::external_body]
fn set_header(headers: &mut HeaderMap, name: &'static str, value: &str) -> (result: Result<
    (),
    InvalidHeaderValue,
>)
    requires
        is_plain_name(name@),
        header_entries(*old(headers)).dom().finite(),
        header_entries(*old(headers)).dom().len() < 1024,
    ensures
        result is Ok <==> is_field_text(value@),
        result is Ok ==> header_entries(*final(headers)) == header_entries(*old(headers)).insert(
            name@,
            seq![encode_utf8(value@)],
        ),
        result is Err ==> header_entries(*final(headers)) == header_entries(*old(headers)),
{
    let value = HeaderValue::from_str(value)?;
    headers.insert(HeaderName::from_static(name), value);
    Ok(())
}

/// Calls the `Display` of `http`'s `InvalidHeaderValue`, which writes the same words for
/// every such error.
#[verifier::external_body]
fn invalid_value_text(error: InvalidHeaderValue) -> (text: String)
    ensures
        text@ == "failed to parse header value"@,
{
    error.to_string()
}

/// What a request fails with whose cookie cannot be written as a header value.
pub open spec fn unwritable_cookie() -> BridgeErrorView {
    BridgeErrorView::Other("failed to parse header value"@)
}

/// Makes a text the only value of a name, or says why it is none.
fn put_header(headers: &mut HeaderMap, name: &'static str, value: &str) -> (result: Result<
    (),
    BridgeError,
>)
    requires
        is_plain_name(name@),
        header_entries(*old(headers)).dom().finite(),
        header_entries(*old(headers)).dom().len() < 1024,
    ensures
        result is Ok <==> is_field_text(value@),
        result is Ok ==> header_entries(*final(headers)) == header_entries(*old(headers)).insert(
            name@,
            seq![encode_utf8(value@)],
        ),
        result matches Err(error) ==> error@ == unwritable_cookie(),
{
    match set_header(headers, name, value) {
        Ok(()) => Ok(()),
        Err(error) => Err(BridgeError::Other(invalid_value_text(error))),
    }
}

/// The headers of a request with the given cookie.
pub open spec fn request_headers(cookie: Seq<char>) -> Map<Seq<char>, Seq<Seq<u8>>> {
    map![
        "user-agent"@ => seq![encode_utf8("node"@)],
        "accept"@ => seq![encode_utf8("*/*"@)],
        "accept-language"@ => seq![encode_utf8("*"@)],
        "sec-fetch-mode"@ => seq![encode_utf8("cors"@)],
        "accept-encoding"@ => seq![encode_utf8("gzip"@)],
        "cookie"@ => seq![encode_utf8(cookie)]
    ]
}

/// The headers that the PC transport accepts: a `node` user agent and the session's
/// service-token cookie.
pub fn build_headers(session: &Session) -> (result: Result<HeaderMap, BridgeError>)
    ensures
        match session.cookie_header {
            None => result matches Err(error) && error@ == BridgeErrorView::NotAuthenticated,
            Some(cookie) => if is_field_text(cookie@) {
                result matches Ok(headers) && header_entries(headers) == request_headers(cookie@)
            } else {
                result matches Err(error) && error@ == unwritable_cookie()
            },
        },
{
    let cookie: &String = match &session.cookie_header {
        Some(cookie) => cookie,
        None => return Err(BridgeError::NotAuthenticated),
    };
    let mut headers = new_headers();
    proof {
        reveal_strlit("user-agent");
        reveal_strlit("accept");
        reveal_strlit("accept-language");
        reveal_strlit("sec-fetch-mode");
        reveal_strlit("accept-encoding");
        reveal_strlit("cookie");
        reveal_strlit("node");
        reveal_strlit("*/*");
        reveal_strlit("*");
        reveal_strlit("cors");
        reveal_strlit("gzip");
    }
    put_header(&mut headers, "user-agent", "node")?;
    put_header(&mut headers, "accept", "*/*")?;
    put_header(&mut headers, "accept-language", "*")?;
    put_header(&mut headers, "sec-fetch-mode", "cors")?;
    put_header(&mut headers, "accept-encoding", "gzip")?;
    put_header(&mut headers, "cookie", cookie.as_str())?;
    assert(header_entries(headers) =~= request_headers(cookie@));
    Ok(headers)
}

/// Whether bytes are visible ASCII, blanks among it.
pub open spec fn is_visible_bytes(bytes: Seq<u8>) -> bool {
    forall|i: int| 0 <= i < bytes.len() ==> 32 <= #[trigger] bytes[i] <= 126 || bytes[i] == 9
}

/// Whether headers hold a name whose first value is visible ASCII.
pub open spec fn has_visible_value(
    entries: Map<Seq<char>, Seq<Seq<u8>>>,
    name: Seq<char>,
) -> bool {
    entries.contains_key(name) && is_visible_bytes(entries[name][0])
}

/// Calls `HeaderMap::get` and `HeaderValue::to_str`: the first value of a name, as
/// text with the value's bytes, where there is one and it is visible ASCII.
#[verifier::external_body]
fn header_text<'a>(headers: &'a HeaderMap, name: &'static str) -> (text: Option<&'a str>)
    requires
        is_plain_name(name@),
    ensures
        text is Some <==> has_visible_value(header_entries(*headers), name@),
        text matches Some(found) ==> encode_utf8(found@) == header_entries(*headers)[name@][0],
{
    match headers.get(name)?.to_str() {
        Ok(text) => Some(text),
        Err(_) => None,
    }
}

/// Visible bytes are those of a visible text.
proof fn lemma_visible_bytes(text: Seq<char>)
    ensures
        is_visible_text(text) <==> is_visible_bytes(encode_utf8(text)),
{
    if is_visible_text(text) {
        vstd::utf8::is_ascii_chars_encode_utf8(text);
        let bytes = encode_utf8(text);
        assert forall|i: int| 0 <= i < bytes.len() implies 32 <= #[trigger] bytes[i] <= 126
            || bytes[i] == 9 by {
            assert(text[i] as u8 == bytes[i]);
        }
    }
    if is_visible_bytes(encode_utf8(text)) {
        let bytes = encode_utf8(text);
        let plain = Seq::new(bytes.len(), |i: int| bytes[i] as char);
        assert(is_ascii_chars(plain));
        vstd::utf8::is_ascii_chars_encode_utf8(plain);
        assert(encode_utf8(plain) =~= bytes);
        vstd::utf8::encode_utf8_decode_utf8(plain);
        vstd::utf8::encode_utf8_decode_utf8(text);
        assert(plain == text);
    }
}

/// The shape of the cookie that headers carry, where they carry one that is visible
/// ASCII.
pub open spec fn carried_shape(entries: Map<Seq<char>, Seq<Seq<u8>>>) -> Option<Seq<char>> {
    if has_visible_value(entries, "cookie"@) {
        Some(shape_of(decode_utf8(entries["cookie"@][0])))
    } else {
        None
    }
}

/// The shape of the cookie that the headers carry, where they carry one that is
/// visible ASCII. It is safe to log: it shows names and lengths, never values.
pub fn cookie_shape(headers: &HeaderMap) -> (shape: Option<String>)
    ensures
        optional_text(shape) == carried_shape(header_entries(*headers)),
{
    proof {
        reveal_strlit("cookie");
    }
    match header_text(headers, "cookie") {
        Some(text) => {
            proof {
                lemma_visible_bytes(text@);
                vstd::utf8::encode_utf8_decode_utf8(text@);
            }
            Some(shape_text(text))
        },
        None => None,
    }
}

/// A request carries six headers, each with one value; none hides another, and all but the
/// cookie are the same whatever the session.
pub proof fn request_carries_six_headers(cookie: Seq<char>)
    ensures
        request_headers(cookie).dom() == set![
            "user-agent"@,
            "accept"@,
            "accept-language"@,
            "sec-fetch-mode"@,
            "accept-encoding"@,
            "cookie"@,
        ],
        request_headers(cookie).dom().len() == 6,
        request_headers(cookie)["user-agent"@] == seq![encode_utf8("node"@)],
        request_headers(cookie)["accept"@] == seq![encode_utf8("*/*"@)],
        request_headers(cookie)["accept-language"@] == seq![encode_utf8("*"@)],
        request_headers(cookie)["sec-fetch-mode"@] == seq![encode_utf8("cors"@)],
        request_headers(cookie)["accept-encoding"@] == seq![encode_utf8("gzip"@)],
        request_headers(cookie)["cookie"@] == seq![encode_utf8(cookie)],
{
    reveal_strlit("user-agent");
    reveal_strlit("accept");
    reveal_strlit("accept-language");
    reveal_strlit("sec-fetch-mode");
    reveal_strlit("accept-encoding");
    reveal_strlit("cookie");
    assert("accept"@[0] != "cookie"@[0]);
    assert("accept-language"@[7] != "accept-encoding"@[7]);
    assert("user-agent"@.len() == 10);
    assert("accept"@.len() == 6);
    assert("accept-language"@.len() == 15);
    assert("sec-fetch-mode"@.len() == 14);
    assert("accept-encoding"@.len() == 15);
    assert("cookie"@.len() == 6);
    assert(request_headers(cookie).dom() =~= set![
        "user-agent"@,
        "accept"@,
        "accept-language"@,
        "sec-fetch-mode"@,
        "accept-encoding"@,
        "cookie"@,
    ]);
}

/// The cookie of a request's headers is the session's: it reads back as it was, and
/// where it is visible ASCII it is what the logged shape is taken from.
pub proof fn request_cookie_reads_back(cookie: Seq<char>)
    ensures
        request_headers(cookie).contains_key("cookie"@),
        request_headers(cookie)["cookie"@].len() == 1,
        decode_utf8(request_headers(cookie)["cookie"@][0]) == cookie,
        carried_shape(request_headers(cookie)) == if is_visible_text(cookie) {
            Some(shape_of(cookie))
        } else {
            None
        },
{
    lemma_visible_bytes(cookie);
    vstd::utf8::encode_utf8_decode_utf8(cookie);
}

/// A text can be a header value exactly where each of its characters is a tab or has a code of at
/// least 32 other than 127.
pub proof fn field_text_has_no_control_characters(text: Seq<char>)
    ensures
        is_field_text(text) <==> forall|i: int|
            0 <= i < text.len() ==> {
                let code = #[trigger] text[i] as int;
                code == 9 || (code >= 32 && code != 127)
            },
{
    let plain = forall|i: int|
        0 <= i < text.len() ==> {
            let code = #[trigger] text[i] as int;
            code == 9 || (code >= 32 && code != 127)
        };
    if is_field_text(text) {
        assert forall|i: int| 0 <= i < text.len() implies {
            let code = #[trigger] text[i] as int;
            code == 9 || (code >= 32 && code != 127)
        } by {}
    }
    if plain {
        assert forall|i: int| 0 <= i < text.len() implies (' ' <= #[trigger] text[i] && text[i]
            != '\u{7f}') || text[i] == '\t' by {}
    }
}

/// The shape that headers carry is that of the first value of their cookie, and there is one
/// exactly where that value is there and each of its bytes is a tab or from 32 to 126.
pub proof fn shape_is_that_of_the_first_cookie(entries: Map<Seq<char>, Seq<Seq<u8>>>)
    ensures
        carried_shape(entries) is Some <==> entries.contains_key("cookie"@) && forall|i: int|
            0 <= i < entries["cookie"@][0].len() ==> {
                let byte = #[trigger] entries["cookie"@][0][i];
                byte == 9 || 32 <= byte < 127
            },
        carried_shape(entries) is Some ==> carried_shape(entries)->0 == shape_of(
            decode_utf8(entries["cookie"@][0]),
        ),
{
}

/// The error for a cookie that cannot be a header value is the one that says so.
pub proof fn unwritable_cookie_is_said_to_be_unparsable(error: BridgeErrorView)
    requires
        error == unwritable_cookie(),
    ensures
        error is Other,
        error->Other_0 == "failed to parse header value"@,
{
}

} // verus!
