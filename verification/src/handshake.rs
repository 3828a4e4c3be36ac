//! The opening handshake: which HTTP requests are upgraded, and the answer
//! to one that is.
//!
//! A request is read as lines. The first is the request line, whose first
//! word is the method. Each line behind it, up to the first empty one, is a
//! header field `Name: Value`; a line without a colon names no field, and of
//! two fields with one name the later counts.

use vstd::prelude::*;
use vstd::slice::slice_to_vec;
use vstd::string::StringSliceAdditionalSpecFns;
use vstd::utf8::encode_utf8;
use base64::Engine;
use sha1::Digest;
use crate::text::after;
use crate::text::before;
use crate::text::eq_bytes;
use crate::text::eq_ignore_ascii_case;
use crate::text::eq_ignore_case;
use crate::text::first_line;
use crate::text::split_at_byte;
use crate::text::split_line;
use crate::text::trim;
use crate::text::trim_bytes;
use crate::text::LF;

verus! {

pub const SPACE: u8 = 0x20;

pub const COLON: u8 = 0x3A;

/// The request was not one that asks for the upgrade.
#[derive(Clone, Copy, Debug, PartialEq, Eq, Structural)]
pub struct HandshakeRejected;

/// The SHA-1 digest of `data`.
pub uninterp spec fn sha1_digest(data: Seq<u8>) -> Seq<u8>;

/// The base64 text of `data`, in the standard alphabet and padded.
pub uninterp spec fn base64_standard(data: Seq<u8>) -> Seq<char>;

/// The SHA-1 digest of `data`, by `sha1::Sha1::digest`: twenty bytes that
/// depend on `data` alone.
#[verifier::external_body]
fn sha1(data: &[u8]) -> (digest: [u8; 20])
    ensures
        digest@ == sha1_digest(data@),
{
    sha1::Sha1::digest(data).into()
}

/// The base64 text of `data`, by `encode` of
/// `base64::engine::general_purpose::STANDARD`: a text that depends on
/// `data` alone. The call panics where the length of the text does not fit
/// a `usize`, so such data is left out.
#[verifier::external_body]
fn base64(data: &[u8]) -> (text: String)
    requires
        (data@.len() / 3 + 1) * 4 <= usize::MAX,
    ensures
        text@ == base64_standard(data@),
{
    base64::engine::general_purpose::STANDARD.encode(data)
}

/// The text that is appended to a client's key before it is hashed.
pub open spec fn guid() -> Seq<u8> {
    "258EAFA5-E914-47DA-95CA-C5AB0DC85B11".spec_bytes()
}

/// The accept token for a client's key: the base64 text of the SHA-1 digest
/// of the key followed by the protocol's GUID.
pub open spec fn accept_token_of(key: Seq<u8>) -> Seq<char> {
    base64_standard(sha1_digest(key + guid()))
}

/// What stands in front of the accept token in the answer.
pub open spec fn response_head() -> Seq<u8> {
    "HTTP/1.1 101 OK\r\nUpgrade: websocket\r\nConnection: Upgrade\r\nSec-WebSocket-Accept: ".spec_bytes()
}

/// What stands behind the accept token in the answer.
pub open spec fn response_end() -> Seq<u8> {
    "\r\n\r\n".spec_bytes()
}

/// The answer that upgrades the connection, for a given accept token.
pub open spec fn upgrade_response_of(accept: Seq<char>) -> Seq<u8> {
    response_head() + encode_utf8(accept) + response_end()
}

/// The method of a request: the first word of its first line.
pub open spec fn method(request: Seq<u8>) -> Seq<u8> {
    trim(before(first_line(request), SPACE))
}

/// The name of the header field on `line`.
pub open spec fn field_name(line: Seq<u8>) -> Seq<u8> {
    trim(before(line, COLON))
}

/// The value of the header field on `line`: what stands between the first
/// colon and the next, trimmed.
pub open spec fn field_value(line: Seq<u8>) -> Seq<u8> {
    trim(before(after(line, COLON), COLON))
}

/// Whether `line` holds a header field: it does where it has a colon.
pub open spec fn is_field(line: Seq<u8>) -> bool {
    before(line, COLON).len() < line.len()
}

/// The value of the last header field named `name`, whatever its case, in
/// the lines of `text` up to the first empty one.
pub open spec fn header_value(text: Seq<u8>, name: Seq<u8>) -> Option<Seq<u8>>
    decreases text.len(),
{
    let line = first_line(text);
    if line.len() == 0 {
        None
    } else {
        match header_value(after(text, LF), name) {
            Some(value) => Some(value),
            None => if is_field(line) && eq_ignore_case(field_name(line), name) {
                Some(field_value(line))
            } else {
                None
            },
        }
    }
}

/// The header lines of a request: what stands behind its first line.
pub open spec fn headers(request: Seq<u8>) -> Seq<u8> {
    after(request, LF)
}

/// The key that the client sent, if it sent one.
pub open spec fn client_key(request: Seq<u8>) -> Option<Seq<u8>> {
    header_value(headers(request), "sec-websocket-key".spec_bytes())
}

/// Whether a request asks for the upgrade: its method is `GET`, its headers
/// `Upgrade` and `Connection` are `websocket` and `upgrade`, each whatever
/// its case, its `Sec-WebSocket-Version` is `13`, and it has a
/// `Sec-WebSocket-Key` that is not empty.
pub open spec fn acceptable(request: Seq<u8>) -> bool {
    &&& eq_ignore_case(method(request), "get".spec_bytes())
    &&& header_value(headers(request), "upgrade".spec_bytes()) matches Some(value)
        && eq_ignore_case(value, "websocket".spec_bytes())
    &&& header_value(headers(request), "connection".spec_bytes()) matches Some(value)
        && eq_ignore_case(value, "upgrade".spec_bytes())
    &&& header_value(headers(request), "sec-websocket-version".spec_bytes()) == Some(
        "13".spec_bytes(),
    )
    &&& client_key(request) matches Some(key) && key.len() > 0
}

/// The answer to a request: the upgrade with the accept token for its key,
/// or the rejection.
pub open spec fn handshake_of(request: Seq<u8>) -> Result<Seq<u8>, HandshakeRejected> {
    if acceptable(request) {
        Ok(upgrade_response_of(accept_token_of(client_key(request)->0)))
    } else {
        Err(HandshakeRejected)
    }
}

/// The bytes of a value that was found, if one was.
pub open spec fn found_view(found: Option<&[u8]>) -> Option<Seq<u8>> {
    match found {
        Some(value) => Some(value@),
        None => None,
    }
}

/// The value of the last header field named `name` in the lines of `text`
/// up to the first empty one.
pub fn find_header<'a>(text: &'a [u8], name: &[u8]) -> (found: Option<&'a [u8]>)
    ensures
        found_view(found) == header_value(text@, name@),
{
    let mut rest = text;
    let mut found: Option<&'a [u8]> = None;
    loop
        invariant
            header_value(text@, name@) == match header_value(rest@, name@) {
                Some(value) => Some(value),
                None => found_view(found),
            },
        ensures
            found_view(found) == header_value(text@, name@),
        decreases rest@.len(),
    {
        let (line, next) = split_line(rest);
        if line.len() == 0 {
            break;
        }
        let (name_part, value_part) = split_at_byte(line, COLON);
        if name_part.len() < line.len() && eq_ignore_ascii_case(trim_bytes(name_part), name) {
            let (value, _) = split_at_byte(value_part, COLON);
            found = Some(trim_bytes(value));
        }
        rest = next;
    }
    found
}

/// The key of a request that asks for the upgrade, or the rejection of one
/// that does not.
pub fn check_request<'a>(request: &'a [u8]) -> (result: Result<&'a [u8], HandshakeRejected>)
    ensures
        result is Ok <==> acceptable(request@),
        result matches Ok(key) ==> client_key(request@) == Some(key@),
{
    let (request_line, header_lines) = split_line(request);
    let (first_word, _) = split_at_byte(request_line, SPACE);
    if !eq_ignore_ascii_case(trim_bytes(first_word), "get".as_bytes()) {
        return Err(HandshakeRejected);
    }
    match find_header(header_lines, "upgrade".as_bytes()) {
        Some(value) => {
            if !eq_ignore_ascii_case(value, "websocket".as_bytes()) {
                return Err(HandshakeRejected);
            }
        },
        None => {
            return Err(HandshakeRejected);
        },
    }
    match find_header(header_lines, "connection".as_bytes()) {
        Some(value) => {
            if !eq_ignore_ascii_case(value, "upgrade".as_bytes()) {
                return Err(HandshakeRejected);
            }
        },
        None => {
            return Err(HandshakeRejected);
        },
    }
    match find_header(header_lines, "sec-websocket-version".as_bytes()) {
        Some(value) => {
            if !eq_bytes(value, "13".as_bytes()) {
                return Err(HandshakeRejected);
            }
        },
        None => {
            return Err(HandshakeRejected);
        },
    }
    match find_header(header_lines, "sec-websocket-key".as_bytes()) {
        Some(key) => {
            if key.len() == 0 {
                Err(HandshakeRejected)
            } else {
                Ok(key)
            }
        },
        None => Err(HandshakeRejected),
    }
}

/// The accept token for a client's key.
pub fn accept_token(key: &[u8]) -> (token: String)
    ensures
        token@ == accept_token_of(key@),
{
    let mut text = slice_to_vec(key);
    let mut guid = slice_to_vec("258EAFA5-E914-47DA-95CA-C5AB0DC85B11".as_bytes());
    text.append(&mut guid);
    let digest = sha1(text.as_slice());
    base64(digest.as_slice())
}

/// The answer that upgrades the connection, for a given accept token.
pub fn upgrade_response(accept: &str) -> (response: Vec<u8>)
    ensures
        response@ == upgrade_response_of(accept@),
{
    let mut response = slice_to_vec(
        "HTTP/1.1 101 OK\r\nUpgrade: websocket\r\nConnection: Upgrade\r\nSec-WebSocket-Accept: ".as_bytes(),
    );
    let mut token = slice_to_vec(accept.as_bytes());
    let mut end = slice_to_vec("\r\n\r\n".as_bytes());
    response.append(&mut token);
    response.append(&mut end);
    response
}

/// Answers an HTTP request: with the upgrade where the request asks for it,
/// and with the rejection, and no answer to send, where it does not.
pub fn handshake(request: &[u8]) -> (result: Result<Vec<u8>, HandshakeRejected>)
    ensures
        match result {
            Ok(response) => handshake_of(request@) == Ok::<Seq<u8>, HandshakeRejected>(response@),
            Err(error) => handshake_of(request@) == Err::<Seq<u8>, HandshakeRejected>(error),
        },
{
    match check_request(request) {
        Ok(key) => {
            let token = accept_token(key);
            Ok(upgrade_response(token.as_str()))
        },
        Err(error) => Err(error),
    }
}

/// A request is rejected where its method is not `GET`, where it lacks one
/// of the headers `Upgrade`, `Connection`, `Sec-WebSocket-Version` and
/// `Sec-WebSocket-Key`, or where one of them has another value than the
/// upgrade asks for.
pub proof fn lemma_incomplete_request_rejected(request: Seq<u8>)
    requires
        ({
            ||| !eq_ignore_case(method(request), "get".spec_bytes())
            ||| header_value(headers(request), "upgrade".spec_bytes()) is None
            ||| !eq_ignore_case(
                header_value(headers(request), "upgrade".spec_bytes())->0,
                "websocket".spec_bytes(),
            )
            ||| header_value(headers(request), "connection".spec_bytes()) is None
            ||| !eq_ignore_case(
                header_value(headers(request), "connection".spec_bytes())->0,
                "upgrade".spec_bytes(),
            )
            ||| header_value(headers(request), "sec-websocket-version".spec_bytes()) != Some(
                "13".spec_bytes(),
            )
            ||| header_value(headers(request), "sec-websocket-key".spec_bytes()) is None
            ||| header_value(headers(request), "sec-websocket-key".spec_bytes())->0.len() == 0
        }),
    ensures
        !acceptable(request),
        handshake_of(request) == Err::<Seq<u8>, HandshakeRejected>(HandshakeRejected),
{
}

} // verus!
