//! Who a request comes from: reading a Basic `Authorization` header,
//! digesting a password, and checking both against the credential store.

use vstd::prelude::*;
use vstd::slice::slice_subrange;
use vstd::utf8::{decode_utf8, encode_utf8, valid_utf8};
use base64::Engine;
use sha2::Digest;
use crate::json::{json_string, json_text};
use crate::passwords::{encoded, looked_up, updated, PasswordDatabase};
use crate::response::{
    plain, text_response, with_header, Response, ResponseView, BAD_REQUEST, OK, UNAUTHORIZED,
};
use crate::text::{chars_of, find_first, split_first, text_of};

verus! {

/// The bytes that the standard base64 alphabet, with padding, decodes
/// `input` to, as `base64`'s `STANDARD` engine decodes; where it reports an
/// error, the error as its debug text.
pub uninterp spec fn base64_decoded(input: Seq<u8>) -> Result<Seq<u8>, Seq<char>>;

/// The text that `base64`'s `STANDARD` engine encodes `data` to.
pub uninterp spec fn base64_text(data: Seq<u8>) -> Seq<char>;

/// The SHA-256 digest of `data`, as `sha2::Sha256` computes it.
pub uninterp spec fn sha256(data: Seq<u8>) -> Seq<u8>;

/// Decodes base64 with `Engine::decode` of `base64`'s `STANDARD` engine. The
/// contract names the outcome; for an input that the engine refuses it is
/// the debug text of the engine's error.
#[verifier::external_body]
pub(crate) fn base64_decode(input: &[u8]) -> (data: Result<Vec<u8>, String>)
    ensures
        match data {
            Ok(bytes) => base64_decoded(input@) == Ok::<Seq<u8>, Seq<char>>(bytes@),
            Err(text) => base64_decoded(input@) == Err::<Seq<u8>, Seq<char>>(text@),
        },
{
    base64::engine::general_purpose::STANDARD.decode(input).map_err(|e| format!("{e:?}"))
}

/// Encodes base64 with `Engine::encode` of `base64`'s `STANDARD` engine. The
/// contract names the text. The engine panics where the length of the text
/// does not fit in `usize`, which takes an input of more than three quarters
/// of `usize::MAX` bytes.
#[verifier::external_body]
pub(crate) fn base64_encode(data: &[u8]) -> (text: String)
    requires
        data@.len() <= usize::MAX / 2,
    ensures
        text@ == base64_text(data@),
{
    base64::engine::general_purpose::STANDARD.encode(data)
}

/// Computes SHA-256 with `sha2::Sha256::digest`. The contract names the
/// digest and states its length, 32 bytes.
#[verifier::external_body]
pub(crate) fn sha256_digest(data: &[u8]) -> (digest: Vec<u8>)
    ensures
        digest@ == sha256(data@),
        digest@.len() == 32,
{
    sha2::Sha256::digest(data).to_vec()
}

/// Reads bytes as UTF-8 with `core::str::from_utf8`: the text whose
/// encoding the bytes are, where they are the encoding of a text.
#[verifier::external_body]
pub(crate) fn utf8_text(bytes: &[u8]) -> (text: Option<&str>)
    ensures
        text.is_some() == valid_utf8(bytes@),
        text matches Some(s) ==> s@ == decode_utf8(bytes@),
{
    core::str::from_utf8(bytes).ok()
}

/// The digest under which a password is stored: the base64 text of the
/// SHA-256 digest of its UTF-8 bytes.
pub open spec fn digest_of(password: Seq<char>) -> Seq<char> {
    base64_text(sha256(encode_utf8(password)))
}

/// Digests a password for the credential store.
pub fn password_digest(password: &str) -> (digest: String)
    ensures
        digest@ == digest_of(password@),
{
    let hash = sha256_digest(password.as_bytes());
    base64_encode(hash.as_slice())
}

/// The user name and the password in the decoded payload of a Basic
/// `Authorization` header: the payload must be UTF-8 text, and is cut at its
/// first colon.
pub open spec fn user_and_password(payload: Seq<u8>) -> Option<(Seq<char>, Seq<char>)> {
    if valid_utf8(payload) {
        split_first(decode_utf8(payload), ':')
    } else {
        None
    }
}

/// The user name and the password that a Basic `Authorization` header
/// carries. The header value is cut at its first space; what stands before
/// it is not looked at, what stands after it is decoded as base64.
pub open spec fn basic_auth(header: Option<Seq<char>>) -> Option<(Seq<char>, Seq<char>)> {
    match header {
        None => None,
        Some(value) => match split_first(value, ' ') {
            None => None,
            Some((_, payload)) => match base64_decoded(encode_utf8(payload)) {
                Err(_) => None,
                Ok(bytes) => user_and_password(bytes),
            },
        },
    }
}

/// The views of an optional pair of strings.
pub open spec fn pair_view(pair: Option<(String, String)>) -> Option<(Seq<char>, Seq<char>)> {
    match pair {
        Some((a, b)) => Some((a@, b@)),
        None => None,
    }
}

/// The view of an optional string slice.
pub open spec fn text_view(text: Option<&str>) -> Option<Seq<char>> {
    match text {
        Some(s) => Some(s@),
        None => None,
    }
}

/// Cuts the decoded payload of a Basic `Authorization` header into user
/// name and password.
pub fn split_credentials(payload: &[u8]) -> (pair: Option<(String, String)>)
    ensures
        pair_view(pair) == user_and_password(payload@),
{
    let text = match utf8_text(payload) {
        Some(text) => text,
        None => {
            return None;
        },
    };
    let chars = chars_of(text);
    let all = chars.as_slice();
    let length = all.len();
    match find_first(all, ':') {
        None => None,
        Some(colon) => {
            let user = slice_subrange(all, 0, colon);
            let password = slice_subrange(all, colon + 1, length);
            Some((text_of(user), text_of(password)))
        },
    }
}

/// Reads the value of a Basic `Authorization` header, if the request has
/// one.
pub fn get_auth(header: Option<&str>) -> (pair: Option<(String, String)>)
    ensures
        pair_view(pair) == basic_auth(text_view(header)),
{
    let value = match header {
        Some(value) => value,
        None => {
            return None;
        },
    };
    let chars = chars_of(value);
    let all = chars.as_slice();
    let space = match find_first(all, ' ') {
        Some(space) => space,
        None => {
            return None;
        },
    };
    assert(space < all.len());
    let rest = slice_subrange(all, space + 1, all.len());
    let payload = text_of(rest);
    match base64_decode(payload.as_str().as_bytes()) {
        Err(_) => None,
        Ok(bytes) => split_credentials(bytes.as_slice()),
    }
}

/// The response that asks the client to authenticate, with `text` as its
/// body.
pub open spec fn unauthorized(text: Seq<char>) -> ResponseView {
    text_response(
        UNAUTHORIZED,
        Some(("WWW-Authenticate"@, "Basic realm=\"my realm\""@)),
        text,
    )
}

/// Who a request comes from, or the response that turns it away.
///
/// A request whose `Authorization` header is missing or cannot be read is
/// asked to authenticate. One whose user name and password digest the
/// credential store does not hold is asked to authenticate with the notice
/// `Invalid login`. Otherwise the request comes from the stored user name.
pub open spec fn authenticated(
    credentials: Seq<Option<Seq<Seq<char>>>>,
    header: Option<Seq<char>>,
) -> Result<Seq<char>, ResponseView> {
    match basic_auth(header) {
        None => Err(unauthorized(Seq::empty())),
        Some((user, password)) => match looked_up(credentials, user, digest_of(password)) {
            Some(name) => Ok(name),
            None => Err(unauthorized("Invalid login"@)),
        },
    }
}

/// Names the user that a request comes from, given the value of its
/// `Authorization` header, if it has one.
pub fn try_auth(passwords: &PasswordDatabase, header: Option<&str>) -> (user: Result<
    String,
    Response,
>)
    ensures
        match user {
            Ok(name) => authenticated(passwords.rows(), text_view(header)) == Ok::<
                Seq<char>,
                ResponseView,
            >(name@),
            Err(response) => authenticated(passwords.rows(), text_view(header)) == Err::<
                Seq<char>,
                ResponseView,
            >(response@),
        },
{
    let (user, password) = match get_auth(header) {
        Some(pair) => pair,
        None => {
            let response = with_header(
                UNAUTHORIZED,
                "WWW-Authenticate",
                "Basic realm=\"my realm\"",
                String::new(),
            );
            return Err(response);
        },
    };
    let digest = password_digest(password.as_str());
    match passwords.get_user(user.as_str(), digest.as_str()) {
        Some(name) => Ok(name),
        None => Err(
            with_header(
                UNAUTHORIZED,
                "WWW-Authenticate",
                "Basic realm=\"my realm\"",
                "Invalid login".to_owned(),
            ),
        ),
    }
}

/// The JSON object that tells a client who it is logged in as.
pub open spec fn login_json(user: Seq<char>) -> Seq<char> {
    "{\"user\":"@ + json_text(user) + "}"@
}

/// The response to a login: the user name as JSON, or the response that
/// turns the request away.
pub open spec fn logged_in(
    credentials: Seq<Option<Seq<Seq<char>>>>,
    header: Option<Seq<char>>,
) -> ResponseView {
    match authenticated(credentials, header) {
        Ok(name) => text_response(
            OK,
            Some(("Content-Type"@, "application/json"@)),
            login_json(name),
        ),
        Err(response) => response,
    }
}

/// Answers a login request.
pub fn login(passwords: &PasswordDatabase, header: Option<&str>) -> (response: Response)
    ensures
        response@ == logged_in(passwords.rows(), text_view(header)),
{
    match try_auth(passwords, header) {
        Ok(name) => {
            let mut json = String::new();
            json.push_str("{\"user\":");
            json.push_str(json_string(name.as_str()).as_str());
            json.push_str("}");
            with_header(OK, "Content-Type", "application/json", json)
        },
        Err(response) => response,
    }
}

/// The longest new password that is accepted, in bytes, is one less than
/// this.
pub const PASSWORD_LIMIT: usize = 1000;

/// Whether a new password of `length` bytes is accepted: it is not empty and
/// shorter than the limit.
pub open spec fn acceptable_length(length: nat) -> bool {
    0 < length < PASSWORD_LIMIT
}

/// The response to a change of password to `new_password`.
pub open spec fn password_change(new_password: Seq<char>) -> ResponseView {
    let length = encode_utf8(new_password).len();
    if !(length > 0) {
        text_response(BAD_REQUEST, None, "r.new_password.len() > 0"@)
    } else if !(length < PASSWORD_LIMIT) {
        text_response(BAD_REQUEST, None, "r.new_password.len() < 1000"@)
    } else {
        text_response(OK, None, "{}"@)
    }
}

/// Changes the password of `user`, who was authenticated before, to
/// `new_password`. A password that is empty or too long is refused and the
/// store is left as it was. Otherwise the store holds one row for `user`,
/// with the digest of the new password, and the bytes of the file that
/// replaces the credential file are returned.
pub fn update_password(passwords: &mut PasswordDatabase, user: &str, new_password: &str) -> (out: (
    Response,
    Option<Vec<u8>>,
))
    ensures
        out.0@ == password_change(new_password@),
        final(passwords).location() == old(passwords).location(),
        acceptable_length(encode_utf8(new_password@).len()) ==> {
            &&& final(passwords).rows() == updated(
                old(passwords).rows(),
                user@,
                digest_of(new_password@),
            )
            &&& out.1 matches Some(content)
            &&& content@ == encoded(final(passwords).rows(), crate::passwords::FIELD_DELIMITER)
        },
        !acceptable_length(encode_utf8(new_password@).len()) ==> {
            &&& *final(passwords) == *old(passwords)
            &&& out.1.is_none()
        },
{
    let length = new_password.as_bytes().len();
    if !(length > 0) {
        return (plain(BAD_REQUEST, "r.new_password.len() > 0".to_owned()), None);
    }
    if !(length < PASSWORD_LIMIT) {
        return (plain(BAD_REQUEST, "r.new_password.len() < 1000".to_owned()), None);
    }
    let digest = password_digest(new_password);
    let content = passwords.update_user(user, digest.as_str());
    (plain(OK, "{}".to_owned()), Some(content))
}

} // verus!
