use vstd::prelude::*;
use vstd::string::{StrSliceExecFns, StringExecFns};
use vstd::utf8::{decode_utf8, valid_utf8};
use http::{HeaderMap, HeaderValue};
use crate::constants::BEARER;
use crate::defined_error::Error;
use crate::obj::{Claims, ClaimsView};
use crate::text::{has_prefix, starts_with, utf8_text};

verus! {

#[verifier::external_type_specification]
#[verifier::external_body]
#[verifier::reject_recursive_types(T)]
pub struct ExHeaderMap<T>(http::HeaderMap<T>);

#[verifier::external_type_specification]
#[verifier::external_body]
pub struct ExHeaderValue(http::HeaderValue);

/// What a header map holds: for each (lower-case) header name, the values
/// stored under it, in insertion order, as bytes.
pub uninterp spec fn header_entries(headers: HeaderMap<HeaderValue>) -> Map<Seq<char>, Seq<Seq<u8>>>;

/// The bytes of the first `authorization` value in a header map, if any.
pub open spec fn authorization_in(entries: Map<Seq<char>, Seq<Seq<u8>>>) -> Option<Seq<u8>> {
    if entries.contains_key("authorization"@) && entries["authorization"@].len() > 0 {
        Some(entries["authorization"@][0])
    } else {
        None
    }
}

/// Looks up the `authorization` header.
///
/// Wraps `http::HeaderMap::get` with the `AUTHORIZATION` name and reads the
/// value with `HeaderValue::as_bytes`. The contract claims what the http
/// source shows: the first value stored under the name is returned, and
/// nothing when the name has no value.
#[verifier::external_body]
fn authorization_value(headers: &HeaderMap<HeaderValue>) -> (r: Option<Vec<u8>>)
    ensures
        match r {
            Some(v) => authorization_in(header_entries(*headers)) == Some(v@),
            None => !header_entries(*headers).contains_key("authorization"@),
        },
{
    match headers.get(http::header::AUTHORIZATION) {
        Some(v) => Some(v.as_bytes().to_vec()),
        None => None,
    }
}

/// The text left once every leading bearer scheme word has been removed.
pub open spec fn without_bearer(s: Seq<char>) -> Seq<char>
    decreases s.len(),
{
    if BEARER@.len() > 0 && has_prefix(s, BEARER@) {
        without_bearer(s.skip(BEARER@.len() as int))
    } else {
        s
    }
}

/// The token that an `authorization` text carries: the text after the
/// leading bearer scheme words, or an error when it does not open with one.
pub open spec fn bearer_outcome(auth: Seq<char>) -> Result<Seq<char>, Error> {
    if has_prefix(auth, BEARER@) {
        Ok(without_bearer(auth))
    } else {
        Err(Error::InvalidAuthHeaderError)
    }
}

/// The token that an `authorization` header value carries, if any.
pub open spec fn authorization_outcome(value: Option<Seq<u8>>) -> Result<Seq<char>, Error> {
    match value {
        None => Err(Error::NoAuthHeaderError),
        Some(bytes) => if valid_utf8(bytes) {
            bearer_outcome(decode_utf8(bytes))
        } else {
            Err(Error::NoAuthHeaderError)
        },
    }
}

/// The token that a bearer header carries never opens with the scheme word
/// itself: every leading scheme word is removed.
pub proof fn lemma_token_without_bearer(auth: Seq<char>)
    ensures
        bearer_outcome(auth) matches Ok(t) ==> !has_prefix(t, BEARER@),
    decreases auth.len(),
{
    reveal_strlit("Bearer ");
    if BEARER@.len() > 0 && has_prefix(auth, BEARER@) {
        lemma_without_bearer_plain(auth);
    }
}

proof fn lemma_without_bearer_plain(s: Seq<char>)
    requires
        BEARER@.len() > 0,
    ensures
        !has_prefix(without_bearer(s), BEARER@),
    decreases s.len(),
{
    if has_prefix(s, BEARER@) {
        lemma_without_bearer_plain(s.skip(BEARER@.len() as int));
    }
}

proof fn lemma_without_bearer_suffix(s: Seq<char>)
    requires
        BEARER@.len() > 0,
    ensures
        without_bearer(s).len() <= s.len(),
        s.skip(s.len() - without_bearer(s).len()) == without_bearer(s),
    decreases s.len(),
{
    if has_prefix(s, BEARER@) {
        let r = s.skip(BEARER@.len() as int);
        lemma_without_bearer_suffix(r);
        assert(s.skip(s.len() - without_bearer(s).len()) =~= r.skip(r.len() - without_bearer(r).len()));
    } else {
        assert(s.skip(0) =~= s);
    }
}

/// A token is found only in a text that opens with "Bearer ": any other
/// text is refused as an invalid header; and the token found is the end of
/// the text, strictly shorter than it.
pub proof fn lemma_bearer_requires_scheme(auth: Seq<char>)
    ensures
        !(auth.len() >= 7 && auth.take(7) == "Bearer "@) ==> bearer_outcome(auth) == Err::<
            Seq<char>,
            Error,
        >(Error::InvalidAuthHeaderError),
        bearer_outcome(auth) matches Ok(t) ==> {
            &&& auth.len() >= 7
            &&& auth.take(7) == "Bearer "@
            &&& t.len() + 7 <= auth.len()
            &&& auth.skip(auth.len() - t.len()) == t
        },
        bearer_outcome(auth) is Err ==> bearer_outcome(auth) == Err::<Seq<char>, Error>(
            Error::InvalidAuthHeaderError,
        ),
{
    reveal_strlit("Bearer ");
    assert(BEARER@ == "Bearer "@);
    if has_prefix(auth, BEARER@) {
        let r = auth.skip(7);
        lemma_without_bearer_suffix(r);
        assert(without_bearer(auth) == without_bearer(r));
        assert(auth.skip(auth.len() - without_bearer(r).len()) =~= r.skip(r.len() - without_bearer(r).len()));
    }
}

/// A header value yields a token only when it is UTF-8 text that opens with
/// "Bearer "; a value that is not UTF-8, or no value, is reported as a
/// missing header, and UTF-8 text in any other scheme as an invalid one.
pub proof fn lemma_authorization_outcomes(value: Option<Seq<u8>>)
    ensures
        value is None ==> authorization_outcome(value) == Err::<Seq<char>, Error>(
            Error::NoAuthHeaderError,
        ),
        value matches Some(b) ==> (!valid_utf8(b) ==> authorization_outcome(value) == Err::<
            Seq<char>,
            Error,
        >(Error::NoAuthHeaderError)),
        value matches Some(b) ==> (valid_utf8(b) ==> {
            let text = decode_utf8(b);
            &&& !(text.len() >= 7 && text.take(7) == "Bearer "@) ==> authorization_outcome(value)
                == Err::<Seq<char>, Error>(Error::InvalidAuthHeaderError)
            &&& authorization_outcome(value) matches Ok(t) ==> text.take(7) == "Bearer "@
                && text.skip(text.len() - t.len()) == t
        }),
{
    if let Some(b) = value {
        if valid_utf8(b) {
            lemma_bearer_requires_scheme(decode_utf8(b));
        }
    }
}

/// A header that puts the scheme word before a token yields that token,
/// when the token does not itself open with the scheme word.
pub proof fn lemma_bearer_round_trip(token: Seq<char>)
    requires
        !has_prefix(token, BEARER@),
    ensures
        bearer_outcome(BEARER@ + token) == Ok::<Seq<char>, Error>(token),
{
    reveal_strlit("Bearer ");
    assert(BEARER@.len() == 7);
    let s = BEARER@ + token;
    assert(s.take(BEARER@.len() as int) =~= BEARER@);
    assert(s.skip(BEARER@.len() as int) =~= token);
    assert(without_bearer(token) == token);
    assert(without_bearer(s) == without_bearer(s.skip(BEARER@.len() as int)));
}

/// What authorizing a request comes to: the extraction error when no token
/// could be taken from the header; otherwise the decoded claims, or a token
/// error when the token did not decode and validate.
pub open spec fn authorize_outcome(
    token: Result<Seq<char>, Error>,
    decoded: Option<ClaimsView>,
) -> Result<ClaimsView, Error> {
    match token {
        Err(e) => Err(e),
        Ok(_) => match decoded {
            Some(c) => Ok(c),
            None => Err(Error::JWTTokenError),
        },
    }
}

/// Optional claims as their model.
pub open spec fn opt_claims(o: Option<Claims>) -> Option<ClaimsView> {
    match o {
        Some(c) => Some(c@),
        None => None,
    }
}

/// A claims result as its model.
pub open spec fn claims_result(r: Result<Claims, Error>) -> Result<ClaimsView, Error> {
    match r {
        Ok(c) => Ok(c@),
        Err(e) => Err(e),
    }
}

/// The outcome of authorizing a request, given the token extracted from its
/// header and the result of decoding that token (`None` when it did not
/// decode and validate).
pub fn authorize(token: Result<String, Error>, decoded: Option<Claims>) -> (r: Result<Claims, Error>)
    ensures
        claims_result(r) == authorize_outcome(text_result(token), opt_claims(decoded)),
{
    match token {
        Err(e) => Err(e),
        Ok(_) => match decoded {
            Some(c) => Ok(c),
            None => Err(Error::JWTTokenError),
        },
    }
}

/// A text result as characters.
pub open spec fn text_result(r: Result<String, Error>) -> Result<Seq<char>, Error> {
    match r {
        Ok(t) => Ok(t@),
        Err(e) => Err(e),
    }
}

/// Extracts the bearer token from an `authorization` text.
pub fn bearer_token(auth: &str) -> (r: Result<String, Error>)
    ensures
        text_result(r) == bearer_outcome(auth@),
{
    if !starts_with(auth, BEARER) {
        return Err(Error::InvalidAuthHeaderError);
    }
    let k: usize = BEARER.unicode_len();
    let mut rest: &str = auth;
    while k > 0 && starts_with(rest, BEARER)
        invariant
            k == BEARER@.len(),
            without_bearer(rest@) == without_bearer(auth@),
        decreases rest@.len(),
    {
        let n: usize = rest.unicode_len();
        rest = rest.substring_char(k, n);
    }
    Ok(rest.to_owned())
}

/// Extracts the bearer token from the bytes of an `authorization` header
/// value, if there is one.
pub fn authorization_token(value: Option<&[u8]>) -> (r: Result<String, Error>)
    ensures
        text_result(r) == authorization_outcome(
            match value {
                Some(v) => Some(v@),
                None => None,
            },
        ),
{
    match value {
        None => Err(Error::NoAuthHeaderError),
        Some(bytes) => match utf8_text(bytes) {
            None => Err(Error::NoAuthHeaderError),
            Some(text) => bearer_token(text.as_str()),
        },
    }
}

/// Extracts the bearer token from the `authorization` header of a request.
pub fn jwt_from_header(headers: &HeaderMap<HeaderValue>) -> (r: Result<String, Error>)
    ensures
        text_result(r) == authorization_outcome(authorization_in(header_entries(*headers))),
{
    let value = authorization_value(headers);
    match value {
        Some(v) => authorization_token(Some(v.as_slice())),
        None => authorization_token(None),
    }
}

#[verifier::external_type_specification]
#[verifier::external_body]
pub struct ExRejection(warp::Rejection);

/// Whether a rejection was made as "not found" (warp's `reject()` and
/// `not_found()` make such rejections). It depends on the rejection alone.
pub uninterp spec fn rejection_not_found(err: warp::Rejection) -> bool;

/// Whether a rejection carries warp's "payload too large" cause. It depends
/// on the rejection alone.
pub uninterp spec fn rejection_payload_too_large(err: warp::Rejection) -> bool;

/// Whether a rejection says that no route matched.
///
/// Wraps `warp::Rejection::is_not_found`, which tests the rejection's reason
/// and nothing else; the contract names that answer.
#[verifier::external_body]
fn rejection_is_not_found(err: &warp::Rejection) -> (r: bool)
    ensures
        r == rejection_not_found(*err),
{
    err.is_not_found()
}

/// Whether a rejection carries warp's "payload too large" cause.
///
/// Wraps `warp::Rejection::find` for `warp::reject::PayloadTooLarge`, which
/// searches the rejection's own causes and nothing else; the contract names
/// that answer.
#[verifier::external_body]
fn rejection_is_payload_too_large(err: &warp::Rejection) -> (r: bool)
    ensures
        r == rejection_payload_too_large(*err),
{
    err.find::<warp::reject::PayloadTooLarge>().is_some()
}

/// The HTTP status code and body text sent back for a rejected request.
#[derive(Clone, Debug)]
pub struct RejectionReply {
    pub code: u16,
    pub message: String,
}

/// The reply owed to a rejection: not-found rejections get 404, oversized
/// payloads 400, anything else 500. Not-found is decided first.
pub open spec fn rejection_outcome(not_found: bool, payload_too_large: bool) -> (u16, Seq<char>) {
    if not_found {
        (404u16, "Not Found"@)
    } else if payload_too_large {
        (400u16, "Payload too large"@)
    } else {
        (500u16, "Internal Server Error"@)
    }
}

/// Replies by kind: a not-found rejection is answered 404 "Not Found"
/// whatever else it carries; 400 "Payload too large" is given exactly to the
/// oversized payloads that are not not-found rejections; every other
/// rejection gets 500 "Internal Server Error".
pub proof fn lemma_rejection_replies(not_found: bool, too_large: bool)
    ensures
        rejection_outcome(not_found, too_large).0 == 404 <==> not_found,
        rejection_outcome(not_found, too_large).0 == 400 <==> (!not_found && too_large),
        rejection_outcome(not_found, too_large).0 == 500 <==> (!not_found && !too_large),
        rejection_outcome(not_found, too_large).0 == 404 ==> rejection_outcome(not_found, too_large).1
            == "Not Found"@,
        rejection_outcome(not_found, too_large).0 == 400 ==> rejection_outcome(not_found, too_large).1
            == "Payload too large"@,
        rejection_outcome(not_found, too_large).0 == 500 ==> rejection_outcome(not_found, too_large).1
            == "Internal Server Error"@,
{
}

/// The reply for a rejection, given what kind of rejection it is.
pub fn rejection_reply(not_found: bool, payload_too_large: bool) -> (r: RejectionReply)
    ensures
        (r.code, r.message@) == rejection_outcome(not_found, payload_too_large),
{
    if not_found {
        RejectionReply { code: 404, message: String::from_str("Not Found") }
    } else if payload_too_large {
        RejectionReply { code: 400, message: String::from_str("Payload too large") }
    } else {
        RejectionReply { code: 500, message: String::from_str("Internal Server Error") }
    }
}

/// The reply for a rejection of the upload routes.
pub fn handle_rejection(err: &warp::Rejection) -> (r: RejectionReply)
    ensures
        (r.code, r.message@) == rejection_outcome(
            rejection_not_found(*err),
            rejection_payload_too_large(*err),
        ),
{
    let not_found = rejection_is_not_found(err);
    let too_large = rejection_is_payload_too_large(err);
    rejection_reply(not_found, too_large)
}

/// Where a converted file with the given id is served from.
pub open spec fn output_path(id: Seq<char>) -> Seq<char> {
    "./output/"@ + id
}

/// The local path that the download route serves for a file id.
pub fn file_response_path(id: &str) -> (r: String)
    ensures
        r@ == output_path(id@),
{
    let mut p = String::from_str("./output/");
    p.append(id);
    p
}

} // verus!
