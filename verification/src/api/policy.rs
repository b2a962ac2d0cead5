//! Creation of policies: the checks on what an administrator submits.
use base64::{prelude::BASE64_URL_SAFE_NO_PAD, Engine as _};
use vstd::prelude::*;

use crate::model::policy::PolicyKind;
use crate::policy_engine::{base64_url_no_pad_decode, compile, ExpressionCompilationError};

verus! {

/// The largest expression body, in bytes, that is accepted.
pub const MAX_EXPRESSION_LEN: usize = 2048;

/// What URL-safe base64 without padding encodes bytes into.
pub uninterp spec fn base64_url_no_pad_encode(bytes: Seq<u8>) -> Seq<char>;

/// Encodes bytes as URL-safe base64 without padding (`base64`'s
/// `BASE64_URL_SAFE_NO_PAD.encode`). The encoding is named, not stated; what
/// is stated is that decoding it with the same engine gives the bytes back.
#[verifier::external_body]
fn encode_base64_url(bytes: &[u8]) -> (r: String)
    ensures
        r@ == base64_url_no_pad_encode(bytes@),
        base64_url_no_pad_decode(r@) == Some(bytes@),
{
    BASE64_URL_SAFE_NO_PAD.encode(bytes)
}

/// Reads bytes as UTF-8 (`String::from_utf8`): nothing when they are not
/// valid UTF-8, and otherwise the text they encode.
#[verifier::external_body]
fn string_from_utf8(bytes: Vec<u8>) -> (r: Option<String>)
    ensures
        r is Some <==> vstd::utf8::valid_utf8(bytes@),
        r matches Some(s) ==> s@ == vstd::utf8::decode_utf8(bytes@),
{
    String::from_utf8(bytes).ok()
}

/// Why a submitted expression is refused.
pub enum ExpressionRejection {
    /// 413, "Request body too large".
    TooLarge,
    /// 400, "Requset body must be utf8".
    NotUtf8,
    /// 500: the stored form could not be decoded again.
    InvalidBase64,
    /// 400, with the parse error as the message.
    Parse(rhai::ParseError),
}

impl ExpressionRejection {
    /// The status the refusal is answered with.
    pub fn status(&self) -> (r: u16)
        ensures
            r == match *self {
                ExpressionRejection::TooLarge => 413u16,
                ExpressionRejection::InvalidBase64 => 500u16,
                _ => 400u16,
            },
    {
        match self {
            ExpressionRejection::TooLarge => 413,
            ExpressionRejection::NotUtf8 => 400,
            ExpressionRejection::InvalidBase64 => 500,
            ExpressionRejection::Parse(_) => 400,
        }
    }
}

/// Checks the body of an expression policy and gives the form it is stored
/// in: the body's bytes in URL-safe base64. A body over
/// `MAX_EXPRESSION_LEN` bytes or that is not UTF-8 is refused; so is an
/// expression that does not compile. The stored form always decodes, so the
/// 500 refusal never comes.
pub fn prepare_expression(engine: &rhai::Engine, body: Vec<u8>) -> (r: Result<String, ExpressionRejection>)
    ensures
        body.len() > MAX_EXPRESSION_LEN ==> r matches Err(ExpressionRejection::TooLarge),
        body.len() <= MAX_EXPRESSION_LEN && !vstd::utf8::valid_utf8(body@) ==> r matches Err(
            ExpressionRejection::NotUtf8,
        ),
        body.len() <= MAX_EXPRESSION_LEN && vstd::utf8::valid_utf8(body@) ==> (r is Ok || r matches Err(
            ExpressionRejection::Parse(_),
        )),
        r matches Ok(e) ==> e@ == base64_url_no_pad_encode(body@),
{
    if body.len() > MAX_EXPRESSION_LEN {
        return Err(ExpressionRejection::TooLarge);
    }
    let encoded = encode_base64_url(body.as_slice());
    if string_from_utf8(body).is_none() {
        return Err(ExpressionRejection::NotUtf8);
    }
    match compile(engine, encoded.as_str()) {
        Ok(_) => Ok(encoded),
        Err(ExpressionCompilationError::InvalidBase64) => Err(ExpressionRejection::InvalidBase64),
        Err(ExpressionCompilationError::Parse(p)) => Err(ExpressionRejection::Parse(p)),
    }
}

/// The policy a password expiration request creates: none when the maximal
/// age is negative (400, "max_age must be positive").
pub fn expiration_policy(max_age: i32) -> (r: Option<PolicyKind>)
    ensures
        max_age < 0 ==> r is None,
        max_age >= 0 ==> r == Some(PolicyKind::PasswordExpiry { max_age }),
{
    if max_age < 0 {
        None
    } else {
        Some(PolicyKind::PasswordExpiry { max_age })
    }
}

} // verus!
