//! The response mapper: from an issued certificate, or an error, to a status and a body.
use crate::error::{caused_by, message_of, status_of, ErrorKind};
use crate::time::{rfc3339_of, rfc3339_text, Timestamp};
use vstd::prelude::*;
use vstd::string::*;

verus! {

/// Private key material of an issued certificate.
#[derive(Clone, Debug, PartialEq, Eq)]
pub enum PrivateKey {
    /// The key itself, PEM-encoded.
    Key(Vec<u8>),
    /// A reference to a key held elsewhere (an HSM slot, say).
    Ref(String),
}

/// The `privateKey` record of a successful response.
#[derive(Clone, Debug, PartialEq, Eq)]
pub struct PrivateKeyResponse {
    /// `"key"` or `"ref"`.
    pub type_: String,
    pub bytes: Option<String>,
    pub ref_: Option<String>,
}

/// The body of a successful response.
#[derive(Clone, Debug, PartialEq, Eq)]
pub struct CertificateResponse {
    pub private_key: PrivateKeyResponse,
    /// The certificate, PEM-encoded.
    pub certificate: String,
    /// The end of the certificate's validity, as RFC 3339 text.
    pub expiration: String,
}

/// The body of an error response.
#[derive(Clone, Debug, PartialEq, Eq)]
pub struct ErrorResponse {
    pub message: String,
}

#[derive(Clone, Debug, PartialEq, Eq)]
pub enum ResponseBody {
    Certificate(CertificateResponse),
    Error(ErrorResponse),
}

/// A response: its status code and its JSON-shaped body.
#[derive(Clone, Debug, PartialEq, Eq)]
pub struct Response {
    pub status: u16,
    pub body: ResponseBody,
}

/// Text that a byte string decodes to as UTF-8, with each invalid sequence replaced.
pub uninterp spec fn utf8_lossy(b: Seq<u8>) -> Seq<char>;

/// Relies on `String::from_utf8_lossy`: the text depends on the bytes alone.
#[verifier::external_body]
fn text_of(b: &[u8]) -> (r: String)
    ensures
        r@ == utf8_lossy(b@),
{
    String::from_utf8_lossy(b).into_owned()
}

/// `r` is a response with this status whose body is an error with this message.
pub open spec fn is_failure(r: Response, status: u16, message: Seq<char>) -> bool {
    &&& r.status == status
    &&& r.body matches ResponseBody::Error(b) && b.message@ == message
}

/// `r` is the response that answers error `e`.
pub open spec fn is_error_response(r: Response, e: ErrorKind) -> bool {
    is_failure(r, status_of(e), message_of(e))
}

/// The cause given when a certificate's expiration cannot be written as RFC 3339 text.
pub open spec fn bad_expiration_cause() -> Seq<char> {
    "certificate expiration is out of range"@
}

/// `r` is the `privateKey` record that describes key `k`.
pub open spec fn describes_key(r: PrivateKeyResponse, k: PrivateKey) -> bool {
    match k {
        PrivateKey::Key(b) => {
            &&& r.type_@ == "key"@
            &&& r.bytes matches Some(s) && s@ == utf8_lossy(b@)
            &&& r.ref_ is None
        },
        PrivateKey::Ref(s) => {
            &&& r.type_@ == "ref"@
            &&& r.bytes is None
            &&& r.ref_ == Some(s)
        },
    }
}

/// `r` is the 201 response for a certificate with these PEM bytes, expiration text and key.
pub open spec fn is_certificate_response(
    r: Response,
    pem: Seq<u8>,
    expiration: Seq<char>,
    key: PrivateKey,
) -> bool {
    &&& r.status == 201
    &&& r.body matches ResponseBody::Certificate(c) && c.certificate@ == utf8_lossy(pem)
        && c.expiration@ == expiration && describes_key(c.private_key, key)
}

/// `r` answers a certificate whose PEM bytes, expiration and private key were read with these
/// results: the first failure, in that order, gives an `IoError` response; else a 201.
pub open spec fn answers_certificate(
    r: Response,
    pem: Result<Vec<u8>, String>,
    valid_to: Result<Timestamp, String>,
    key: Result<PrivateKey, String>,
) -> bool {
    match pem {
        Err(c) => is_error_response(r, ErrorKind::IoError(c)),
        Ok(p) => match valid_to {
            Err(c) => is_error_response(r, ErrorKind::IoError(c)),
            Ok(t) => match rfc3339_text(t.secs, t.nanos) {
                None => is_failure(
                    r,
                    500,
                    caused_by("Could not read certificate"@, bad_expiration_cause()),
                ),
                Some(text) => match key {
                    Err(c) => is_error_response(r, ErrorKind::IoError(c)),
                    Ok(k) => is_certificate_response(r, p@, text, k),
                },
            },
        },
    }
}

/// The response that answers error `e`: 400 for what the caller sent wrong, 500 otherwise.
pub fn error_response(e: ErrorKind) -> (r: Response)
    ensures
        is_error_response(r, e),
{
    let message = e.message();
    Response { status: e.status(), body: ResponseBody::Error(ErrorResponse { message }) }
}

/// The `privateKey` record for key `k`.
pub fn private_key_response(k: PrivateKey) -> (r: PrivateKeyResponse)
    ensures
        describes_key(r, k),
{
    match k {
        PrivateKey::Key(b) => PrivateKeyResponse {
            type_: String::from_str("key"),
            bytes: Some(text_of(b.as_slice())),
            ref_: None,
        },
        PrivateKey::Ref(s) => PrivateKeyResponse {
            type_: String::from_str("ref"),
            bytes: None,
            ref_: Some(s),
        },
    }
}

/// The response for a certificate whose PEM bytes, expiration and private key were read with
/// these results. The first failure, in that order, answers with `IoError`.
pub fn certificate_response(
    pem: Result<Vec<u8>, String>,
    valid_to: Result<Timestamp, String>,
    key: Result<PrivateKey, String>,
) -> (r: Response)
    ensures
        answers_certificate(r, pem, valid_to, key),
{
    let pem = match pem {
        Err(c) => {
            return error_response(ErrorKind::IoError(c));
        },
        Ok(p) => p,
    };
    let valid_to = match valid_to {
        Err(c) => {
            return error_response(ErrorKind::IoError(c));
        },
        Ok(t) => t,
    };
    let expiration = match rfc3339_of(valid_to) {
        None => {
            return error_response(
                ErrorKind::IoError(String::from_str("certificate expiration is out of range")),
            );
        },
        Some(s) => s,
    };
    let key = match key {
        Err(c) => {
            return error_response(ErrorKind::IoError(c));
        },
        Ok(k) => k,
    };
    let private_key = private_key_response(key);
    let certificate = text_of(pem.as_slice());
    Response {
        status: 201,
        body: ResponseBody::Certificate(CertificateResponse { private_key, certificate, expiration }),
    }
}

} // verus!
