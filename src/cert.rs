//! The server certificate request pipeline.
use crate::error::ErrorKind;
use crate::response::{
    answers_certificate, certificate_response, error_response, is_error_response, PrivateKey,
    Response,
};
use crate::text::{is_blank, is_blank_str};
use crate::time::{now, Timestamp};
use crate::validity::{validity_at, validity_spec};
use vstd::prelude::*;
use vstd::string::*;

verus! {

/// The role that a certificate plays.
#[derive(Clone, Copy, Debug, PartialEq, Eq, Structural)]
pub enum CertificateType {
    Client,
    Server,
    Ca,
}

/// A request for a server certificate, as decoded from the request body.
#[derive(Clone, Debug, PartialEq, Eq)]
pub struct CertificateRequest {
    pub common_name: String,
    /// When the certificate should expire, as RFC 3339 / ISO 8601 text.
    pub expiration: String,
}

impl CertificateRequest {
    pub fn new(common_name: String, expiration: String) -> (r: Self)
        ensures
            r.common_name == common_name,
            r.expiration == expiration,
    {
        CertificateRequest { common_name, expiration }
    }

    pub fn common_name(&self) -> (r: &str)
        ensures
            r@ == self.common_name@,
    {
        self.common_name.as_str()
    }

    pub fn expiration(&self) -> (r: &str)
        ensures
            r@ == self.expiration@,
    {
        self.expiration.as_str()
    }
}

/// What the certificate store is asked to issue.
#[derive(Clone, Debug, PartialEq, Eq)]
pub struct CertificateProperties {
    pub validity_in_secs: u64,
    pub common_name: String,
    pub certificate_type: CertificateType,
    /// The key under which the store files the certificate.
    pub alias: String,
}

impl CertificateProperties {
    pub fn new(
        validity_in_secs: u64,
        common_name: String,
        certificate_type: CertificateType,
        alias: String,
    ) -> (r: Self)
        ensures
            r.validity_in_secs == validity_in_secs,
            r.common_name == common_name,
            r.certificate_type == certificate_type,
            r.alias == alias,
    {
        CertificateProperties { validity_in_secs, common_name, certificate_type, alias }
    }

    pub fn validity_in_secs(&self) -> (r: u64)
        ensures
            r == self.validity_in_secs,
    {
        self.validity_in_secs
    }

    pub fn common_name(&self) -> (r: &str)
        ensures
            r@ == self.common_name@,
    {
        self.common_name.as_str()
    }

    pub fn certificate_type(&self) -> (r: CertificateType)
        ensures
            r == self.certificate_type,
    {
        self.certificate_type
    }

    pub fn alias(&self) -> (r: &str)
        ensures
            r@ == self.alias@,
    {
        self.alias.as_str()
    }
}

/// A certificate that a store issued. Each part is read on its own and may fail; the error is
/// the store's message.
pub trait Certificate {
    fn pem(&self) -> Result<Vec<u8>, String>;

    fn get_private_key(&self) -> Result<PrivateKey, String>;

    fn get_valid_to(&self) -> Result<Timestamp, String>;
}

/// A certificate store: software, or backed by a hardware security module.
pub trait CreateCertificate {
    type Certificate: Certificate;

    fn create_certificate(&self, properties: &CertificateProperties) -> Result<
        Self::Certificate,
        String,
    >;

    fn destroy_certificate(&self, alias: String) -> Result<(), String>;
}

/// Policy of the workload: the longest validity granted to each kind of certificate.
pub trait WorkloadConfig {
    fn get_cert_max_duration(&self, cert_type: CertificateType) -> i64;
}

pub open spec fn role_suffix(t: CertificateType) -> Seq<char> {
    match t {
        CertificateType::Client => "client"@,
        CertificateType::Server => "server"@,
        CertificateType::Ca => "ca"@,
    }
}

/// The store key of a certificate: module id, generation id and role, one after the other.
pub open spec fn alias_of(module_id: Seq<char>, gen_id: Seq<char>, t: CertificateType) -> Seq<
    char,
> {
    module_id + gen_id + role_suffix(t)
}

/// The store key of the certificate of role `t` for module `module_id`, generation `gen_id`.
pub fn alias(module_id: &str, gen_id: &str, t: CertificateType) -> (r: String)
    ensures
        r@ == alias_of(module_id@, gen_id@, t),
{
    let mut s = String::from_str(module_id);
    s.append(gen_id);
    match t {
        CertificateType::Client => s.append("client"),
        CertificateType::Server => s.append("server"),
        CertificateType::Ca => s.append("ca"),
    }
    s
}

/// Both routing identifiers are there, and neither is empty.
pub open spec fn params_present(name: Option<String>, genid: Option<String>) -> bool {
    &&& name matches Some(n) && n@.len() > 0
    &&& genid matches Some(g) && g@.len() > 0
}

/// What a decoded request yields under cap `max` at instant `now`: the validity in seconds
/// granted, or the first error in the order expiration, range, common name.
pub open spec fn request_outcome(req: CertificateRequest, max: i64, now: Timestamp) -> Result<
    u64,
    ErrorKind,
> {
    match validity_spec(req.expiration@, max, now) {
        Err(e) => Err(e),
        Ok(v) => if v < 0 {
            Err(ErrorKind::OutOfRange(0, max))
        } else if is_blank(req.common_name@) {
            Err(ErrorKind::EmptyArgument)
        } else {
            Ok(v as u64)
        },
    }
}

/// `p` is what the store is asked for: a server certificate for `common_name`, valid for
/// `validity` seconds, filed under `alias`.
pub open spec fn server_properties(
    p: CertificateProperties,
    validity: u64,
    common_name: Seq<char>,
    alias: Seq<char>,
) -> bool {
    &&& p.validity_in_secs == validity
    &&& p.common_name@ == common_name
    &&& p.certificate_type == CertificateType::Server
    &&& p.alias@ == alias
}

/// `r` is what the validation stages make of the routing identifiers, the decoded body, the cap
/// `max` and the instant `now`: the properties to hand to the store, or the first error.
pub open spec fn prepared(
    name: Option<String>,
    genid: Option<String>,
    body: Result<CertificateRequest, String>,
    max: i64,
    now: Timestamp,
    r: Result<CertificateProperties, ErrorKind>,
) -> bool {
    if !params_present(name, genid) {
        r == Err::<CertificateProperties, ErrorKind>(ErrorKind::BadParam)
    } else {
        match body {
            Err(c) => r == Err::<CertificateProperties, ErrorKind>(ErrorKind::BadBody(c)),
            Ok(req) => match request_outcome(req, max, now) {
                Err(e) => r == Err::<CertificateProperties, ErrorKind>(e),
                Ok(v) => r matches Ok(p) && server_properties(
                    p,
                    v,
                    req.common_name@,
                    alias_of(name->Some_0@, genid->Some_0@, CertificateType::Server),
                ),
            },
        }
    }
}

/// The validation stages of the pipeline, from the routing identifiers `name` and `genid`, the
/// decoded body (or the decoder's error), the cap `max` and the instant `now`, to the properties
/// that the store is asked for.
pub fn prepare(
    name: Option<String>,
    genid: Option<String>,
    body: Result<CertificateRequest, String>,
    max: i64,
    now: Timestamp,
) -> (r: Result<CertificateProperties, ErrorKind>)
    ensures
        prepared(name, genid, body, max, now, r),
{
    let (module_id, gen_id) = match (name, genid) {
        (Some(n), Some(g)) => {
            if n.as_str().is_empty() || g.as_str().is_empty() {
                return Err(ErrorKind::BadParam);
            }
            (n, g)
        },
        _ => {
            return Err(ErrorKind::BadParam);
        },
    };
    let a = alias(module_id.as_str(), gen_id.as_str(), CertificateType::Server);
    let req = match body {
        Err(c) => {
            return Err(ErrorKind::BadBody(c));
        },
        Ok(req) => req,
    };
    let validity = match validity_at(req.expiration.as_str(), max, now) {
        Err(e) => {
            return Err(e);
        },
        Ok(v) => v,
    };
    if validity < 0 {
        return Err(ErrorKind::OutOfRange(0, max));
    }
    if is_blank_str(req.common_name.as_str()) {
        return Err(ErrorKind::EmptyArgument);
    }
    Ok(
        CertificateProperties::new(
            validity as u64,
            req.common_name,
            CertificateType::Server,
            a,
        ),
    )
}

/// `r` answers what the store did: its error wrapped as `StoreError`, or the certificate mapped
/// by `answers_certificate` from what reading its parts gave.
pub open spec fn answers_store(r: Response, created_err: Option<String>) -> bool {
    match created_err {
        Some(c) => is_error_response(r, ErrorKind::StoreError(c)),
        None => exists|
            pem: Result<Vec<u8>, String>,
            valid_to: Result<Timestamp, String>,
            key: Result<PrivateKey, String>,
        | answers_certificate(r, pem, valid_to, key),
    }
}

/// The error of a result, if it is one.
pub open spec fn error_of<C>(r: Result<C, String>) -> Option<String> {
    match r {
        Err(c) => Some(c),
        Ok(_) => None,
    }
}

/// The response to what the store returned: its error becomes `StoreError`; a certificate has
/// its PEM bytes, expiration and private key read, in that order, and mapped to the body.
pub fn store_response<C: Certificate>(created: Result<C, String>) -> (r: Response)
    ensures
        answers_store(r, error_of(created)),
{
    match created {
        Err(c) => error_response(ErrorKind::StoreError(c)),
        Ok(cert) => {
            let pem = cert.pem();
            let ghost pem_read = pem;
            if let Err(c) = pem {
                let r = error_response(ErrorKind::IoError(c));
                assert(answers_certificate(r, pem_read, arbitrary(), arbitrary()));
                return r;
            }
            let valid_to = cert.get_valid_to();
            let ghost valid_to_read = valid_to;
            if let Err(c) = valid_to {
                let r = error_response(ErrorKind::IoError(c));
                assert(answers_certificate(r, pem_read, valid_to_read, arbitrary()));
                return r;
            }
            let key = cert.get_private_key();
            let ghost key_read = key;
            let r = certificate_response(pem, valid_to, key);
            assert(answers_certificate(r, pem_read, valid_to_read, key_read));
            r
        },
    }
}

/// Handles requests for server certificates: validates them and has the store issue them.
pub struct ServerCertHandler<T: CreateCertificate, W: WorkloadConfig> {
    hsm: T,
    config: W,
}

/// `r` is the response of the whole pipeline under cap `max` at instant `now`.
pub open spec fn handled(
    name: Option<String>,
    genid: Option<String>,
    body: Result<CertificateRequest, String>,
    max: i64,
    now: Timestamp,
    r: Response,
) -> bool {
    if !params_present(name, genid) {
        is_error_response(r, ErrorKind::BadParam)
    } else {
        match body {
            Err(c) => is_error_response(r, ErrorKind::BadBody(c)),
            Ok(req) => match request_outcome(req, max, now) {
                Err(e) => is_error_response(r, e),
                Ok(_) => exists|created_err: Option<String>| answers_store(r, created_err),
            },
        }
    }
}

impl<T: CreateCertificate, W: WorkloadConfig> ServerCertHandler<T, W> {
    /// The certificate store that the handler calls.
    pub closed spec fn store(&self) -> T {
        self.hsm
    }

    /// The policy that gives the handler its cap on validity.
    pub closed spec fn policy(&self) -> W {
        self.config
    }

    pub fn new(hsm: T, config: W) -> (r: Self)
        ensures
            r.store() == hsm,
            r.policy() == config,
    {
        ServerCertHandler { hsm, config }
    }

    /// Runs the pipeline at instant `now`, with the routing identifiers `name` and `genid` and
    /// the decoded body (or the decoder's error). The store is called only once every
    /// validation stage has passed.
    pub fn handle_at(
        &self,
        name: Option<String>,
        genid: Option<String>,
        body: Result<CertificateRequest, String>,
        now: Timestamp,
    ) -> (r: Response)
        ensures
            exists|max: i64| handled(name, genid, body, max, now, r),
    {
        let max = self.config.get_cert_max_duration(CertificateType::Server);
        let ghost (name_g, genid_g, body_g) = (name, genid, body);
        let r = match prepare(name, genid, body, max, now) {
            Err(e) => error_response(e),
            Ok(props) => {
                let created = self.hsm.create_certificate(&props);
                let r = store_response(created);
                assert(answers_store(r, error_of(created)));
                r
            },
        };
        assert(handled(name_g, genid_g, body_g, max, now, r));
        r
    }

    /// Runs the pipeline at the current instant.
    pub fn handle(
        &self,
        name: Option<String>,
        genid: Option<String>,
        body: Result<CertificateRequest, String>,
    ) -> (r: Response)
        ensures
            exists|max: i64, t: Timestamp| handled(name, genid, body, max, t, r),
    {
        let t = now();
        self.handle_at(name, genid, body, t)
    }
}

} // verus!
