use std::sync::Arc;

use chrono::{Duration, Utc};
use edgelet_workload_cert::cert::{
    Certificate, CertificateProperties, CertificateRequest, CertificateType, CreateCertificate,
    ServerCertHandler, WorkloadConfig,
};
use edgelet_workload_cert::response::{PrivateKey, Response, ResponseBody};
use edgelet_workload_cert::time::Timestamp;

const MAX_DURATION_SEC: u64 = 7200;

#[derive(Clone, Default)]
struct TestCert {
    fail_pem: bool,
    fail_private_key: bool,
    fail_valid_to: bool,
    private_key: Option<PrivateKey>,
}

impl TestCert {
    fn with_fail_pem(mut self, v: bool) -> Self {
        self.fail_pem = v;
        self
    }
    fn with_fail_private_key(mut self, v: bool) -> Self {
        self.fail_private_key = v;
        self
    }
    fn with_fail_valid_to(mut self, v: bool) -> Self {
        self.fail_valid_to = v;
        self
    }
    fn with_private_key(mut self, k: PrivateKey) -> Self {
        self.private_key = Some(k);
        self
    }
}

impl Certificate for TestCert {
    fn pem(&self) -> Result<Vec<u8>, String> {
        if self.fail_pem {
            Err("An IO error occurred".to_string())
        } else {
            Ok(b"-----BEGIN CERTIFICATE-----".to_vec())
        }
    }

    fn get_private_key(&self) -> Result<PrivateKey, String> {
        if self.fail_private_key {
            Err("An IO error occurred".to_string())
        } else {
            Ok(self
                .private_key
                .clone()
                .unwrap_or(PrivateKey::Ref("default".to_string())))
        }
    }

    fn get_valid_to(&self) -> Result<Timestamp, String> {
        if self.fail_valid_to {
            Err("An IO error occurred".to_string())
        } else {
            Ok(Timestamp { secs: 1_600_000_000, nanos: 0 })
        }
    }
}

type OnCreate = Arc<dyn Fn(&CertificateProperties) -> Result<TestCert, String> + Send + Sync>;

#[derive(Clone, Default)]
struct TestHsm {
    on_create: Option<OnCreate>,
}

impl TestHsm {
    fn with_on_create<F>(mut self, on_create: F) -> Self
    where
        F: Fn(&CertificateProperties) -> Result<TestCert, String> + Send + Sync + 'static,
    {
        self.on_create = Some(Arc::new(on_create));
        self
    }
}

impl CreateCertificate for TestHsm {
    type Certificate = TestCert;

    fn create_certificate(&self, properties: &CertificateProperties) -> Result<TestCert, String> {
        let callback = self.on_create.as_ref().unwrap();
        callback(properties)
    }

    fn destroy_certificate(&self, _alias: String) -> Result<(), String> {
        Ok(())
    }
}

#[derive(Clone, Default)]
struct TestWorkloadData;

impl WorkloadConfig for TestWorkloadData {
    fn get_cert_max_duration(&self, _cert_type: CertificateType) -> i64 {
        MAX_DURATION_SEC as i64
    }
}

fn handler(hsm: TestHsm) -> ServerCertHandler<TestHsm, TestWorkloadData> {
    ServerCertHandler::new(hsm, TestWorkloadData)
}

fn params(genid: &str) -> (Option<String>, Option<String>) {
    (Some("beeblebrox".to_string()), Some(genid.to_string()))
}

/// Decodes a body the way the transport does: as JSON with string members `commonName` and
/// `expiration`.
fn decode(body: &str) -> Result<CertificateRequest, String> {
    let v: serde_json::Value = serde_json::from_str(body).map_err(|e| e.to_string())?;
    let cn = v.get("commonName").and_then(|x| x.as_str());
    let exp = v.get("expiration").and_then(|x| x.as_str());
    match (cn, exp) {
        (Some(cn), Some(exp)) => Ok(CertificateRequest::new(cn.to_string(), exp.to_string())),
        _ => Err("missing field".to_string()),
    }
}

fn request(common_name: &str, expiration: &str) -> Result<CertificateRequest, String> {
    Ok(CertificateRequest::new(common_name.to_string(), expiration.to_string()))
}

fn error_message(response: &Response) -> String {
    match &response.body {
        ResponseBody::Error(e) => e.message.clone(),
        other => panic!("not an error body: {:?}", other),
    }
}

fn in_hours(h: i64) -> String {
    (Utc::now() + Duration::hours(h)).to_rfc3339()
}

fn check_props(props: &CertificateProperties) {
    assert_eq!("marvin", props.common_name());
    assert_eq!("beeblebroxIserver", props.alias());
    assert_eq!(CertificateType::Server, props.certificate_type());
    assert!(MAX_DURATION_SEC >= props.validity_in_secs());
}

#[test]
fn missing_name() {
    let handler = handler(TestHsm::default());
    let response = handler.handle(None, None, decode(""));
    assert_eq!(400, response.status);
    assert_eq!("Bad parameter", error_message(&response));
}

#[test]
fn missing_genid() {
    let handler = handler(TestHsm::default());
    let response = handler.handle(None, None, decode(""));
    assert_eq!(400, response.status);
    assert_eq!("Bad parameter", error_message(&response));
}

#[test]
fn empty_body() {
    let handler = handler(TestHsm::default());
    let (name, genid) = params("II");
    let response = handler.handle(name, genid, decode(""));
    assert_eq!(400, response.status);
    assert_ne!(error_message(&response).find("Bad body"), None);
}

#[test]
fn bad_body() {
    let handler = handler(TestHsm::default());
    let (name, genid) = params("III");
    let response = handler.handle(name, genid, decode("The answer is 42."));
    assert_eq!(400, response.status);
    assert_ne!(error_message(&response).find("Bad body"), None);
}

#[test]
fn empty_expiration() {
    let handler = handler(TestHsm::default());
    let (name, genid) = params("IV");
    let response = handler.handle(name, genid, request("", ""));
    assert_eq!(500, response.status);
    assert_ne!(
        error_message(&response).find("Argument is empty or only has whitespace"),
        None
    );
}

#[test]
fn whitespace_expiration() {
    let handler = handler(TestHsm::default());
    let (name, genid) = params("I");
    let response = handler.handle(name, genid, request("", "       "));
    assert_eq!(500, response.status);
    assert_ne!(
        error_message(&response).find("Argument is empty or only has whitespace"),
        None
    );
}

#[test]
fn invalid_expiration() {
    let handler = handler(TestHsm::default());
    let (name, genid) = params("I");
    let response = handler.handle(name, genid, request("", "Umm.. No.. Just no.."));
    assert_eq!(500, response.status);
    assert_ne!(error_message(&response).find("Invalid ISO 8601 date"), None);
}

#[test]
fn past_expiration() {
    let handler = handler(TestHsm::default());
    let (name, genid) = params("I");
    let response = handler.handle(name, genid, request("", "1999-06-28T16:39:57-08:00"));
    assert_eq!(500, response.status);
    assert_ne!(
        error_message(&response).find(format!("out of range [0, {})", MAX_DURATION_SEC).as_str()),
        None
    );
}

#[test]
fn empty_common_name() {
    let handler = handler(TestHsm::default());
    let (name, genid) = params("I");
    let response = handler.handle(name, genid, request("", &in_hours(1)));
    assert_eq!(500, response.status);
    assert_ne!(
        error_message(&response).find("Argument is empty or only has whitespace"),
        None
    );
}

#[test]
fn white_space_common_name() {
    let handler = handler(TestHsm::default());
    let (name, genid) = params("I");
    let response = handler.handle(name, genid, request("      ", &in_hours(1)));
    assert_eq!(500, response.status);
    assert_ne!(
        error_message(&response).find("Argument is empty or only has whitespace"),
        None
    );
}

#[test]
fn create_cert_fails() {
    let handler = handler(TestHsm::default().with_on_create(|props| {
        check_props(props);
        Err("An IO error occurred".to_string())
    }));
    let (name, genid) = params("I");
    let response = handler.handle(name, genid, request("marvin", &in_hours(1)));
    assert_eq!(500, response.status);
    assert_ne!(error_message(&response).find("An IO error occurred"), None);
}

#[test]
fn pem_fails() {
    let handler = handler(TestHsm::default().with_on_create(|props| {
        check_props(props);
        Ok(TestCert::default().with_fail_pem(true))
    }));
    let (name, genid) = params("I");
    let response = handler.handle(name, genid, request("marvin", &in_hours(1)));
    assert_eq!(500, response.status);
    assert_ne!(error_message(&response).find("An IO error occurred"), None);
}

#[test]
fn private_key_fails() {
    let handler = handler(TestHsm::default().with_on_create(|props| {
        check_props(props);
        Ok(TestCert::default().with_fail_private_key(true))
    }));
    let (name, genid) = params("I");
    let response = handler.handle(name, genid, request("marvin", &in_hours(1)));
    assert_eq!(500, response.status);
    assert_ne!(error_message(&response).find("An IO error occurred"), None);
}

fn certificate_body(response: Response) -> edgelet_workload_cert::response::CertificateResponse {
    match response.body {
        ResponseBody::Certificate(c) => c,
        other => panic!("not a certificate body: {:?}", other),
    }
}

#[test]
fn succeeds_key() {
    let handler = handler(TestHsm::default().with_on_create(|props| {
        check_props(props);
        Ok(TestCert::default().with_private_key(PrivateKey::Key(b"Betelgeuse".to_vec())))
    }));
    let (name, genid) = params("I");
    let response = handler.handle(name, genid, request("marvin", &in_hours(1)));
    assert_eq!(201, response.status);
    let cert_resp = certificate_body(response);
    assert_eq!("key", cert_resp.private_key.type_);
    assert_eq!(Some("Betelgeuse"), cert_resp.private_key.bytes.as_deref());
}

#[test]
fn succeeds_ref() {
    let handler = handler(TestHsm::default().with_on_create(|props| {
        check_props(props);
        Ok(TestCert::default().with_private_key(PrivateKey::Ref("Betelgeuse".to_string())))
    }));
    let (name, genid) = params("I");
    let response = handler.handle(name, genid, request("marvin", &in_hours(1)));
    assert_eq!(201, response.status);
    let cert_resp = certificate_body(response);
    assert_eq!("ref", cert_resp.private_key.type_);
    assert_eq!(Some("Betelgeuse"), cert_resp.private_key.ref_.as_deref());
}

#[test]
fn long_expiration_capped_to_max_duration_ok() {
    let handler = handler(TestHsm::default().with_on_create(|props| {
        assert_eq!("marvin", props.common_name());
        assert_eq!("beeblebroxIserver", props.alias());
        assert_eq!(CertificateType::Server, props.certificate_type());
        assert_eq!(MAX_DURATION_SEC, props.validity_in_secs());
        Ok(TestCert::default().with_private_key(PrivateKey::Key(b"Betelgeuse".to_vec())))
    }));
    let (name, genid) = params("I");
    let response = handler.handle(name, genid, request("marvin", &in_hours(7000)));
    assert_eq!(201, response.status);
    let cert_resp = certificate_body(response);
    assert_eq!("key", cert_resp.private_key.type_);
    assert_eq!(Some("Betelgeuse"), cert_resp.private_key.bytes.as_deref());
}

#[test]
fn get_cert_time_fails() {
    let handler = handler(TestHsm::default().with_on_create(|props| {
        check_props(props);
        Ok(TestCert::default().with_fail_valid_to(true))
    }));
    let (name, genid) = params("I");
    let response = handler.handle(name, genid, request("marvin", &in_hours(1)));
    assert_eq!(500, response.status);
    assert!(error_message(&response).find("An IO error occurred").is_some());
}
