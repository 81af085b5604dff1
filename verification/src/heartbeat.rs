//! The device heartbeat: validating the stored credential record and
//! building the signed request. The body is `{"timestamp": "<unix
//! seconds>", "status": "online"}` and the signature is the hex
//! HMAC-SHA-256 of the body under the device secret. Sending the request
//! is the surrounding shell's work; everything it sends is pinned down
//! here.
use vstd::prelude::*;
use vstd::string::{StringExecFns, StringSliceAdditionalSpecFns};
use vstd::utf8::encode_utf8;

use crate::auth::{spec_hex, spec_hmac_sha256, hmac_sha256_hex};
use crate::error::EngineError;
use crate::text::{append_i64, i64_to_string, spec_i64_string};

verus! {

/// The device credential record the host stores for this endpoint.
#[derive(Clone, Debug)]
pub struct DeviceCredentials {
    /// The numeric device identifier the backend issued.
    pub pc_id: i64,
    /// The licence key the device was registered under.
    pub license_key: String,
    /// The shared secret heartbeats are signed with.
    pub device_secret: String,
}

/// Validates a credential record read from the host's storage, each field
/// given as present or missing. Signing refuses to proceed without the
/// device identifier and the secret; a missing licence key is tolerated
/// and recorded as empty.
pub fn validate_credentials(
    pc_id: Option<i64>,
    license_key: Option<String>,
    device_secret: Option<String>,
) -> (r: Result<DeviceCredentials, EngineError>)
    ensures
        r is Ok <==> (pc_id is Some && device_secret is Some),
        r matches Ok(c) ==> {
            &&& c.pc_id == pc_id.unwrap()
            &&& c.device_secret == device_secret.unwrap()
            &&& (license_key matches Some(k) ==> c.license_key == k)
            &&& (license_key is None ==> c.license_key@ == Seq::<char>::empty())
        },
        pc_id is None ==> r == Result::<DeviceCredentials, EngineError>::Err(
            EngineError::MissingPcId,
        ),
        pc_id is Some && device_secret is None ==> r == Result::<DeviceCredentials, EngineError>::Err(
            EngineError::MissingDeviceSecret,
        ),
{
    match pc_id {
        None => Err(EngineError::MissingPcId),
        Some(id) => match device_secret {
            None => Err(EngineError::MissingDeviceSecret),
            Some(secret) => {
                let license = match license_key {
                    Some(k) => k,
                    None => String::new(),
                };
                Ok(DeviceCredentials { pc_id: id, license_key: license, device_secret: secret })
            },
        },
    }
}

/// The heartbeat body for a timestamp, the unix seconds carried as a
/// string.
pub open spec fn spec_heartbeat_body(timestamp: i64) -> Seq<char> {
    "{\"timestamp\":\""@ + spec_i64_string(timestamp as int) + "\",\"status\":\"online\"}"@
}

/// Builds the heartbeat body for a timestamp.
pub fn heartbeat_body(timestamp: i64) -> (r: String)
    ensures
        r@ == spec_heartbeat_body(timestamp),
{
    let mut s = String::from_str("{\"timestamp\":\"");
    append_i64(&mut s, timestamp);
    s.append("\",\"status\":\"online\"}");
    proof {
        assert(s@ =~= spec_heartbeat_body(timestamp));
    }
    s
}

/// The heartbeat endpoint under a backend base URL.
pub open spec fn spec_heartbeat_url(backend_url: Seq<char>) -> Seq<char> {
    backend_url + "/api/clientpc/heartbeat"@
}

/// The signature of the heartbeat body for a timestamp under a device
/// secret.
pub open spec fn spec_heartbeat_signature(secret: Seq<char>, timestamp: i64) -> Seq<char> {
    spec_hex(spec_hmac_sha256(encode_utf8(secret), encode_utf8(spec_heartbeat_body(timestamp))))
}

/// Law: signing is deterministic. The same secret and the same body
/// (that is, the same timestamp) always yield the identical signature,
/// on every call and on every machine.
pub proof fn lemma_signature_deterministic(
    secret1: Seq<char>,
    timestamp1: i64,
    secret2: Seq<char>,
    timestamp2: i64,
)
    requires
        secret1 == secret2,
        timestamp1 == timestamp2,
    ensures
        spec_heartbeat_signature(secret1, timestamp1) == spec_heartbeat_signature(
            secret2,
            timestamp2,
        ),
{
}

/// A heartbeat request, ready to send: the endpoint, the three header
/// values and the signed body.
#[derive(Clone, Debug)]
pub struct HeartbeatRequest {
    /// Where to POST: the backend's heartbeat endpoint.
    pub url: String,
    /// The `X-PC-ID` header value.
    pub pc_id_header: String,
    /// The `X-Signature` header value.
    pub signature_header: String,
    /// The `X-Timestamp` header value.
    pub timestamp_header: String,
    /// The JSON body.
    pub body: String,
    /// The timestamp the body and headers were built from.
    pub timestamp: i64,
}

/// Builds the signed heartbeat request for a given timestamp.
pub fn prepare_heartbeat_at(creds: &DeviceCredentials, backend_url: &str, timestamp: i64) -> (r:
    HeartbeatRequest)
    ensures
        r.timestamp == timestamp,
        r.url@ == spec_heartbeat_url(backend_url@),
        r.body@ == spec_heartbeat_body(timestamp),
        r.pc_id_header@ == spec_i64_string(creds.pc_id as int),
        r.timestamp_header@ == spec_i64_string(timestamp as int),
        r.signature_header@ == spec_heartbeat_signature(creds.device_secret@, timestamp),
{
    let body = heartbeat_body(timestamp);
    let signature = hmac_sha256_hex(creds.device_secret.as_str(), body.as_str());
    let mut url = String::from_str(backend_url);
    url.append("/api/clientpc/heartbeat");
    HeartbeatRequest {
        url,
        pc_id_header: i64_to_string(creds.pc_id),
        signature_header: signature,
        timestamp_header: i64_to_string(timestamp),
        body,
        timestamp,
    }
}

/// Relies on `chrono::Utc::now` (and `DateTime::timestamp`) for the
/// current unix time; nothing is assumed of the value, which depends on
/// the clock.
#[verifier::external_body]
fn now_unix_seconds() -> i64 {
    chrono::Utc::now().timestamp()
}

/// Builds the signed heartbeat request for the current time. The clock's
/// reading is reported back in the result's `timestamp` field, and
/// everything else in the request is determined by it as
/// `prepare_heartbeat_at` states.
pub fn prepare_heartbeat(creds: &DeviceCredentials, backend_url: &str) -> (r: HeartbeatRequest)
    ensures
        r.url@ == spec_heartbeat_url(backend_url@),
        r.body@ == spec_heartbeat_body(r.timestamp),
        r.pc_id_header@ == spec_i64_string(creds.pc_id as int),
        r.timestamp_header@ == spec_i64_string(r.timestamp as int),
        r.signature_header@ == spec_heartbeat_signature(creds.device_secret@, r.timestamp),
{
    let now = now_unix_seconds();
    prepare_heartbeat_at(creds, backend_url, now)
}

/// The backend base URL used when the host configures none.
pub fn default_backend_url() -> (r: String)
    ensures
        r@ == "https://api.primustech.in"@,
{
    String::from_str("https://api.primustech.in")
}

/// Whether an HTTP status code counts as heartbeat success: any 2xx
/// response. Anything else is a reported error, never silently ignored.
pub fn is_success_status(code: u16) -> (r: bool)
    ensures
        r <==> (200 <= code && code < 300),
{
    200 <= code && code < 300
}

} // verus!
