//! Signing, hashing, the heartbeat request, credentials and the text
//! helpers.
use kiosk_engine::auth::{bytes_to_hex, hardware_fingerprint, hmac_sha256_hex, sha256_hex};
use kiosk_engine::error::EngineError;
use kiosk_engine::heartbeat::{
    default_backend_url, heartbeat_body, is_success_status, prepare_heartbeat,
    prepare_heartbeat_at, validate_credentials, DeviceCredentials,
};
use kiosk_engine::text::{i64_to_string, u64_to_string};

#[test]
fn hex_rendering_is_two_digits_per_byte() {
    assert_eq!(bytes_to_hex(&[]), "");
    assert_eq!(bytes_to_hex(&[0x00, 0x0f, 0xa5, 0xff]), "000fa5ff");
}

#[test]
fn hmac_matches_published_test_vector() {
    // RFC 4231, test case 2.
    assert_eq!(
        hmac_sha256_hex("Jefe", "what do ya want for nothing?"),
        "5bdcc146bf60754e6a042426089575c75a003f089d2739839dec58b964ec3843"
    );
}

#[test]
fn sha256_matches_published_test_vector() {
    assert_eq!(
        sha256_hex("abc"),
        "ba7816bf8f01cfea414140de5dae2223b00361a396177a9cb410ff61f20015ad"
    );
}

#[test]
fn signing_twice_gives_identical_signatures() {
    let a = hmac_sha256_hex("secret", "body");
    let b = hmac_sha256_hex("secret", "body");
    assert_eq!(a, b);
}

#[test]
fn changing_secret_or_body_changes_signature() {
    let base = hmac_sha256_hex("secret", "body");
    assert_ne!(base, hmac_sha256_hex("secres", "body"));
    assert_ne!(base, hmac_sha256_hex("secret", "bodz"));
}

#[test]
fn heartbeat_body_is_exact_json() {
    assert_eq!(
        heartbeat_body(1_700_000_000),
        "{\"timestamp\":\"1700000000\",\"status\":\"online\"}"
    );
    assert_eq!(heartbeat_body(0), "{\"timestamp\":\"0\",\"status\":\"online\"}");
}

#[test]
fn prepared_heartbeat_carries_signed_body_and_headers() {
    let creds = DeviceCredentials {
        pc_id: 77,
        license_key: "LIC".to_string(),
        device_secret: "topsecret".to_string(),
    };
    let r = prepare_heartbeat_at(&creds, "https://backend.example", 1_700_000_000);
    assert_eq!(r.url, "https://backend.example/api/clientpc/heartbeat");
    assert_eq!(r.pc_id_header, "77");
    assert_eq!(r.timestamp_header, "1700000000");
    assert_eq!(r.body, "{\"timestamp\":\"1700000000\",\"status\":\"online\"}");
    assert_eq!(r.signature_header, hmac_sha256_hex("topsecret", &r.body));
    assert_eq!(r.timestamp, 1_700_000_000);
}

#[test]
fn prepared_heartbeat_now_is_consistent_with_its_timestamp() {
    let creds = DeviceCredentials {
        pc_id: 1,
        license_key: String::new(),
        device_secret: "s".to_string(),
    };
    let r = prepare_heartbeat(&creds, "http://b");
    assert_eq!(r.body, format!("{{\"timestamp\":\"{}\",\"status\":\"online\"}}", r.timestamp));
    assert_eq!(r.timestamp_header, r.timestamp.to_string());
}

#[test]
fn credentials_require_id_and_secret() {
    let r = validate_credentials(None, Some("l".to_string()), Some("s".to_string()));
    assert_eq!(r.unwrap_err(), EngineError::MissingPcId);
    assert_eq!(EngineError::MissingPcId.message(), "missing pc_id in credentials");

    let r = validate_credentials(Some(5), None, None);
    assert_eq!(r.unwrap_err(), EngineError::MissingDeviceSecret);
    assert_eq!(
        EngineError::MissingDeviceSecret.message(),
        "missing device_secret in credentials"
    );

    let c = validate_credentials(Some(5), None, Some("s".to_string())).unwrap();
    assert_eq!(c.pc_id, 5);
    assert_eq!(c.license_key, "");
    assert_eq!(c.device_secret, "s");

    let c = validate_credentials(Some(6), Some("k".to_string()), Some("t".to_string())).unwrap();
    assert_eq!(c.license_key, "k");
}

#[test]
fn default_backend_url_is_fixed() {
    assert_eq!(default_backend_url(), "https://api.primustech.in");
}

#[test]
fn success_statuses_are_the_2xx_range() {
    assert!(!is_success_status(199));
    assert!(is_success_status(200));
    assert!(is_success_status(299));
    assert!(!is_success_status(300));
    assert!(!is_success_status(500));
}

#[test]
fn fingerprint_hashes_the_joined_identity() {
    let fp = hardware_fingerprint("host", "brand cpu", 16384, "x86_64");
    assert_eq!(fp, sha256_hex("host-brand cpu-16384-x86_64"));
    assert_eq!(fp.len(), 64);
    // Reproducible on the same inputs.
    assert_eq!(fp, hardware_fingerprint("host", "brand cpu", 16384, "x86_64"));
    // Sensitive to each input.
    assert_ne!(fp, hardware_fingerprint("host2", "brand cpu", 16384, "x86_64"));
}

#[test]
fn decimal_rendering_is_exact() {
    assert_eq!(u64_to_string(0), "0");
    assert_eq!(u64_to_string(7), "7");
    assert_eq!(u64_to_string(1234567890), "1234567890");
    assert_eq!(u64_to_string(u64::MAX), "18446744073709551615");
    assert_eq!(i64_to_string(0), "0");
    assert_eq!(i64_to_string(-1), "-1");
    assert_eq!(i64_to_string(1_700_000_000), "1700000000");
    assert_eq!(i64_to_string(i64::MIN), "-9223372036854775808");
    assert_eq!(i64_to_string(i64::MAX), "9223372036854775807");
}
