use ftp_suite::config::{AppConfig, DEFAULT_PORT};
use ftp_suite::links::qr_to_string;
use ftp_suite::tls::generate_self_signed;

#[test]
fn default_config() {
    let c = AppConfig::default();
    assert_eq!(c.port, 2121);
    assert_eq!(DEFAULT_PORT, 2121);
    assert!(c.upnp);
}

#[test]
fn qr_renders_text() {
    let q = qr_to_string("age1example").unwrap();
    assert!(!q.is_empty());
    assert_ne!(q, "age1example");
    assert!(q.lines().count() > 5);
    assert_eq!(qr_to_string("age1example").unwrap(), q);
}

#[test]
fn qr_refuses_oversized_data() {
    let big = "x".repeat(10000);
    assert_eq!(qr_to_string(&big), Err(ftp_suite::links::QrError::DataTooLong));
}

#[test]
fn self_signed_identity() {
    let id = generate_self_signed(&vec!["localhost".to_string()]).unwrap();
    assert!(!id.certificate.is_empty());
    assert!(!id.private_key.is_empty());
    assert_eq!(id.certificate[0], 0x30);
}
