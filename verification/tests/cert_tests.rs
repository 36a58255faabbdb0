use jetbra_tools::cert_gen::{
    parse_root_public_key_from_pem, rc_gen_certificate, sign_from_pem, GenCertificateParams,
    PublicExponent,
};
use jetbra_tools::error::ErrorKind;
use rsa::pkcs8::DecodePrivateKey;
use rsa::traits::PublicKeyParts;

fn small_params() -> GenCertificateParams {
    GenCertificateParams {
        datetime_start: 1218182888,
        datetime_end: 4102444799,
        public_exponent: PublicExponent::NewExponent,
        key_size: 2048,
        subject_name: "Your Subject Name".to_string(),
        issuer_name: "JetProfile CA".to_string(),
    }
}

fn parsed_serial_and_validity(cert_pem: &str) -> (Vec<u8>, i64, i64) {
    let (_, pem) = x509_parser::pem::parse_x509_pem(cert_pem.as_bytes()).unwrap();
    let cert = pem.parse_x509().unwrap();
    let serial = cert.tbs_certificate.raw_serial().to_vec();
    let not_before = cert.validity().not_before.timestamp();
    let not_after = cert.validity().not_after.timestamp();
    (serial, not_before, not_after)
}

// The serial is written as a DER integer: a value whose leading bit is
// set gains one zero byte of padding on the wire.
fn unpadded(serial: &[u8]) -> &[u8] {
    if serial.len() > 1 && serial[0] == 0 {
        &serial[1..]
    } else {
        serial
    }
}

#[test]
fn test_gen_certificate_exact_modulus_and_validity() {
    let params = small_params();
    let (private_key_pem, certificate_pem) = rc_gen_certificate(params).unwrap();

    let key = rsa::RsaPrivateKey::from_pkcs8_pem(&private_key_pem).unwrap();
    assert_eq!(key.n().bits(), 2048);
    assert_eq!(key.e(), &rsa::BigUint::from(65537u64));

    let (_, not_before, not_after) = parsed_serial_and_validity(&certificate_pem);
    assert_eq!(not_before, 1218182888);
    assert_eq!(not_after, 4102444799);

    // The modulus surfaced by the inspection path equals the key's.
    let modulus = parse_root_public_key_from_pem(certificate_pem.as_bytes()).unwrap();
    assert_eq!(modulus, key.n().to_string());
}

#[test]
fn test_serial_numbers_differ_across_artifacts() {
    let (_, cert_a) = rc_gen_certificate(small_params()).unwrap();
    let (_, cert_b) = rc_gen_certificate(small_params()).unwrap();
    let (serial_a, _, _) = parsed_serial_and_validity(&cert_a);
    let (serial_b, _, _) = parsed_serial_and_validity(&cert_b);
    assert_eq!(unpadded(&serial_a).len(), 20);
    assert_eq!(unpadded(&serial_b).len(), 20);
    assert_ne!(serial_a, serial_b);
}

#[test]
fn test_legacy_exponent_rejected_by_signer() {
    // A key with the legacy exponent 3 can be generated, but the
    // signing backend accepts only key pairs with an exponent of at
    // least 65537 and a modulus of at least 2048 bits, so certificate
    // assembly reports a crypto error.
    let params = GenCertificateParams {
        public_exponent: PublicExponent::OldExponent,
        key_size: 512,
        ..small_params()
    };
    let err = rc_gen_certificate(params).unwrap_err();
    assert_eq!(err.kind, ErrorKind::Crypto);
}

#[test]
fn test_default_params() {
    let params = GenCertificateParams::default();
    assert_eq!(params.datetime_start, 1218182888);
    assert_eq!(params.datetime_end, 4102444799);
    assert_eq!(params.key_size, 4096);
    assert_eq!(params.public_exponent, PublicExponent::NewExponent);
    assert_eq!(params.issuer_name, "JetProfile CA");
}

#[test]
fn test_sign_from_pem_matches_signature_bytes() {
    let (_, certificate_pem) = rc_gen_certificate(small_params()).unwrap();
    let (sign_decimal, filled_sign) = sign_from_pem(certificate_pem.as_bytes()).unwrap();
    assert_eq!(filled_sign, "");

    let (_, pem) = x509_parser::pem::parse_x509_pem(certificate_pem.as_bytes()).unwrap();
    let cert = pem.parse_x509().unwrap();
    let expected = rsa::BigUint::from_bytes_be(&cert.signature_value.data).to_string();
    assert_eq!(sign_decimal, expected);
    // A 2048-bit signature renders as a number of roughly 617 decimal
    // digits, never as raw bytes.
    assert!(sign_decimal.len() > 100);
    assert!(sign_decimal.bytes().all(|b| b.is_ascii_digit()));
}

#[test]
fn test_parse_root_public_key_rejects_junk() {
    let err = parse_root_public_key_from_pem(b"not a pem").unwrap_err();
    assert_eq!(err.kind, ErrorKind::Parse);
}

#[test]
fn test_sign_from_pem_rejects_junk() {
    let err = sign_from_pem(b"-----BEGIN NOTHING-----").unwrap_err();
    assert_eq!(err.kind, ErrorKind::Parse);
}

#[test]
fn test_pre_year_zero_validity_is_crypto_error() {
    // One second before 0000-01-01T00:00:00Z: the serializer cannot
    // render such a year, so the request is rejected up front.
    let params = GenCertificateParams {
        datetime_start: -62167219201,
        ..small_params()
    };
    let err = rc_gen_certificate(params).unwrap_err();
    assert_eq!(err.kind, ErrorKind::Crypto);
    assert_eq!(err.message(), "validity timestamp out of range");
}

#[test]
fn test_year_zero_validity_is_accepted_by_range_check() {
    // Exactly 0000-01-01T00:00:00Z passes the range check; the rest of
    // the pipeline then decides (a tiny key keeps this fast: the
    // signer rejects it, which is a crypto error from a later stage).
    let params = GenCertificateParams {
        datetime_start: -62167219200,
        key_size: 512,
        ..small_params()
    };
    let err = rc_gen_certificate(params).unwrap_err();
    assert_eq!(err.kind, ErrorKind::Crypto);
    assert_eq!(err.message(), "key pair rejected");
}

#[test]
fn test_out_of_range_validity_is_crypto_error() {
    let params = GenCertificateParams {
        datetime_end: i64::MAX,
        ..small_params()
    };
    let err = rc_gen_certificate(params).unwrap_err();
    assert_eq!(err.kind, ErrorKind::Crypto);
}
