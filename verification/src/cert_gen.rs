//! Self-signed certificate manufacture and certificate inspection.
//!
//! The generation path turns request parameters into an RSA key pair
//! and a self-signed X.509 certificate, both rendered as PEM text: key
//! generation is the rsa crate's work, certificate assembly and
//! signing the rcgen crate's, each reached through trusted
//! declarations. What the generated artifacts hold is named by
//! uninterpreted extractors over the returned text — the key the
//! private-key PEM encodes, and the certificate's validity window,
//! serial number, Common Names and embedded public key — so the
//! generation contract pins each of them to the request. The
//! inspection path decodes a PEM certificate back into its public-key
//! modulus and signature value, both rendered as decimal text whose
//! exact shape is specified here.

use vstd::prelude::*;

use crate::error::{Error, ErrorKind};
use crate::text::spec_decimal;
use rsa::pkcs1::DecodeRsaPublicKey;
use rsa::pkcs8::EncodePrivateKey;
use rsa::traits::PublicKeyParts;
use time::OffsetDateTime;
use vstd::utf8::encode_utf8;

verus! {

/// The two sanctioned RSA public exponents: the legacy value 3 and the
/// conventional value 65537. A closed set — no other exponent can be
/// requested.
#[derive(Clone, Copy, Debug, PartialEq, Eq, Structural)]
pub enum PublicExponent {
    OldExponent,
    NewExponent,
}

/// The numeric value of a sanctioned exponent.
pub open spec fn spec_exponent_value(e: PublicExponent) -> u64 {
    match e {
        PublicExponent::OldExponent => 3,
        PublicExponent::NewExponent => 65537,
    }
}

impl PublicExponent {
    /// The numeric value of this exponent.
    pub fn value(&self) -> (v: u64)
        ensures
            v == spec_exponent_value(*self),
    {
        match self {
            PublicExponent::OldExponent => 3,
            PublicExponent::NewExponent => 65537,
        }
    }
}

impl Default for PublicExponent {
    /// The conventional exponent 65537.
    fn default() -> (e: Self)
        ensures
            e == PublicExponent::NewExponent,
    {
        PublicExponent::NewExponent
    }
}

/// The parameters of one certificate request: the validity window as
/// Unix timestamps, the public exponent, the RSA key size in bits, and
/// the subject and issuer names. The issuer name becomes the
/// certificate's single Common Name.
pub struct GenCertificateParams {
    pub datetime_start: i64,
    pub datetime_end: i64,
    pub public_exponent: PublicExponent,
    pub key_size: u16,
    pub subject_name: String,
    pub issuer_name: String,
}

impl Default for GenCertificateParams {
    /// A window from 2008-08-08T08:08:08 UTC to 2099-12-31T23:59:59
    /// UTC, the conventional exponent, and a 4096-bit key.
    fn default() -> (p: Self)
        ensures
            p.datetime_start == 1218182888,
            p.datetime_end == 4102444799,
            p.public_exponent == PublicExponent::NewExponent,
            p.key_size == 4096,
            p.subject_name@ == "anonymous-from-20080808"@,
            p.issuer_name@ == "JetProfile CA"@,
    {
        Self {
            datetime_start: 1218182888,
            datetime_end: 4102444799,
            public_exponent: PublicExponent::NewExponent,
            key_size: 4096,
            subject_name: "anonymous-from-20080808".to_owned(),
            issuer_name: "JetProfile CA".to_owned(),
        }
    }
}

/// The number of binary digits of `n` (zero for zero): the bit length
/// that the requested key size constrains.
pub open spec fn spec_bit_length(n: nat) -> nat
    decreases n,
{
    if n == 0 {
        0
    } else {
        (1 + spec_bit_length(n / 2)) as nat
    }
}

/// Relies on rand's `OsRng` and `RngCore::fill_bytes`: fills the
/// buffer from the operating system's secure generator. Only the
/// length of the result is stated; the bytes are random, so nothing
/// further holds of every outcome.
#[verifier::external_body]
fn random_serial_number() -> (r: Vec<u8>)
    ensures
        r@.len() == 20,
{
    let mut serial_number = [0u8; 20];
    rand::RngCore::fill_bytes(&mut rand::rngs::OsRng, &mut serial_number);
    serial_number.to_vec()
}

/// Declares rsa's `RsaPrivateKey` so that generated keys can flow
/// through verified code; the key itself stays opaque and is read only
/// through [`spec_rsa_key`].
#[verifier::external_type_specification]
#[verifier::external_body]
pub struct ExRsaPrivateKey(rsa::RsaPrivateKey);

/// What an opaque RSA private key holds: its public `(modulus,
/// exponent)` pair. The trusted wrappers that produce and encode keys
/// all speak over this name.
pub uninterp spec fn spec_rsa_key(k: rsa::RsaPrivateKey) -> (nat, nat);

/// Relies on rsa's `RsaPrivateKey::new_with_exp`: generates an RSA key
/// pair of the requested bit size and public exponent from the secure
/// random source — its generation loop retries until the modulus has
/// exactly `bits` bits and carries exactly the requested exponent.
/// Only the two sanctioned exponents are admitted: with an even
/// exponent no attempt can ever succeed, so the call would not return.
/// Too-small sizes return an error; the key itself is random, so
/// nothing further is stated of it.
#[verifier::external_body]
fn gen_rsa_private_key(bits: usize, exponent: u64) -> (r: Result<rsa::RsaPrivateKey, Error>)
    requires
        exponent == 3 || exponent == 65537,
    ensures
        r matches Ok(k) ==> (spec_bit_length(spec_rsa_key(k).0) == bits && spec_rsa_key(k).1
            == exponent),
        r matches Err(e) ==> (e.kind == ErrorKind::Crypto && e.details@
            == "RSA key generation failed"@),
{
    let exp = rsa::BigUint::from(exponent);
    match rsa::RsaPrivateKey::new_with_exp(&mut rand::rngs::OsRng, bits, &exp) {
        Ok(key) => Ok(key),
        Err(_) => Err(Error::new(ErrorKind::Crypto, "RSA key generation failed")),
    }
}

/// What PKCS#8 DER decoding reads out of the bytes as an RSA key's
/// public `(modulus, exponent)` pair: `None` where the bytes do not
/// hold an RSA private key.
pub uninterp spec fn spec_pkcs8_key(der: Seq<u8>) -> Option<(nat, nat)>;

/// Relies on rsa's `EncodePrivateKey::to_pkcs8_der`: encodes the
/// private key as a PKCS#8 DER document, which decodes back to exactly
/// that key.
#[verifier::external_body]
fn key_to_pkcs8_der(key: &rsa::RsaPrivateKey) -> (r: Result<Vec<u8>, Error>)
    ensures
        r matches Ok(d) ==> spec_pkcs8_key(d@) == Some(spec_rsa_key(*key)),
        r matches Err(e) ==> (e.kind == ErrorKind::Crypto && e.details@
            == "PKCS#8 encoding failed"@),
{
    match key.to_pkcs8_der() {
        Ok(doc) => Ok(doc.as_bytes().to_vec()),
        Err(_) => Err(Error::new(ErrorKind::Crypto, "PKCS#8 encoding failed")),
    }
}

/// What PKCS#8 PEM decoding reads out of the text's bytes as an RSA
/// key's public `(modulus, exponent)` pair: `None` where the text does
/// not hold an RSA private key.
pub uninterp spec fn spec_key_pem_key(pem: Seq<u8>) -> Option<(nat, nat)>;

/// The certificate's validity window `(notBefore, notAfter)` as Unix
/// timestamps, as PEM decoding and X.509 parsing extract it: `None`
/// where the text is not a PEM certificate.
pub uninterp spec fn spec_cert_validity(pem: Seq<u8>) -> Option<(int, int)>;

/// The certificate's serial number as an unsigned integer, as PEM
/// decoding and X.509 parsing extract it: `None` where the text is not
/// a PEM certificate.
pub uninterp spec fn spec_cert_serial_value(pem: Seq<u8>) -> Option<nat>;

/// The Common Name values of the certificate's subject, in order, as
/// PEM decoding and X.509 parsing extract them: `None` where the text
/// is not a PEM certificate.
pub uninterp spec fn spec_cert_common_names(pem: Seq<u8>) -> Option<Seq<Seq<char>>>;

/// The Unix timestamps whose civil year lies in 0 through 9999: the
/// window the certificate serializer can render. A DER validity field
/// outside 1950-2050 is written as a `GeneralizedTime`, whose
/// four-digit year starts at zero; the upper bound is the last second
/// of year 9999.
pub open spec fn spec_serializable_timestamp(ts: int) -> bool {
    -62167219200 <= ts <= 253402300799
}

/// Relies on time's `OffsetDateTime::from_unix_timestamp`, rcgen's
/// `CertificateParams`, `KeyPair::try_from` and
/// `Certificate::from_params`, and the PEM serializers. On success the
/// key DER held an RSA key; the private-key PEM wraps the same DER, so
/// it encodes the same key; the certificate carries the given window
/// to one-second precision, the given serial bytes as its unsigned
/// integer serial, the issuer as its single subject Common Name, and
/// the key's public half — with RSA-SHA256 as signature algorithm and
/// the default SHA-256 key-identifier method. Timestamps are admitted
/// only where the serializer's time rendering is total, so the call
/// cannot panic.
#[verifier::external_body]
fn build_and_sign_certificate(
    start: i64,
    end: i64,
    serial: Vec<u8>,
    issuer: &str,
    key_der: &[u8],
) -> (r: Result<(String, String), Error>)
    requires
        spec_serializable_timestamp(start as int),
        spec_serializable_timestamp(end as int),
    ensures
        r matches Ok(p) ==> ({
            let key_bytes = encode_utf8(p.0@);
            let cert_bytes = encode_utf8(p.1@);
            &&& spec_pkcs8_key(key_der@) matches Some(k) && spec_key_pem_key(key_bytes) == Some(
                k,
            ) && (spec_cert_public_key_der(cert_bytes) matches Some(spki) && spec_pkcs1_key(spki)
                == Some(k))
            &&& spec_cert_validity(cert_bytes) == Some((start as int, end as int))
            &&& spec_cert_serial_value(cert_bytes) == Some(spec_be_value(serial@))
            &&& spec_cert_common_names(cert_bytes) == Some(seq![issuer@])
        }),
        r matches Err(e) ==> (e.kind == ErrorKind::Crypto && (e.details@ == "key pair rejected"@
            || e.details@ == "certificate assembly failed"@ || e.details@
            == "certificate serialization failed"@)),
{
    let mut p = rcgen::CertificateParams::new(vec![]);
    p.alg = &rcgen::PKCS_RSA_SHA256;
    p.not_before = OffsetDateTime::from_unix_timestamp(start).unwrap();
    p.not_after = OffsetDateTime::from_unix_timestamp(end).unwrap();
    p.serial_number = Some(rcgen::SerialNumber::from(serial));
    p.distinguished_name = rcgen::DistinguishedName::new();
    p.distinguished_name.push(rcgen::DnType::CommonName, issuer);
    p.key_pair = Some(rcgen::KeyPair::try_from(key_der).map_err(|_| Error::new(ErrorKind::Crypto, "key pair rejected"))?);
    let cert = rcgen::Certificate::from_params(p).map_err(|_| Error::new(ErrorKind::Crypto, "certificate assembly failed"))?;
    let cert_pem = cert.serialize_pem().map_err(|_| Error::new(ErrorKind::Crypto, "certificate serialization failed"))?;
    Ok((cert.serialize_private_key_pem(), cert_pem))
}

/// The detail text of the up-front range rejection differs from every
/// detail text a later stage can produce, so the error source is
/// identifiable.
proof fn lemma_crypto_details_distinct()
    ensures
        "RSA key generation failed"@ != "validity timestamp out of range"@,
        "PKCS#8 encoding failed"@ != "validity timestamp out of range"@,
        "key pair rejected"@ != "validity timestamp out of range"@,
        "certificate assembly failed"@ != "validity timestamp out of range"@,
        "certificate serialization failed"@ != "validity timestamp out of range"@,
{
    reveal_strlit("validity timestamp out of range");
    reveal_strlit("RSA key generation failed");
    reveal_strlit("PKCS#8 encoding failed");
    reveal_strlit("key pair rejected");
    reveal_strlit("certificate assembly failed");
    reveal_strlit("certificate serialization failed");
    assert("validity timestamp out of range"@.len() == 31);
    assert("RSA key generation failed"@.len() == 25);
    assert("PKCS#8 encoding failed"@.len() == 22);
    assert("key pair rejected"@.len() == 17);
    assert("certificate assembly failed"@.len() == 27);
    assert("certificate serialization failed"@.len() == 32);
}

/// Generates an RSA key pair and a self-signed certificate for the
/// given parameters and returns them as `(private key PEM,
/// certificate PEM)`.
///
/// Both window timestamps must fall in the years 0 through 9999 — the
/// range the certificate serializer can render — else the call fails
/// up front with a crypto error; an inverted window inside that range
/// is passed to the builder unchanged. Key generation and signing rest
/// on outside crates and fresh randomness, so success is never owed;
/// but on success the private-key PEM encodes a key of exactly the
/// requested bit length and exponent, and the certificate carries the
/// requested window to one-second precision, a 20-byte random serial,
/// the issuer name as its single Common Name, and that same key's
/// public half. Every failure is reported as a crypto error, never a
/// panic, and nothing depends on `subject_name`.
pub fn rc_gen_certificate(gen_certificate_params: GenCertificateParams) -> (r: Result<
    (String, String),
    Error,
>)
    ensures
        r matches Err(e) ==> e.kind == ErrorKind::Crypto,
        !(spec_serializable_timestamp(gen_certificate_params.datetime_start as int)
            && spec_serializable_timestamp(gen_certificate_params.datetime_end as int)) ==> (
        r matches Err(e) && e.details@ == "validity timestamp out of range"@),
        (spec_serializable_timestamp(gen_certificate_params.datetime_start as int)
            && spec_serializable_timestamp(gen_certificate_params.datetime_end as int)) ==> (
        r matches Err(e) ==> e.details@ != "validity timestamp out of range"@),
        r matches Ok(p) ==> ({
            let key_bytes = encode_utf8(p.0@);
            let cert_bytes = encode_utf8(p.1@);
            &&& spec_key_pem_key(key_bytes) matches Some(k) && spec_bit_length(k.0)
                == gen_certificate_params.key_size && k.1 == spec_exponent_value(
                gen_certificate_params.public_exponent,
            ) && (spec_cert_public_key_der(cert_bytes) matches Some(spki) && spec_pkcs1_key(spki)
                == Some(k))
            &&& spec_cert_validity(cert_bytes) == Some(
                (
                    gen_certificate_params.datetime_start as int,
                    gen_certificate_params.datetime_end as int,
                ),
            )
            &&& exists|sb: Seq<u8>|
                sb.len() == 20 && spec_cert_serial_value(cert_bytes) == Some(
                    #[trigger] spec_be_value(sb),
                )
            &&& spec_cert_common_names(cert_bytes) == Some(
                seq![gen_certificate_params.issuer_name@],
            )
        }),
{
    let start = gen_certificate_params.datetime_start;
    let end = gen_certificate_params.datetime_end;
    if start < -62167219200 || start > 253402300799 || end < -62167219200 || end > 253402300799 {
        return Err(Error::new(ErrorKind::Crypto, "validity timestamp out of range"));
    }
    let exponent = gen_certificate_params.public_exponent.value();
    let private_key = match gen_rsa_private_key(
        gen_certificate_params.key_size as usize,
        exponent,
    ) {
        Ok(k) => k,
        Err(e) => {
            proof {
                lemma_crypto_details_distinct();
            }
            return Err(e);
        },
    };
    let private_key_der = match key_to_pkcs8_der(&private_key) {
        Ok(d) => d,
        Err(e) => {
            proof {
                lemma_crypto_details_distinct();
            }
            return Err(e);
        },
    };
    let serial = random_serial_number();
    let ghost serial_bytes = serial@;
    let r = build_and_sign_certificate(
        start,
        end,
        serial,
        gen_certificate_params.issuer_name.as_str(),
        private_key_der.as_slice(),
    );
    proof {
        lemma_crypto_details_distinct();
        if r is Ok {
            let cert_bytes = encode_utf8(r->Ok_0.1@);
            assert(serial_bytes.len() == 20 && spec_cert_serial_value(cert_bytes) == Some(
                spec_be_value(serial_bytes),
            ));
        }
    }
    r
}

/// The integer whose big-endian base-256 digits are the given bytes.
pub open spec fn spec_be_value(s: Seq<u8>) -> nat
    decreases s.len(),
{
    if s.len() == 0 {
        0
    } else {
        (spec_be_value(s.drop_last()) * 256 + s.last()) as nat
    }
}

/// What PEM decoding and X.509 parsing extract from certificate text
/// as the subject's public-key bytes: `None` where the text is not a
/// PEM certificate.
pub uninterp spec fn spec_cert_public_key_der(pem: Seq<u8>) -> Option<Seq<u8>>;

/// What PKCS#1 decoding reads out of public-key bytes as an RSA key's
/// `(modulus, exponent)` pair: `None` where the bytes are not an RSA
/// public key.
pub uninterp spec fn spec_pkcs1_key(der: Seq<u8>) -> Option<(nat, nat)>;

/// What PEM decoding and X.509 parsing extract from certificate text
/// as the signature bytes: `None` where the text is not a PEM
/// certificate.
pub uninterp spec fn spec_cert_signature(pem: Seq<u8>) -> Option<Seq<u8>>;

/// Relies on x509-parser's `parse_x509_pem` and `Pem::parse_x509`:
/// decodes the PEM envelope, parses the DER certificate, and hands out
/// the subject public key bytes — a function of the input text alone.
#[verifier::external_body]
fn extract_public_key_der(pem: &[u8]) -> (r: Result<Vec<u8>, Error>)
    ensures
        match r {
            Ok(v) => spec_cert_public_key_der(pem@) == Some(v@),
            Err(e) => spec_cert_public_key_der(pem@) is None && e.kind == ErrorKind::Parse,
        },
{
    let parsed = match x509_parser::pem::parse_x509_pem(pem) {
        Ok((_, p)) => p,
        Err(_) => return Err(Error::new(ErrorKind::Parse, "PEM decoding failed")),
    };
    let cert = match parsed.parse_x509() {
        Ok(c) => c,
        Err(_) => return Err(Error::new(ErrorKind::Parse, "X.509 parsing failed")),
    };
    Ok(cert.public_key().subject_public_key.data.to_vec())
}

/// Relies on x509-parser's `parse_x509_pem` and `Pem::parse_x509`:
/// decodes the PEM envelope, parses the DER certificate, and hands out
/// the raw signature bytes — a function of the input text alone.
#[verifier::external_body]
fn extract_signature_bytes(pem: &[u8]) -> (r: Result<Vec<u8>, Error>)
    ensures
        match r {
            Ok(v) => spec_cert_signature(pem@) == Some(v@),
            Err(e) => spec_cert_signature(pem@) is None && e.kind == ErrorKind::Parse,
        },
{
    let parsed = match x509_parser::pem::parse_x509_pem(pem) {
        Ok((_, p)) => p,
        Err(_) => return Err(Error::new(ErrorKind::Parse, "PEM decoding failed")),
    };
    let cert = match parsed.parse_x509() {
        Ok(c) => c,
        Err(_) => return Err(Error::new(ErrorKind::Parse, "X.509 parsing failed")),
    };
    Ok(cert.signature_value.data.to_vec())
}

/// Relies on rsa's `RsaPublicKey::from_pkcs1_der`, `PublicKeyParts::n`
/// and num-bigint's decimal `Display`: reads the modulus out of a
/// PKCS#1 public key and renders it in decimal.
#[verifier::external_body]
fn modulus_decimal_from_pkcs1(der: &[u8]) -> (r: Result<String, Error>)
    ensures
        match r {
            Ok(s) => spec_pkcs1_key(der@) matches Some(k) && s@ == spec_decimal(k.0),
            Err(e) => spec_pkcs1_key(der@) is None && e.kind == ErrorKind::Parse,
        },
{
    match rsa::RsaPublicKey::from_pkcs1_der(der) {
        Ok(key) => Ok(key.n().to_string()),
        Err(_) => Err(Error::new(ErrorKind::Parse, "Failed to convert to RSA public key")),
    }
}

/// Relies on num-bigint's `BigUint::from_bytes_be` and its decimal
/// `Display`: the number whose big-endian bytes these are, written in
/// decimal without leading zeros.
#[verifier::external_body]
fn biguint_decimal_be(bytes: &[u8]) -> (s: String)
    ensures
        s@ == spec_decimal(spec_be_value(bytes@)),
{
    rsa::BigUint::from_bytes_be(bytes).to_string()
}

/// Decodes a PEM certificate and returns the decimal rendering of its
/// subject's RSA public-key modulus. Text that is not a PEM
/// certificate, or a subject key that is not an RSA key, is a parse
/// error.
pub fn parse_root_public_key_from_pem(cert_pem: &[u8]) -> (r: Result<String, Error>)
    ensures
        match spec_cert_public_key_der(cert_pem@) {
            None => r matches Err(e) && e.kind == ErrorKind::Parse,
            Some(der) => match spec_pkcs1_key(der) {
                None => r matches Err(e) && e.kind == ErrorKind::Parse,
                Some(k) => r matches Ok(s) && s@ == spec_decimal(k.0),
            },
        },
{
    let der = match extract_public_key_der(cert_pem) {
        Ok(d) => d,
        Err(e) => {
            return Err(e);
        },
    };
    modulus_decimal_from_pkcs1(der.as_slice())
}

/// Decodes a PEM certificate and returns the decimal rendering of its
/// signature value, paired with an empty placeholder string. Text that
/// is not a PEM certificate is a parse error.
pub fn sign_from_pem(cert_pem: &[u8]) -> (r: Result<(String, String), Error>)
    ensures
        match spec_cert_signature(cert_pem@) {
            None => r matches Err(e) && e.kind == ErrorKind::Parse,
            Some(bytes) => r matches Ok(p) && p.0@ == spec_decimal(spec_be_value(bytes)) && p.1@
                =~= Seq::<char>::empty(),
        },
{
    let bytes = match extract_signature_bytes(cert_pem) {
        Ok(b) => b,
        Err(e) => {
            return Err(e);
        },
    };
    let sign_decimal = biguint_decimal_be(bytes.as_slice());
    let filled_sign = "".to_owned();
    proof {
        reveal_strlit("");
        assert(""@ =~= Seq::<char>::empty());
    }
    Ok((sign_decimal, filled_sign))
}

} // verus!
