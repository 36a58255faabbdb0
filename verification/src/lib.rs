//! Tools for manufacturing self-signed certificate material and
//! license-activation payloads.
//!
//! The crate covers two data flows. The certificate flow turns a set of
//! request parameters into a PKCS#8 private key and a self-signed X.509
//! certificate, both as PEM text, and can decode such a certificate back
//! into its public-key modulus and signature value. The license flow
//! decodes dash-delimited license tokens and assembles dated entitlement
//! records by matching requested product codes against a catalog.

pub mod catalog;
pub mod cert_gen;
pub mod error;
pub mod jetbra_key;
pub mod json;
pub mod text;
pub mod time_fmt;
