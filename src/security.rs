//! Security material for both roles: a self-signed server identity with its
//! fingerprint, and the client's trust policy.
use crate::error::TransferError;
use vstd::prelude::*;
use vstd::string::*;

verus! {

#[verifier::external_type_specification]
#[verifier::external_body]
pub struct ExServerConfig(quinn::ServerConfig);

#[verifier::external_type_specification]
#[verifier::external_body]
pub struct ExRcgenError(rcgen::Error);

#[verifier::external_type_specification]
#[verifier::external_body]
pub struct ExRustlsError(rustls::Error);

/// The SHA-256 digest of `data`.
pub uninterp spec fn sha256_of(data: Seq<u8>) -> Seq<u8>;

/// The lowercase hexadecimal digit for a value below sixteen.
pub open spec fn hex_digit(d: u8) -> char
    recommends
        d < 16,
{
    if d < 10 {
        ((48 + d) as u8) as char
    } else {
        ((87 + d) as u8) as char
    }
}

/// Two lowercase hexadecimal digits for each byte, high half first.
pub open spec fn hex_lower(b: Seq<u8>) -> Seq<char>
    decreases b.len(),
{
    if b.len() == 0 {
        Seq::empty()
    } else {
        seq![hex_digit(b[0] / 16), hex_digit(b[0] % 16)] + hex_lower(b.drop_first())
    }
}

proof fn lemma_hex_lower_len(b: Seq<u8>)
    ensures
        hex_lower(b).len() == 2 * b.len(),
    decreases b.len(),
{
    if b.len() > 0 {
        lemma_hex_lower_len(b.drop_first());
    }
}

/// Relies on `rcgen::generate_simple_self_signed`: a fresh key pair and a
/// certificate for `names` signed by it, handed back as the certificate's
/// DER bytes and the key's PKCS#8 DER bytes. The key is random, so nothing
/// is promised of the bytes.
#[verifier::external_body]
fn generate_self_signed(names: Vec<String>) -> (r: Result<(Vec<u8>, Vec<u8>), rcgen::Error>) {
    let certified = rcgen::generate_simple_self_signed(names)?;
    Ok((certified.cert.der().to_vec(), certified.key_pair.serialize_der()))
}

/// Whether the TLS library takes a DER certificate and a PKCS#8 DER key as
/// a server's single certificate.
pub uninterp spec fn tls_accepts_pair(cert_der: Seq<u8>, key_der: Seq<u8>) -> bool;

/// Relies on `quinn::ServerConfig::with_single_cert`: a server
/// configuration presenting the one DER certificate with the PKCS#8 DER
/// key, or the TLS library's refusal of them. With the crypto provider
/// fixed, whether it succeeds depends on the two byte strings alone.
#[verifier::external_body]
fn server_config_with_single_cert(cert_der: Vec<u8>, key_der: Vec<u8>) -> (r: Result<
    quinn::ServerConfig,
    rustls::Error,
>)
    ensures
        r.is_ok() == tls_accepts_pair(cert_der@, key_der@),
{
    let chain = vec![rustls::pki_types::CertificateDer::from(cert_der)];
    let key = rustls::pki_types::PrivatePkcs8KeyDer::from(key_der);
    quinn::ServerConfig::with_single_cert(chain, rustls::pki_types::PrivateKeyDer::Pkcs8(key))
}

/// Relies on `sha2::Sha256::digest`: the 32-byte SHA-256 digest of `data`.
#[verifier::external_body]
fn sha256(data: &[u8]) -> (r: Vec<u8>)
    ensures
        r@ == sha256_of(data@),
        r@.len() == 32,
{
    <sha2::Sha256 as sha2::Digest>::digest(data).to_vec()
}

/// Relies on `hex::encode`: two lowercase hexadecimal digits per byte.
#[verifier::external_body]
fn hex_encode(data: &[u8]) -> (r: String)
    ensures
        r@ == hex_lower(data@),
{
    hex::encode(data)
}

/// The fingerprint shown to operators for a certificate: the lowercase hex
/// form of the SHA-256 digest of its DER bytes, 64 characters long.
pub fn fingerprint_of(cert_der: &[u8]) -> (r: String)
    ensures
        r@ == hex_lower(sha256_of(cert_der@)),
        r@.len() == 64,
{
    let digest = sha256(cert_der);
    proof {
        lemma_hex_lower_len(digest@);
    }
    hex_encode(digest.as_slice())
}

/// A server identity ready for the transport, with its fingerprint.
pub struct CertInfo {
    pub server_config: quinn::ServerConfig,
    pub fingerprint: String,
}

/// Builds the server identity from a certificate and key, both DER. The
/// fingerprint is the one of `cert_der`; the transport may refuse the pair.
pub fn cert_info_from_der(cert_der: Vec<u8>, key_der: Vec<u8>) -> (r: Result<
    CertInfo,
    TransferError,
>)
    ensures
        r.is_ok() == tls_accepts_pair(cert_der@, key_der@),
        r matches Ok(info) ==> info.fingerprint@ == hex_lower(sha256_of(cert_der@))
            && info.fingerprint@.len() == 64,
        r matches Err(e) ==> e == TransferError::TlsConfig,
{
    let fingerprint = fingerprint_of(cert_der.as_slice());
    match server_config_with_single_cert(cert_der, key_der) {
        Ok(server_config) => Ok(CertInfo { server_config, fingerprint }),
        Err(_) => Err(TransferError::TlsConfig),
    }
}

/// The names the server's self-signed certificate is issued for: just
/// `localhost`.
pub fn server_subject_names() -> (r: Vec<String>)
    ensures
        r@.len() == 1,
        r@[0]@ == "localhost"@,
{
    vec![String::from_str("localhost")]
}

/// Generates a fresh self-signed identity for `localhost` and wraps it as a
/// server configuration. The fingerprint is that of the generated
/// certificate.
pub fn build_server_config() -> (r: Result<CertInfo, TransferError>)
    ensures
        r matches Ok(info) ==> {
            &&& info.fingerprint@.len() == 64
            &&& exists|cert: Seq<u8>, key: Seq<u8>|
                {
                    &&& tls_accepts_pair(cert, key)
                    &&& info.fingerprint@ == hex_lower(sha256_of(cert))
                }
        },
        r matches Err(e) ==> e == TransferError::CertificateGeneration || e
            == TransferError::TlsConfig,
{
    match generate_self_signed(server_subject_names()) {
        Ok((cert_der, key_der)) => {
            let ghost cert = cert_der@;
            let ghost key = key_der@;
            let r = cert_info_from_der(cert_der, key_der);
            proof {
                if let Ok(info) = &r {
                    assert(tls_accepts_pair(cert, key));
                    assert(info.fingerprint@ == hex_lower(sha256_of(cert)));
                }
            }
            r
        },
        Err(_) => Err(TransferError::CertificateGeneration),
    }
}

/// A signature scheme the client announces it can check.
#[derive(Debug, Clone, Copy, PartialEq, Eq, Structural)]
pub enum SignatureKind {
    RsaPkcs1Sha256,
    EcdsaP256Sha256,
    Ed25519,
}

/// The schemes the client announces, in the order it announces them.
pub open spec fn supported_schemes_spec() -> Seq<SignatureKind> {
    seq![SignatureKind::RsaPkcs1Sha256, SignatureKind::EcdsaP256Sha256, SignatureKind::Ed25519]
}

/// The signature schemes the client announces to servers.
pub fn supported_signature_schemes() -> (r: Vec<SignatureKind>)
    ensures
        r@ == supported_schemes_spec(),
{
    let v = vec![SignatureKind::RsaPkcs1Sha256, SignatureKind::EcdsaP256Sha256, SignatureKind::Ed25519];
    assert(v@ =~= supported_schemes_spec());
    v
}

/// How the client decides whether to trust a server.
#[derive(Debug, Clone, Copy, PartialEq, Eq, Structural)]
pub enum TrustPolicy {
    /// Trust any certificate chain and any handshake signature, for any
    /// server name. Easy peer-to-peer setup, but no authentication.
    AcceptAny,
}

impl TrustPolicy {
    /// Whether a server's certificate chain, presented for `server_name`,
    /// is trusted.
    pub fn accepts_server_certificate(&self, end_entity: &[u8], server_name: &str) -> (r: bool)
        ensures
            *self == TrustPolicy::AcceptAny ==> r,
    {
        match self {
            TrustPolicy::AcceptAny => true,
        }
    }

    /// Whether a handshake signature made with the certificate is trusted.
    pub fn accepts_handshake_signature(&self, message: &[u8], cert_der: &[u8]) -> (r: bool)
        ensures
            *self == TrustPolicy::AcceptAny ==> r,
    {
        match self {
            TrustPolicy::AcceptAny => true,
        }
    }
}

} // verus!
