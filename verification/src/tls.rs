//! Certificates and their digests.
//!
//! A browser accepts a certificate that no authority has issued when it is
//! given the certificate's digest beforehand. The digest that the server hands
//! out is therefore the SHA-256 digest of the DER encoding of the leaf
//! certificate, the first of the chain that the transport presents.

use crate::text::decimal_list;
use vstd::prelude::*;
use wtransport::tls::error::InvalidSan;
use wtransport::tls::Sha256Digest;
use wtransport::tls::Sha256DigestFmt;
use wtransport::Identity;

verus! {

/// A certificate chain with its private key, as the transport holds it.
#[verifier::external_type_specification]
#[verifier::external_body]
pub struct ExIdentity(Identity);

/// The error of the transport's self-signing.
#[verifier::external_type_specification]
#[verifier::external_body]
pub struct ExInvalidSan(InvalidSan);

/// The certificates of an identity's chain, each in its DER encoding, leaf
/// first.
pub uninterp spec fn certificates_of(identity: Identity) -> Seq<Seq<u8>>;

/// The subject alternative names that the leaf certificate of an identity is
/// for, in the order in which the certificate lists them: a host name as it
/// is, an address in its usual text.
pub uninterp spec fn subject_alt_names_of(identity: Identity) -> Seq<Seq<char>>;

/// The SHA-256 digest of a byte string: 32 bytes.
pub uninterp spec fn sha256(data: Seq<u8>) -> Seq<u8>;

/// The number of bytes of a digest.
pub const DIGEST_LEN: usize = 32;

/// The text of a digest as a list of bytes: the decimal numerals of the
/// bytes, separated by a comma and a space, in square brackets.
pub open spec fn bytes_array_text(bytes: Seq<u8>) -> Seq<char> {
    seq!['['] + decimal_list(bytes) + seq![']']
}

/// The digest of a certificate.
#[derive(Clone, Copy, Debug, PartialEq, Eq)]
pub struct CertificateDigest {
    bytes: [u8; 32],
}

impl View for CertificateDigest {
    type V = Seq<u8>;

    closed spec fn view(&self) -> Seq<u8> {
        self.bytes@
    }
}

impl CertificateDigest {
    /// The digest made of these 32 bytes.
    pub fn new(bytes: [u8; 32]) -> (digest: Self)
        ensures
            digest@ == bytes@,
    {
        CertificateDigest { bytes }
    }

    /// The 32 bytes of the digest.
    pub fn as_bytes(&self) -> (bytes: &[u8; 32])
        ensures
            bytes@ == self@,
    {
        &self.bytes
    }

    /// A digest has 32 bytes.
    pub proof fn lemma_len(self)
        ensures
            self@.len() == DIGEST_LEN,
    {
    }

    /// The digest as a list of bytes, in the form that a script takes for the
    /// contents of a byte array.
    pub fn to_bytes_array_text(&self) -> (text: String)
        ensures
            text@ == bytes_array_text(self@),
    {
        digest_text(&self.bytes)
    }
}

/// The number of certificates in the chain of `identity`.
pub fn chain_len(identity: &Identity) -> (len: usize)
    ensures
        len == certificates_of(*identity).len(),
{
    certificate_count(identity)
}

/// The digest of the leaf certificate of `identity`, the one that a peer is
/// shown first; `None` where the chain is empty.
pub fn leaf_digest(identity: &Identity) -> (digest: Option<CertificateDigest>)
    ensures
        digest is Some <==> certificates_of(*identity).len() > 0,
        digest matches Some(d) ==> d@ == sha256(certificates_of(*identity)[0]),
{
    if certificate_count(identity) == 0 {
        None
    } else {
        Some(CertificateDigest::new(certificate_hash(identity, 0)))
    }
}

/// `CertificateChain::as_slice` of `Identity::certificate_chain`: the length
/// of the chain.
#[verifier::external_body]
fn certificate_count(identity: &Identity) -> (len: usize)
    ensures
        len == certificates_of(*identity).len(),
{
    identity.certificate_chain().as_slice().len()
}

/// `Certificate::hash` of a certificate of the chain: the SHA-256 digest of
/// the certificate's DER encoding.
#[verifier::external_body]
fn certificate_hash(identity: &Identity, index: usize) -> (digest: [u8; 32])
    requires
        index < certificates_of(*identity).len(),
    ensures
        digest@ == sha256(certificates_of(*identity)[index as int]),
{
    *identity.certificate_chain().as_slice()[index].hash().as_ref()
}

/// `Sha256Digest::fmt` with `Sha256DigestFmt::BytesArray`: the bytes as
/// decimal numerals in square brackets, separated by a comma and a space.
#[verifier::external_body]
fn digest_text(bytes: &[u8; 32]) -> (text: String)
    ensures
        text@ == bytes_array_text(bytes@),
{
    Sha256Digest::new(*bytes).fmt(Sha256DigestFmt::BytesArray)
}

} // verus!
