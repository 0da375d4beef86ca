//! The TLS identity of the server: where it is kept on disk, how the
//! two files are encoded, and how a private key and a certificate chain
//! are taken out of their bytes.
//!
//! Reading the files is left to the caller. Everything here works on the
//! bytes that were read.

use std::path::PathBuf;
use vstd::prelude::*;

verus! {

/// `std::path::PathBuf`, carried through as an opaque value.
#[verifier::external_type_specification]
#[verifier::external_body]
pub struct ExPathBuf(std::path::PathBuf);

/// `std::io::Error`, the error of the PEM reader, carried through as an
/// opaque value.
#[verifier::external_type_specification]
#[verifier::external_body]
pub struct ExIoError(std::io::Error);

/// Cloning a `PathBuf` gives an equal path.
pub assume_specification[ <std::path::PathBuf as Clone>::clone ](path: &PathBuf) -> (copy: PathBuf)
    ensures
        copy == *path,
;

/// Where the private key and the certificate chain are kept.
#[derive(Debug, Clone)]
pub struct Certs {
    pub cert: PathBuf,
    pub key: PathBuf,
}

/// How the bytes of a credential file are laid out.
#[derive(Clone, Copy, Debug, PartialEq, Eq, Structural)]
pub enum Encoding {
    /// One binary DER blob: the whole file is the key, or the one certificate.
    Der,
    /// Textual PEM sections, each holding one base64 DER blob.
    Pem,
}

/// A private key as DER bytes.
#[derive(Debug, Clone, PartialEq, Eq)]
pub struct PrivateKey(pub Vec<u8>);

/// One certificate as DER bytes.
#[derive(Debug, Clone, PartialEq, Eq)]
pub struct Certificate(pub Vec<u8>);

impl View for PrivateKey {
    type V = Seq<u8>;

    open spec fn view(&self) -> Seq<u8> {
        self.0@
    }
}

impl View for Certificate {
    type V = Seq<u8>;

    open spec fn view(&self) -> Seq<u8> {
        self.0@
    }
}

/// Why no TLS identity could be loaded.
#[derive(Clone, Copy, Debug, PartialEq, Eq, Structural)]
pub enum CredentialError {
    /// The private key file could not be read.
    KeyUnreadable,
    /// The key file is PEM and its PKCS #8 sections are malformed.
    MalformedPkcs8,
    /// The key file is PEM, holds no PKCS #8 key, and its PKCS #1
    /// sections are malformed.
    MalformedPkcs1,
    /// The key file is PEM and holds neither a PKCS #8 nor a PKCS #1 key.
    NoPrivateKey,
    /// The certificate file could not be read.
    ChainUnreadable,
    /// The certificate file is PEM and malformed.
    InvalidCertificatePem,
}

/// The extension of a path (without its dot), as `std::path::Path::extension`
/// finds it on this platform, decoded lossily to text; `None` where the
/// path has no extension.
pub uninterp spec fn path_extension(path: PathBuf) -> Option<Seq<char>>;

/// The DER contents of the PKCS #8 (`PRIVATE KEY`) sections of a PEM file,
/// in file order, as `rustls_pemfile::pkcs8_private_keys` extracts them;
/// `None` where it reports the file as malformed.
pub uninterp spec fn pem_pkcs8_keys(pem: Seq<u8>) -> Option<Seq<Seq<u8>>>;

/// The DER contents of the PKCS #1 (`RSA PRIVATE KEY`) sections of a PEM
/// file, in file order, as `rustls_pemfile::rsa_private_keys` extracts
/// them; `None` where it reports the file as malformed.
pub uninterp spec fn pem_rsa_keys(pem: Seq<u8>) -> Option<Seq<Seq<u8>>>;

/// The DER contents of the `CERTIFICATE` sections of a PEM file, in file
/// order, as `rustls_pemfile::certs` extracts them; `None` where it
/// reports the file as malformed.
pub uninterp spec fn pem_certificates(pem: Seq<u8>) -> Option<Seq<Seq<u8>>>;

/// The text of an optional string.
pub open spec fn text_of(s: Option<String>) -> Option<Seq<char>> {
    match s {
        Some(s) => Some(s@),
        None => None,
    }
}

/// The byte sequences that a list of blobs holds, in order.
pub open spec fn blobs_of(blobs: Vec<Vec<u8>>) -> Seq<Seq<u8>> {
    Seq::new(blobs@.len(), |i: int| blobs@[i]@)
}

/// What a run of the PEM reader yielded: the blobs, or `None` for a
/// malformed file.
pub open spec fn sections_of(parsed: Result<Vec<Vec<u8>>, std::io::Error>) -> Option<Seq<Seq<u8>>> {
    match parsed {
        Ok(blobs) => Some(blobs_of(blobs)),
        Err(_) => None,
    }
}

/// The DER byte sequences of a certificate chain, leaf first.
pub open spec fn chain_of(chain: Vec<Certificate>) -> Seq<Seq<u8>> {
    Seq::new(chain@.len(), |i: int| chain@[i]@)
}

/// Calls `std::path::Path::extension` and hands the extension back as
/// text. Nothing is proved of it: the result is `path_extension` by
/// definition. An extension that is not valid Unicode comes back with
/// replacement characters, so it never reads as `der`.
#[verifier::external_body]
fn extension_of(path: &PathBuf) -> (ext: Option<String>)
    ensures
        text_of(ext) == path_extension(*path),
{
    path.extension().map(|e| e.to_string_lossy().into_owned())
}

/// Calls `rustls_pemfile::pkcs8_private_keys` on an in-memory file. The
/// reader fails only on malformed PEM; what it returns depends on the
/// bytes alone and is named `pem_pkcs8_keys`.
#[verifier::external_body]
fn pkcs8_private_keys(pem: &Vec<u8>) -> (parsed: Result<Vec<Vec<u8>>, std::io::Error>)
    ensures
        sections_of(parsed) == pem_pkcs8_keys(pem@),
{
    rustls_pemfile::pkcs8_private_keys(&mut pem.as_slice())
}

/// Calls `rustls_pemfile::rsa_private_keys` on an in-memory file. The
/// reader fails only on malformed PEM; what it returns depends on the
/// bytes alone and is named `pem_rsa_keys`.
#[verifier::external_body]
fn rsa_private_keys(pem: &Vec<u8>) -> (parsed: Result<Vec<Vec<u8>>, std::io::Error>)
    ensures
        sections_of(parsed) == pem_rsa_keys(pem@),
{
    rustls_pemfile::rsa_private_keys(&mut pem.as_slice())
}

/// Calls `rustls_pemfile::certs` on an in-memory file. The reader fails
/// only on malformed PEM; what it returns depends on the bytes alone and
/// is named `pem_certificates`.
#[verifier::external_body]
fn certs(pem: &Vec<u8>) -> (parsed: Result<Vec<Vec<u8>>, std::io::Error>)
    ensures
        sections_of(parsed) == pem_certificates(pem@),
{
    rustls_pemfile::certs(&mut pem.as_slice())
}

/// The encoding that goes with a file extension: binary exactly for the
/// extension `der`, textual for every other extension and for none.
pub open spec fn encoding_of(ext: Option<Seq<char>>) -> Encoding {
    if ext == Some("der"@) {
        Encoding::Der
    } else {
        Encoding::Pem
    }
}

/// The first blob of an extraction, if it found any.
pub open spec fn first_of(blobs: Seq<Seq<u8>>) -> Option<Seq<u8>> {
    if blobs.len() > 0 {
        Some(blobs[0])
    } else {
        None
    }
}

/// What the PKCS #8 extraction decides for a PEM key file: the key, an
/// error, or `Ok(None)` where the PKCS #1 sections have to be looked at.
pub open spec fn pkcs8_choice(pkcs8: Option<Seq<Seq<u8>>>) -> Result<Option<Seq<u8>>, CredentialError> {
    match pkcs8 {
        None => Err(CredentialError::MalformedPkcs8),
        Some(keys) => Ok(first_of(keys)),
    }
}

/// What the PKCS #1 extraction decides once no PKCS #8 key was found.
pub open spec fn pkcs1_choice(rsa: Option<Seq<Seq<u8>>>) -> Result<Seq<u8>, CredentialError> {
    match rsa {
        None => Err(CredentialError::MalformedPkcs1),
        Some(keys) => match first_of(keys) {
            Some(key) => Ok(key),
            None => Err(CredentialError::NoPrivateKey),
        },
    }
}

/// The private key of a PEM file, given what the two extractions yield:
/// the first PKCS #8 key wins, then the first PKCS #1 key.
pub open spec fn pem_key_choice(
    pkcs8: Option<Seq<Seq<u8>>>,
    rsa: Option<Seq<Seq<u8>>>,
) -> Result<Seq<u8>, CredentialError> {
    match pkcs8_choice(pkcs8) {
        Err(e) => Err(e),
        Ok(Some(key)) => Ok(key),
        Ok(None) => pkcs1_choice(rsa),
    }
}

/// The private key that a key file holds.
pub open spec fn private_key_of(encoding: Encoding, file: Seq<u8>) -> Result<Seq<u8>, CredentialError> {
    match encoding {
        Encoding::Der => Ok(file),
        Encoding::Pem => pem_key_choice(pem_pkcs8_keys(file), pem_rsa_keys(file)),
    }
}

/// The chain that a certificate extraction stands for.
pub open spec fn chain_choice(certs: Option<Seq<Seq<u8>>>) -> Result<Seq<Seq<u8>>, CredentialError> {
    match certs {
        None => Err(CredentialError::InvalidCertificatePem),
        Some(chain) => Ok(chain),
    }
}

/// The certificate chain that a certificate file holds, leaf first.
pub open spec fn cert_chain_of(encoding: Encoding, file: Seq<u8>) -> Result<Seq<Seq<u8>>, CredentialError> {
    match encoding {
        Encoding::Der => Ok(seq![file]),
        Encoding::Pem => chain_choice(pem_certificates(file)),
    }
}

/// The view of a loaded key, or the error.
pub open spec fn key_result_of(r: Result<PrivateKey, CredentialError>) -> Result<Seq<u8>, CredentialError> {
    match r {
        Ok(key) => Ok(key@),
        Err(e) => Err(e),
    }
}

/// The view of a loaded chain, or the error.
pub open spec fn chain_result_of(r: Result<Vec<Certificate>, CredentialError>) -> Result<Seq<Seq<u8>>, CredentialError> {
    match r {
        Ok(chain) => Ok(chain_of(chain)),
        Err(e) => Err(e),
    }
}

/// The TLS identity that a key file and a certificate file hold: the
/// key and the chain, or the first error met. The key file is looked at
/// first, so an error of the key hides one of the chain.
pub open spec fn identity_of(
    key_encoding: Encoding,
    key_file: Seq<u8>,
    cert_encoding: Encoding,
    cert_file: Seq<u8>,
) -> Result<(Seq<u8>, Seq<Seq<u8>>), CredentialError> {
    match private_key_of(key_encoding, key_file) {
        Err(e) => Err(e),
        Ok(key) => match cert_chain_of(cert_encoding, cert_file) {
            Err(e) => Err(e),
            Ok(chain) => Ok((key, chain)),
        },
    }
}

/// The view of a loaded identity, or the error.
pub open spec fn identity_result_of(
    r: Result<(PrivateKey, Vec<Certificate>), CredentialError>,
) -> Result<(Seq<u8>, Seq<Seq<u8>>), CredentialError> {
    match r {
        Ok((key, chain)) => Ok((key@, chain_of(chain))),
        Err(e) => Err(e),
    }
}

impl CredentialError {
    /// The text that describes the error.
    pub open spec fn message_text(self) -> Seq<char> {
        match self {
            CredentialError::KeyUnreadable => "failed to read private key"@,
            CredentialError::MalformedPkcs8 => "malformed PKCS #8 private key"@,
            CredentialError::MalformedPkcs1 => "malformed PKCS #1 private key"@,
            CredentialError::NoPrivateKey => "no private keys found"@,
            CredentialError::ChainUnreadable => "failed to read certificate chain"@,
            CredentialError::InvalidCertificatePem => "invalid PEM-encoded certificate"@,
        }
    }

    /// A line for the log.
    pub fn message(&self) -> (text: String)
        ensures
            text@ == self.message_text(),
    {
        match self {
            CredentialError::KeyUnreadable => "failed to read private key".to_owned(),
            CredentialError::MalformedPkcs8 => "malformed PKCS #8 private key".to_owned(),
            CredentialError::MalformedPkcs1 => "malformed PKCS #1 private key".to_owned(),
            CredentialError::NoPrivateKey => "no private keys found".to_owned(),
            CredentialError::ChainUnreadable => "failed to read certificate chain".to_owned(),
            CredentialError::InvalidCertificatePem => "invalid PEM-encoded certificate".to_owned(),
        }
    }
}

/// Picks the encoding for a file extension.
pub fn encoding_for_extension(ext: &Option<String>) -> (encoding: Encoding)
    ensures
        encoding == encoding_of(text_of(*ext)),
{
    match ext {
        Some(text) => {
            let der = "der".to_owned();
            if *text == der {
                Encoding::Der
            } else {
                Encoding::Pem
            }
        },
        None => Encoding::Pem,
    }
}

impl Certs {
    /// The encoding in which the key file is read.
    pub open spec fn key_encoding_of(self) -> Encoding {
        encoding_of(path_extension(self.key))
    }

    /// The encoding in which the certificate file is read.
    pub open spec fn cert_encoding_of(self) -> Encoding {
        encoding_of(path_extension(self.cert))
    }

    /// The encoding in which the key file is read, by its extension.
    pub fn key_encoding(&self) -> (encoding: Encoding)
        ensures
            encoding == self.key_encoding_of(),
    {
        let ext = extension_of(&self.key);
        encoding_for_extension(&ext)
    }

    /// The encoding in which the certificate file is read, by its extension.
    pub fn cert_encoding(&self) -> (encoding: Encoding)
        ensures
            encoding == self.cert_encoding_of(),
    {
        let ext = extension_of(&self.cert);
        encoding_for_extension(&ext)
    }
}

/// Takes the first blob of an extraction as the private key.
pub fn first_key(keys: Vec<Vec<u8>>) -> (key: Option<PrivateKey>)
    ensures
        match key {
            Some(k) => first_of(blobs_of(keys)) == Some(k@),
            None => first_of(blobs_of(keys)) is None,
        },
{
    let mut keys = keys;
    if keys.len() > 0 {
        let first = keys.remove(0);
        Some(PrivateKey(first))
    } else {
        None
    }
}

/// Decides on the PKCS #8 extraction of a PEM key file: `Ok(Some(key))`
/// for the first key found, `Ok(None)` where there is none and the
/// PKCS #1 sections are to be tried, an error for a malformed file.
pub fn key_from_pkcs8(parsed: Result<Vec<Vec<u8>>, std::io::Error>) -> (r: Result<Option<PrivateKey>, CredentialError>)
    ensures
        match r {
            Ok(Some(k)) => pkcs8_choice(sections_of(parsed)) == Ok::<Option<Seq<u8>>, CredentialError>(Some(k@)),
            Ok(None) => pkcs8_choice(sections_of(parsed)) == Ok::<Option<Seq<u8>>, CredentialError>(None),
            Err(e) => pkcs8_choice(sections_of(parsed)) == Err::<Option<Seq<u8>>, CredentialError>(e),
        },
{
    match parsed {
        Ok(keys) => Ok(first_key(keys)),
        Err(_) => Err(CredentialError::MalformedPkcs8),
    }
}

/// Decides on the PKCS #1 extraction of a PEM key file in which no
/// PKCS #8 key was found: the first key, or the reason there is none.
pub fn key_from_pkcs1(parsed: Result<Vec<Vec<u8>>, std::io::Error>) -> (r: Result<PrivateKey, CredentialError>)
    ensures
        key_result_of(r) == pkcs1_choice(sections_of(parsed)),
{
    match parsed {
        Ok(keys) => match first_key(keys) {
            Some(key) => Ok(key),
            None => Err(CredentialError::NoPrivateKey),
        },
        Err(_) => Err(CredentialError::MalformedPkcs1),
    }
}

/// Wraps each extracted blob as a certificate, keeping the order.
pub fn chain_from_blobs(blobs: Vec<Vec<u8>>) -> (chain: Vec<Certificate>)
    ensures
        chain_of(chain) == blobs_of(blobs),
{
    let mut blobs = blobs;
    let ghost all = blobs_of(blobs);
    let mut chain: Vec<Certificate> = Vec::new();
    while blobs.len() > 0
        invariant
            chain_of(chain) + blobs_of(blobs) == all,
        decreases blobs.len(),
    {
        let ghost before_chain = chain_of(chain);
        let ghost before_blobs = blobs_of(blobs);
        let der = blobs.remove(0);
        chain.push(Certificate(der));
        assert(chain_of(chain) == before_chain.push(before_blobs[0]));
        assert(blobs_of(blobs) == before_blobs.subrange(1, before_blobs.len() as int));
        assert(chain_of(chain) + blobs_of(blobs) == before_chain + before_blobs);
    }
    assert(blobs_of(blobs) == Seq::<Seq<u8>>::empty());
    assert(chain_of(chain) == all);
    chain
}

/// Decides on the certificate extraction of a PEM file: every
/// certificate found, in file order, or an error for a malformed file.
pub fn chain_from_pem(parsed: Result<Vec<Vec<u8>>, std::io::Error>) -> (r: Result<Vec<Certificate>, CredentialError>)
    ensures
        chain_result_of(r) == chain_choice(sections_of(parsed)),
{
    match parsed {
        Ok(blobs) => Ok(chain_from_blobs(blobs)),
        Err(_) => Err(CredentialError::InvalidCertificatePem),
    }
}

/// Takes the private key out of the bytes of a key file.
///
/// A DER file is the key. In a PEM file the first PKCS #8 key is taken;
/// if there is none, the first PKCS #1 key; if there is none either, the
/// load fails.
pub fn load_private_key(encoding: Encoding, file: Vec<u8>) -> (r: Result<PrivateKey, CredentialError>)
    ensures
        key_result_of(r) == private_key_of(encoding, file@),
{
    match encoding {
        Encoding::Der => Ok(PrivateKey(file)),
        Encoding::Pem => {
            match key_from_pkcs8(pkcs8_private_keys(&file)) {
                Err(e) => Err(e),
                Ok(Some(key)) => Ok(key),
                Ok(None) => key_from_pkcs1(rsa_private_keys(&file)),
            }
        },
    }
}

/// Takes the certificate chain out of the bytes of a certificate file.
///
/// A DER file is one certificate. A PEM file gives every certificate in
/// it, in file order: the leaf comes first.
pub fn load_cert_chain(encoding: Encoding, file: Vec<u8>) -> (r: Result<Vec<Certificate>, CredentialError>)
    ensures
        chain_result_of(r) == cert_chain_of(encoding, file@),
{
    match encoding {
        Encoding::Der => {
            let mut chain: Vec<Certificate> = Vec::new();
            chain.push(Certificate(file));
            assert(chain_of(chain) == seq![file@]);
            Ok(chain)
        },
        Encoding::Pem => chain_from_pem(certs(&file)),
    }
}

/// Takes the TLS identity out of the bytes of the two files that `certs`
/// names, each read in the encoding that its extension calls for.
///
/// The key is loaded first; if that fails, its error is the result and
/// the certificate file is not looked at.
pub fn get_key_and_cert_chain(certs: &Certs, key_file: Vec<u8>, cert_file: Vec<u8>) -> (r: Result<
    (PrivateKey, Vec<Certificate>),
    CredentialError,
>)
    ensures
        identity_result_of(r) == identity_of(
            certs.key_encoding_of(),
            key_file@,
            certs.cert_encoding_of(),
            cert_file@,
        ),
{
    match load_private_key(certs.key_encoding(), key_file) {
        Err(e) => Err(e),
        Ok(key) => match load_cert_chain(certs.cert_encoding(), cert_file) {
            Err(e) => Err(e),
            Ok(chain) => Ok((key, chain)),
        },
    }
}

} // verus!
