//! The node's identity: its Ed25519 key pair.
//!
//! Keys are carried as their bytes: 32 for a secret or public key, 64 for a
//! signature.

use vstd::prelude::*;

verus! {

/// The public key of an Ed25519 secret key.
pub uninterp spec fn ed25519_public_key(secret: Seq<u8>) -> Seq<u8>;

/// The Ed25519 signature of a message under a secret key.
pub uninterp spec fn ed25519_signature(secret: Seq<u8>, message: Seq<u8>) -> Seq<u8>;

/// Whether a signature of a message strictly verifies under a public key
/// (false when the public key bytes are not a valid key).
pub uninterp spec fn ed25519_verifies(public: Seq<u8>, message: Seq<u8>, signature: Seq<u8>) -> bool;

/// The line ending of PEM text.
#[derive(Debug, Clone, Copy, PartialEq, Eq, Structural)]
pub enum LineEnding {
    Cr,
    Lf,
    CrLf,
}

/// The PKCS#8 PEM text of a secret key with the given line ending, if it
/// can be encoded.
pub uninterp spec fn pkcs8_secret_pem(secret: Seq<u8>, ending: LineEnding) -> Option<Seq<char>>;

/// The SPKI PEM text of a public key with the given line ending, if it can
/// be encoded.
pub uninterp spec fn spki_public_pem(public: Seq<u8>, ending: LineEnding) -> Option<Seq<char>>;

/// The text of an optional string.
pub open spec fn text_of(s: Option<String>) -> Option<Seq<char>> {
    match s {
        Some(t) => Some(t@),
        None => None,
    }
}

/// `LineEnding::default`: the line ending of the target operating system,
/// `CRLF` when built for Windows and `LF` otherwise. Which of the two is
/// left open, as it depends on the build.
#[verifier::external_body]
fn default_line_ending() -> (e: LineEnding)
    ensures
        e == LineEnding::Lf || e == LineEnding::CrLf,
{
    match ed25519_dalek::pkcs8::spki::der::pem::LineEnding::default() {
        ed25519_dalek::pkcs8::spki::der::pem::LineEnding::CR => LineEnding::Cr,
        ed25519_dalek::pkcs8::spki::der::pem::LineEnding::LF => LineEnding::Lf,
        ed25519_dalek::pkcs8::spki::der::pem::LineEnding::CRLF => LineEnding::CrLf,
    }
}

/// The encoded libp2p peer id of an Ed25519 public key, if the bytes are a
/// valid key.
pub uninterp spec fn libp2p_peer_id(public: Seq<u8>) -> Option<Seq<u8>>;

/// `SigningKey::generate` with the operating system's random source, then
/// `SigningKey::to_bytes`: fresh secret key bytes. Nothing is claimed of
/// which bytes come out.
#[verifier::external_body]
fn random_secret_key() -> (secret: [u8; 32]) {
    ed25519_dalek::SigningKey::generate(&mut rand::rngs::OsRng).to_bytes()
}

/// `SigningKey::from_bytes`, `SigningKey::verifying_key`, then
/// `VerifyingKey::to_bytes`: the public key of a secret key.
#[verifier::external_body]
fn public_key_of(secret: &[u8; 32]) -> (public: [u8; 32])
    ensures
        public@ == ed25519_public_key(secret@),
{
    ed25519_dalek::SigningKey::from_bytes(secret).verifying_key().to_bytes()
}

/// `SigningKey::from_bytes`, `Signer::sign`, then `Signature::to_bytes`: the
/// deterministic RFC 8032 signature of a message. Nothing is claimed of
/// whether it passes strict verification: the source gives no such promise.
#[verifier::external_body]
fn sign_bytes(secret: &[u8; 32], message: &[u8]) -> (signature: [u8; 64])
    ensures
        signature@ == ed25519_signature(secret@, message@),
{
    ed25519_dalek::Signer::sign(&ed25519_dalek::SigningKey::from_bytes(secret), message).to_bytes()
}

/// `VerifyingKey::from_bytes`, then `VerifyingKey::verify_strict`: whether
/// the signature strictly verifies; false when the public key bytes are no
/// valid key.
#[verifier::external_body]
fn verify_bytes(public: &[u8; 32], message: &[u8], signature: &[u8; 64]) -> (ok: bool)
    ensures
        ok == ed25519_verifies(public@, message@, signature@),
{
    match ed25519_dalek::VerifyingKey::from_bytes(public) {
        Ok(key) => key.verify_strict(message, &ed25519_dalek::Signature::from_bytes(signature)).is_ok(),
        Err(_) => false,
    }
}

/// `EncodePrivateKey::to_pkcs8_pem` with the given line ending: the PEM
/// text of a secret key, `None` when encoding fails.
#[verifier::external_body]
fn secret_pem_of(secret: &[u8; 32], ending: LineEnding) -> (pem: Option<String>)
    ensures
        text_of(pem) == pkcs8_secret_pem(secret@, ending),
{
    let ending = match ending {
        LineEnding::Cr => ed25519_dalek::pkcs8::spki::der::pem::LineEnding::CR,
        LineEnding::Lf => ed25519_dalek::pkcs8::spki::der::pem::LineEnding::LF,
        LineEnding::CrLf => ed25519_dalek::pkcs8::spki::der::pem::LineEnding::CRLF,
    };
    ed25519_dalek::pkcs8::EncodePrivateKey::to_pkcs8_pem(&ed25519_dalek::SigningKey::from_bytes(secret), ending)
        .ok()
        .map(|pem| pem.to_string())
}

/// `VerifyingKey::from_bytes`, then `EncodePublicKey::to_public_key_pem`
/// with the given line ending: the PEM text of a public key, `None` when
/// the bytes are no valid key or encoding fails.
#[verifier::external_body]
fn public_pem_of(public: &[u8; 32], ending: LineEnding) -> (pem: Option<String>)
    ensures
        text_of(pem) == spki_public_pem(public@, ending),
{
    let ending = match ending {
        LineEnding::Cr => ed25519_dalek::pkcs8::spki::der::pem::LineEnding::CR,
        LineEnding::Lf => ed25519_dalek::pkcs8::spki::der::pem::LineEnding::LF,
        LineEnding::CrLf => ed25519_dalek::pkcs8::spki::der::pem::LineEnding::CRLF,
    };
    match ed25519_dalek::VerifyingKey::from_bytes(public) {
        Ok(key) => ed25519_dalek::pkcs8::EncodePublicKey::to_public_key_pem(&key, ending).ok(),
        Err(_) => None,
    }
}

/// `identity::ed25519::PublicKey::try_from_bytes`, `PeerId::from_public_key`,
/// then `PeerId::to_bytes`: the encoded peer id of a public key, `None` when
/// the bytes are no valid key.
#[verifier::external_body]
fn peer_id_of(public: &[u8; 32]) -> (id: Option<Vec<u8>>)
    ensures
        id is None ==> libp2p_peer_id(public@) is None,
        id is Some ==> libp2p_peer_id(public@) == Some(id.unwrap()@),
{
    match libp2p::identity::ed25519::PublicKey::try_from_bytes(public) {
        Ok(key) => Some(libp2p::PeerId::from_public_key(&libp2p::identity::PublicKey::from(key)).to_bytes()),
        Err(_) => None,
    }
}

/// A key pair; the public key is always the one of the secret key.
#[derive(Debug, Clone, Copy)]
pub struct Keys {
    private: [u8; 32],
    public: [u8; 32],
}

impl Keys {
    #[verifier::type_invariant]
    spec fn inv(self) -> bool {
        self.public@ == ed25519_public_key(self.private@)
    }

    /// The secret key.
    pub closed spec fn private_spec(&self) -> Seq<u8> {
        self.private@
    }

    /// The public key.
    pub closed spec fn public_spec(&self) -> Seq<u8> {
        self.public@
    }

    /// The key pair of a secret key.
    pub fn from_secret_bytes(secret: [u8; 32]) -> (k: Self)
        ensures
            k.private_spec() == secret@,
            k.public_spec() == ed25519_public_key(secret@),
    {
        let public = public_key_of(&secret);
        Keys { private: secret, public }
    }

    /// A new random key pair.
    pub fn generate() -> (k: Self)
        ensures
            k.public_spec() == ed25519_public_key(k.private_spec()),
    {
        Keys::from_secret_bytes(random_secret_key())
    }

    /// The secret key's bytes.
    pub fn private_bytes(&self) -> (b: [u8; 32])
        ensures
            b@ == self.private_spec(),
    {
        self.private
    }

    /// The public key's bytes.
    pub fn public_bytes(&self) -> (b: [u8; 32])
        ensures
            b@ == self.public_spec(),
            b@ == ed25519_public_key(self.private_spec()),
    {
        proof {
            use_type_invariant(self);
        }
        self.public
    }

    /// The PEM text of the secret key with the given line ending.
    pub fn private_key_pem_with(&self, ending: LineEnding) -> (pem: Option<String>)
        ensures
            text_of(pem) == pkcs8_secret_pem(self.private_spec(), ending),
    {
        secret_pem_of(&self.private, ending)
    }

    /// The PEM text of the public key with the given line ending.
    pub fn public_key_pem_with(&self, ending: LineEnding) -> (pem: Option<String>)
        ensures
            text_of(pem) == spki_public_pem(self.public_spec(), ending),
    {
        public_pem_of(&self.public, ending)
    }

    /// The PEM text of the secret key, with the line ending of the target
    /// operating system (CRLF on Windows, LF elsewhere).
    pub fn private_key_pem(&self) -> (pem: Option<String>)
        ensures
            text_of(pem) == pkcs8_secret_pem(self.private_spec(), LineEnding::Lf) || text_of(pem)
                == pkcs8_secret_pem(self.private_spec(), LineEnding::CrLf),
    {
        self.private_key_pem_with(default_line_ending())
    }

    /// The PEM text of the public key, with the line ending of the target
    /// operating system (CRLF on Windows, LF elsewhere).
    pub fn public_key_pem(&self) -> (pem: Option<String>)
        ensures
            text_of(pem) == spki_public_pem(self.public_spec(), LineEnding::Lf) || text_of(pem)
                == spki_public_pem(self.public_spec(), LineEnding::CrLf),
    {
        self.public_key_pem_with(default_line_ending())
    }

    /// The encoded libp2p peer id of the public key; `None` when the public
    /// key does not decode.
    pub fn peer_id(&self) -> (id: Option<Vec<u8>>)
        ensures
            id is None ==> libp2p_peer_id(self.public_spec()) is None,
            id is Some ==> libp2p_peer_id(self.public_spec()) == Some(id.unwrap()@),
    {
        peer_id_of(&self.public)
    }

    /// Signs a message with the secret key.
    pub fn sign(&self, message: &[u8]) -> (signature: [u8; 64])
        ensures
            signature@ == ed25519_signature(self.private_spec(), message@),
    {
        proof {
            use_type_invariant(self);
        }
        sign_bytes(&self.private, message)
    }
}

/// Checks a signature of a message under a public key.
pub fn verify_signature(public: &[u8; 32], message: &[u8], signature: &[u8; 64]) -> (ok: bool)
    ensures
        ok == ed25519_verifies(public@, message@, signature@),
{
    verify_bytes(public, message, signature)
}

/// The identity of this node: a key pair once one exists.
#[derive(Debug, Clone, Copy)]
pub struct Identity {
    pub keys: Option<Keys>,
}

impl Identity {
    /// No key pair.
    pub fn default() -> (i: Self)
        ensures
            i.keys is None,
    {
        Identity { keys: None }
    }
}

} // verus!
