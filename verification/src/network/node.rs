//! Messages between nodes and their signed envelope.

use vstd::prelude::*;

use crate::identity::{ed25519_public_key, ed25519_signature, ed25519_verifies, verify_signature, Keys};

verus! {

/// A message between nodes.
#[derive(Debug, Clone, Copy, PartialEq, Eq, Structural)]
pub enum Message {
    Hello,
}

/// Why a signed message could not be read.
#[derive(Debug, Clone, Copy, PartialEq, Eq, Structural)]
pub enum Error {
    /// The bytes are not a valid encoding.
    Postcard,
    /// The signature does not verify.
    Signature,
}

/// An encoded message with the public key of its sender and the sender's
/// signature of the encoding.
#[derive(Debug, Clone)]
pub struct SignedMessage {
    pub from: [u8; 32],
    pub data: Vec<u8>,
    pub signature: [u8; 64],
}

impl SignedMessage {
    /// Signs the encoding of a message with a key pair.
    pub fn encode_and_sign(keys: &Keys, data: Vec<u8>) -> (m: Self)
        ensures
            m.from@ == keys.public_spec(),
            m.from@ == ed25519_public_key(keys.private_spec()),
            m.data@ == data@,
            m.signature@ == ed25519_signature(keys.private_spec(), data@),
    {
        let signature = keys.sign(data.as_slice());
        let from = keys.public_bytes();
        SignedMessage { from, data, signature }
    }

    /// Checks the signature; gives the sender's public key when it verifies.
    pub fn verify(&self) -> (r: Result<[u8; 32], Error>)
        ensures
            r is Ok <==> ed25519_verifies(self.from@, self.data@, self.signature@),
            r is Ok ==> r.unwrap() == self.from,
            r is Err ==> r == Err::<[u8; 32], Error>(Error::Signature),
    {
        if verify_signature(&self.from, self.data.as_slice(), &self.signature) {
            Ok(self.from)
        } else {
            Err(Error::Signature)
        }
    }
}

} // verus!
