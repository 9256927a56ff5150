//! The identity screen: the key pair, and the means to make, delete and copy
//! it.

use vstd::prelude::*;

use crate::identity::{self, pkcs8_secret_pem, spki_public_pem, text_of, LineEnding};

verus! {

/// The identity screen.
#[derive(Debug, Clone, Copy, PartialEq, Eq, Structural)]
pub struct Identity {}

/// What the user did on the identity screen.
#[derive(Debug, Clone, Copy, PartialEq, Eq, Structural)]
pub enum Message {
    GenerateSecretKey,
    DeleteSecretKey,
    CopyPrivatePem,
    CopyPublicPem,
}

/// What the screen asks of the application.
#[derive(Debug, Clone, Copy, PartialEq, Eq, Structural)]
pub enum Event {
    GenerateSecretKey,
    DeleteSecretKey,
}

impl Identity {
    pub fn new() -> (i: Self)
        ensures
            i == (Identity {}),
    {
        Identity {}
    }

    /// Making and deleting keys are passed on to the application; copying a
    /// key gives the PEM text to put on the clipboard, with the operating
    /// system's line ending, when there are keys and the key encodes.
    pub fn update(&mut self, message: Message, identity: &identity::Identity) -> (r: (Option<String>, Option<Event>))
        ensures
            message == Message::GenerateSecretKey ==> r.0 is None && r.1 == Some(Event::GenerateSecretKey),
            message == Message::DeleteSecretKey ==> r.0 is None && r.1 == Some(Event::DeleteSecretKey),
            message == Message::CopyPrivatePem ==> r.1 is None && match identity.keys {
                Some(keys) => text_of(r.0) == pkcs8_secret_pem(keys.private_spec(), LineEnding::Lf)
                    || text_of(r.0) == pkcs8_secret_pem(keys.private_spec(), LineEnding::CrLf),
                None => r.0 is None,
            },
            message == Message::CopyPublicPem ==> r.1 is None && match identity.keys {
                Some(keys) => text_of(r.0) == spki_public_pem(keys.public_spec(), LineEnding::Lf)
                    || text_of(r.0) == spki_public_pem(keys.public_spec(), LineEnding::CrLf),
                None => r.0 is None,
            },
    {
        match message {
            Message::GenerateSecretKey => (None, Some(Event::GenerateSecretKey)),
            Message::DeleteSecretKey => (None, Some(Event::DeleteSecretKey)),
            Message::CopyPrivatePem => match &identity.keys {
                Some(keys) => (keys.private_key_pem(), None),
                None => (None, None),
            },
            Message::CopyPublicPem => match &identity.keys {
                Some(keys) => (keys.public_key_pem(), None),
                None => (None, None),
            },
        }
    }

    /// Whether the screen shows a key pair as found.
    pub fn keys_found(identity: &identity::Identity) -> (b: bool)
        ensures
            b == identity.keys is Some,
    {
        identity.keys.is_some()
    }
}

} // verus!
