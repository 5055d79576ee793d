use vstd::prelude::*;

use crate::curve::{is_serialized_public_key, serialized_public_key, PrivateKey, PublicKey};
use crate::error::{Result, SignalProtocolError};

verus! {

/// The long-term public key that identifies an installation.
#[derive(Debug, Clone, Copy)]
pub struct IdentityKey {
    pub key: PublicKey,
}

impl View for IdentityKey {
    type V = Seq<u8>;

    open spec fn view(&self) -> Seq<u8> {
        self.key@
    }
}

impl IdentityKey {
    /// Wraps a public key as an identity key.
    pub fn new(key: PublicKey) -> (r: IdentityKey)
        ensures
            r@ == key@,
    {
        IdentityKey { key }
    }

    /// The public key of the identity.
    pub fn public_key(&self) -> (r: PublicKey)
        ensures
            r@ == self@,
    {
        self.key
    }

    /// The serialized form of the identity's public key.
    pub fn serialize(&self) -> (r: Vec<u8>)
        ensures
            r@ == serialized_public_key(self@),
    {
        self.key.serialize()
    }

    /// Reads an identity key from a serialized public key.
    pub fn decode(bytes: &[u8]) -> (r: Result<IdentityKey>)
        ensures
            is_serialized_public_key(bytes@) ==> (r matches Ok(k) && serialized_public_key(k@)
                == bytes@),
            !is_serialized_public_key(bytes@) ==> r == Err::<IdentityKey, _>(
                SignalProtocolError::InvalidKeyMaterial,
            ),
    {
        let key = PublicKey::deserialize(bytes)?;
        Ok(IdentityKey { key })
    }

    /// Whether two identity keys hold the same public key.
    pub fn same_identity(&self, other: &IdentityKey) -> (r: bool)
        ensures
            r == (self@ == other@),
    {
        self.key.same_key(&other.key)
    }
}

/// An identity key together with its private key.
#[derive(Debug, Clone, Copy)]
pub struct IdentityKeyPair {
    pub identity_key: IdentityKey,
    pub private_key: PrivateKey,
}

impl IdentityKeyPair {
    /// Pairs an identity key with its private key.
    pub fn new(identity_key: IdentityKey, private_key: PrivateKey) -> (r: IdentityKeyPair)
        ensures
            r.identity_key@ == identity_key@,
            r.private_key@ == private_key@,
    {
        IdentityKeyPair { identity_key, private_key }
    }

    /// The public half.
    pub fn identity_key(&self) -> (r: IdentityKey)
        ensures
            r@ == self.identity_key@,
    {
        self.identity_key
    }

    /// The public key of the public half.
    pub fn public_key(&self) -> (r: PublicKey)
        ensures
            r@ == self.identity_key@,
    {
        self.identity_key.key
    }

    /// The private half.
    pub fn private_key(&self) -> (r: PrivateKey)
        ensures
            r@ == self.private_key@,
    {
        self.private_key
    }
}

} // verus!
