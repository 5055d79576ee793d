use vstd::prelude::*;

use crate::curve::{KeyPair, PublicKey};
use crate::identity_key::{IdentityKey, IdentityKeyPair};

verus! {

/// What the initiator of a session brings to the key agreement: its own
/// identity and fresh base key pair, and the responder's published keys.
#[derive(Debug, Clone, Copy)]
pub struct AliceSignalProtocolParameters {
    our_identity_key_pair: IdentityKeyPair,
    our_base_key_pair: KeyPair,
    their_identity_key: IdentityKey,
    their_signed_pre_key: PublicKey,
    their_one_time_pre_key: Option<PublicKey>,
    their_ratchet_key: PublicKey,
}

impl AliceSignalProtocolParameters {
    /// The initiator's own identity key pair.
    pub closed spec fn spec_our_identity_key_pair(&self) -> IdentityKeyPair {
        self.our_identity_key_pair
    }

    /// The initiator's fresh base key pair.
    pub closed spec fn spec_our_base_key_pair(&self) -> KeyPair {
        self.our_base_key_pair
    }

    /// The responder's identity key.
    pub closed spec fn spec_their_identity_key(&self) -> IdentityKey {
        self.their_identity_key
    }

    /// The responder's signed prekey.
    pub closed spec fn spec_their_signed_pre_key(&self) -> PublicKey {
        self.their_signed_pre_key
    }

    /// The responder's one-time prekey, if one was published.
    pub closed spec fn spec_their_one_time_pre_key(&self) -> Option<PublicKey> {
        self.their_one_time_pre_key
    }

    /// The responder's first ratchet key.
    pub closed spec fn spec_their_ratchet_key(&self) -> PublicKey {
        self.their_ratchet_key
    }

    /// The parameters; the responder's signed prekey also serves as its
    /// first ratchet key.
    pub fn new(
        our_identity_key_pair: IdentityKeyPair,
        our_base_key_pair: KeyPair,
        their_identity_key: IdentityKey,
        their_signed_pre_key: PublicKey,
        their_one_time_pre_key: Option<PublicKey>,
    ) -> (r: AliceSignalProtocolParameters)
        ensures
            r.spec_our_identity_key_pair() == our_identity_key_pair,
            r.spec_our_base_key_pair() == our_base_key_pair,
            r.spec_their_identity_key() == their_identity_key,
            r.spec_their_signed_pre_key() == their_signed_pre_key,
            r.spec_their_one_time_pre_key() == their_one_time_pre_key,
            r.spec_their_ratchet_key() == their_signed_pre_key,
    {
        AliceSignalProtocolParameters {
            our_identity_key_pair,
            our_base_key_pair,
            their_identity_key,
            their_signed_pre_key,
            their_one_time_pre_key,
            their_ratchet_key: their_signed_pre_key,
        }
    }

    /// The initiator's own identity key pair.
    pub fn our_identity_key_pair(&self) -> (r: IdentityKeyPair)
        ensures
            r == self.spec_our_identity_key_pair(),
    {
        self.our_identity_key_pair
    }

    /// The initiator's fresh base key pair.
    pub fn our_base_key_pair(&self) -> (r: KeyPair)
        ensures
            r == self.spec_our_base_key_pair(),
    {
        self.our_base_key_pair
    }

    /// The responder's identity key.
    pub fn their_identity_key(&self) -> (r: IdentityKey)
        ensures
            r == self.spec_their_identity_key(),
    {
        self.their_identity_key
    }

    /// The responder's signed prekey.
    pub fn their_signed_pre_key(&self) -> (r: PublicKey)
        ensures
            r == self.spec_their_signed_pre_key(),
    {
        self.their_signed_pre_key
    }

    /// The responder's one-time prekey, if one was published.
    pub fn their_one_time_pre_key(&self) -> (r: Option<PublicKey>)
        ensures
            r == self.spec_their_one_time_pre_key(),
    {
        self.their_one_time_pre_key
    }

    /// The responder's first ratchet key.
    pub fn their_ratchet_key(&self) -> (r: PublicKey)
        ensures
            r == self.spec_their_ratchet_key(),
    {
        self.their_ratchet_key
    }
}

/// What the responder of a session brings to the key agreement: its own
/// identity, signed prekey, optional one-time prekey and first ratchet key
/// pair, and the initiator's identity and base key.
#[derive(Debug, Clone, Copy)]
pub struct BobSignalProtocolParameters {
    our_identity_key_pair: IdentityKeyPair,
    our_signed_pre_key_pair: KeyPair,
    our_one_time_pre_key_pair: Option<KeyPair>,
    our_ratchet_key_pair: KeyPair,
    their_identity_key: IdentityKey,
    their_base_key: PublicKey,
}

impl BobSignalProtocolParameters {
    /// The responder's own identity key pair.
    pub closed spec fn spec_our_identity_key_pair(&self) -> IdentityKeyPair {
        self.our_identity_key_pair
    }

    /// The responder's signed prekey pair.
    pub closed spec fn spec_our_signed_pre_key_pair(&self) -> KeyPair {
        self.our_signed_pre_key_pair
    }

    /// The responder's one-time prekey pair, if the initiator used one.
    pub closed spec fn spec_our_one_time_pre_key_pair(&self) -> Option<KeyPair> {
        self.our_one_time_pre_key_pair
    }

    /// The responder's first ratchet key pair.
    pub closed spec fn spec_our_ratchet_key_pair(&self) -> KeyPair {
        self.our_ratchet_key_pair
    }

    /// The initiator's identity key.
    pub closed spec fn spec_their_identity_key(&self) -> IdentityKey {
        self.their_identity_key
    }

    /// The initiator's base key.
    pub closed spec fn spec_their_base_key(&self) -> PublicKey {
        self.their_base_key
    }

    /// The parameters.
    pub fn new(
        our_identity_key_pair: IdentityKeyPair,
        our_signed_pre_key_pair: KeyPair,
        our_one_time_pre_key_pair: Option<KeyPair>,
        our_ratchet_key_pair: KeyPair,
        their_identity_key: IdentityKey,
        their_base_key: PublicKey,
    ) -> (r: BobSignalProtocolParameters)
        ensures
            r.spec_our_identity_key_pair() == our_identity_key_pair,
            r.spec_our_signed_pre_key_pair() == our_signed_pre_key_pair,
            r.spec_our_one_time_pre_key_pair() == our_one_time_pre_key_pair,
            r.spec_our_ratchet_key_pair() == our_ratchet_key_pair,
            r.spec_their_identity_key() == their_identity_key,
            r.spec_their_base_key() == their_base_key,
    {
        BobSignalProtocolParameters {
            our_identity_key_pair,
            our_signed_pre_key_pair,
            our_one_time_pre_key_pair,
            our_ratchet_key_pair,
            their_identity_key,
            their_base_key,
        }
    }

    /// The responder's own identity key pair.
    pub fn our_identity_key_pair(&self) -> (r: IdentityKeyPair)
        ensures
            r == self.spec_our_identity_key_pair(),
    {
        self.our_identity_key_pair
    }

    /// The responder's signed prekey pair.
    pub fn our_signed_pre_key_pair(&self) -> (r: KeyPair)
        ensures
            r == self.spec_our_signed_pre_key_pair(),
    {
        self.our_signed_pre_key_pair
    }

    /// The responder's one-time prekey pair, if the initiator used one.
    pub fn our_one_time_pre_key_pair(&self) -> (r: Option<KeyPair>)
        ensures
            r == self.spec_our_one_time_pre_key_pair(),
    {
        self.our_one_time_pre_key_pair
    }

    /// The responder's first ratchet key pair.
    pub fn our_ratchet_key_pair(&self) -> (r: KeyPair)
        ensures
            r == self.spec_our_ratchet_key_pair(),
    {
        self.our_ratchet_key_pair
    }

    /// The initiator's identity key.
    pub fn their_identity_key(&self) -> (r: IdentityKey)
        ensures
            r == self.spec_their_identity_key(),
    {
        self.their_identity_key
    }

    /// The initiator's base key.
    pub fn their_base_key(&self) -> (r: PublicKey)
        ensures
            r == self.spec_their_base_key(),
    {
        self.their_base_key
    }
}

} // verus!
