use vstd::prelude::*;

use crate::chain::{receive_spec, ChainWindow, Delivery};
use crate::codec::{copy_vec, push_u32, push_u64, read_u32, read_u64, slice_to_vec, u32_be, u64_be};
use crate::curve::{copy_bytes, push_all, serialized_public_key, KeyPair, PrivateKey, PublicKey, DJB_TYPE};
use crate::error::{Result, SignalProtocolError};
use crate::identity_key::IdentityKey;

verus! {

/// Ids of signed prekeys.
pub type SignedPreKeyId = u32;

/// Ids of one-time prekeys.
pub type PreKeyId = u32;

/// How many archived session states a record keeps.
pub const ARCHIVED_STATES_MAX_LENGTH: usize = 40;

/// A snapshot of the keys that a remote party published, used once to
/// bootstrap a session with it.
#[derive(Debug, Clone)]
pub struct PreKeyBundle {
    pub registration_id: u32,
    pub device_id: u32,
    pub pre_key: Option<(PreKeyId, PublicKey)>,
    pub signed_pre_key_id: SignedPreKeyId,
    pub signed_pre_key_public: PublicKey,
    pub signed_pre_key_signature: Vec<u8>,
    pub identity_key: IdentityKey,
}

impl PreKeyBundle {
    /// Builds a bundle; the one-time prekey is present exactly when its
    /// public key is given.
    pub fn new(
        registration_id: u32,
        device_id: u32,
        pre_key_id: PreKeyId,
        pre_key_public: Option<PublicKey>,
        signed_pre_key_id: SignedPreKeyId,
        signed_pre_key_public: PublicKey,
        signed_pre_key_signature: Vec<u8>,
        identity_key: IdentityKey,
    ) -> (r: PreKeyBundle)
        ensures
            r.registration_id == registration_id,
            r.device_id == device_id,
            match pre_key_public {
                Some(k) => r.pre_key matches Some(p) && p.0 == pre_key_id && p.1@ == k@,
                None => r.pre_key is None,
            },
            r.signed_pre_key_id == signed_pre_key_id,
            r.signed_pre_key_public@ == signed_pre_key_public@,
            r.signed_pre_key_signature@ == signed_pre_key_signature@,
            r.identity_key@ == identity_key@,
    {
        let pre_key: Option<(PreKeyId, PublicKey)> = match pre_key_public {
            Some(k) => Some((pre_key_id, k)),
            None => None,
        };
        PreKeyBundle {
            registration_id,
            device_id,
            pre_key,
            signed_pre_key_id,
            signed_pre_key_public,
            signed_pre_key_signature,
            identity_key,
        }
    }

    /// The registration id of the remote party.
    pub fn registration_id(&self) -> (r: u32)
        ensures
            r == self.registration_id,
    {
        self.registration_id
    }

    /// The device id of the remote party.
    pub fn device_id(&self) -> (r: u32)
        ensures
            r == self.device_id,
    {
        self.device_id
    }

    /// The id of the one-time prekey, if the bundle has one.
    pub fn pre_key_id(&self) -> (r: Option<PreKeyId>)
        ensures
            match self.pre_key {
                Some(p) => r == Some(p.0),
                None => r is None,
            },
    {
        match &self.pre_key {
            Some(p) => Some(p.0),
            None => None,
        }
    }

    /// The public key of the one-time prekey, if the bundle has one.
    pub fn pre_key_public(&self) -> (r: Option<PublicKey>)
        ensures
            match self.pre_key {
                Some(p) => r matches Some(k) && k@ == p.1@,
                None => r is None,
            },
    {
        match &self.pre_key {
            Some(p) => Some(p.1),
            None => None,
        }
    }

    /// The id of the signed prekey.
    pub fn signed_pre_key_id(&self) -> (r: SignedPreKeyId)
        ensures
            r == self.signed_pre_key_id,
    {
        self.signed_pre_key_id
    }

    /// The public key of the signed prekey.
    pub fn signed_pre_key_public(&self) -> (r: PublicKey)
        ensures
            r@ == self.signed_pre_key_public@,
    {
        self.signed_pre_key_public
    }

    /// The signature over the signed prekey.
    pub fn signed_pre_key_signature(&self) -> (r: Vec<u8>)
        ensures
            r@ == self.signed_pre_key_signature@,
    {
        copy_vec(&self.signed_pre_key_signature)
    }

    /// The identity key of the remote party.
    pub fn identity_key(&self) -> (r: IdentityKey)
        ensures
            r@ == self.identity_key@,
    {
        self.identity_key
    }
}

/// A one-time prekey: an id and a key pair.
#[derive(Debug, Clone, Copy)]
pub struct PreKeyRecord {
    pub id: PreKeyId,
    pub key_pair: KeyPair,
}

impl PreKeyRecord {
    /// A record for `key_pair` under `id`.
    pub fn new(id: PreKeyId, key_pair: &KeyPair) -> (r: PreKeyRecord)
        ensures
            r.id == id,
            r.key_pair.public_key@ == key_pair.public_key@,
            r.key_pair.private_key@ == key_pair.private_key@,
    {
        PreKeyRecord { id, key_pair: *key_pair }
    }

    /// The id of the prekey.
    pub fn id(&self) -> (r: PreKeyId)
        ensures
            r == self.id,
    {
        self.id
    }

    /// The key pair of the prekey.
    pub fn key_pair(&self) -> (r: KeyPair)
        ensures
            r.public_key@ == self.key_pair.public_key@,
            r.private_key@ == self.key_pair.private_key@,
    {
        self.key_pair
    }

    /// The public key of the prekey.
    pub fn public_key(&self) -> (r: PublicKey)
        ensures
            r@ == self.key_pair.public_key@,
    {
        self.key_pair.public_key
    }

    /// The private key of the prekey.
    pub fn private_key(&self) -> (r: PrivateKey)
        ensures
            r@ == self.key_pair.private_key@,
    {
        self.key_pair.private_key
    }

    /// The stored form: id, serialized public key, private key.
    pub open spec fn spec_serialize(&self) -> Seq<u8> {
        u32_be(self.id) + serialized_public_key(self.key_pair.public_key@)
            + self.key_pair.private_key@
    }

    /// The stored form of the record.
    pub fn serialize(&self) -> (r: Result<Vec<u8>>)
        ensures
            r matches Ok(b) && b@ == self.spec_serialize(),
    {
        let mut out: Vec<u8> = Vec::new();
        push_u32(&mut out, self.id);
        let public = self.key_pair.public_key.serialize();
        push_all(&mut out, public.as_slice());
        push_all(&mut out, &self.key_pair.private_key.key);
        assert(out@ =~= self.spec_serialize());
        Ok(out)
    }

    /// Reads a record from its stored form.
    pub fn deserialize(data: &[u8]) -> (r: Result<PreKeyRecord>)
        ensures
            r matches Ok(k) ==> k.spec_serialize() == data@,
            r matches Err(e) ==> e == SignalProtocolError::InvalidMessage,
            (exists|k: PreKeyRecord| k.spec_serialize() == data@) ==> r is Ok,
    {
        if data.len() != PRE_KEY_RECORD_LEN || data[4] != DJB_TYPE {
            assert forall|k: PreKeyRecord| k.spec_serialize() == data@ implies false by {
                assert(k.spec_serialize().len() == PRE_KEY_RECORD_LEN);
                assert(k.spec_serialize()[4] == DJB_TYPE);
            }
            return Err(SignalProtocolError::InvalidMessage);
        }
        let id: u32 = read_u32(data, 0);
        let public = copy_bytes::<32>(data, 5);
        let private = copy_bytes::<32>(data, 37);
        let k = PreKeyRecord {
            id,
            key_pair: KeyPair { public_key: PublicKey { key: public }, private_key: PrivateKey { key: private } },
        };
        assert(k.spec_serialize() =~= data@);
        Ok(k)
    }
}

/// Length of the stored form of a one-time prekey.
pub const PRE_KEY_RECORD_LEN: usize = 69;

/// Length of the stored form of a signed prekey, but its signature.
pub const SIGNED_PRE_KEY_RECORD_OVERHEAD: usize = 77;

/// The records for the key pairs in `key_pairs`, under the ids `id`,
/// `id + 1`, ... in that order.
pub fn generate_n_prekeys(id: PreKeyId, key_pairs: &Vec<KeyPair>) -> (r: Vec<PreKeyRecord>)
    requires
        id + key_pairs@.len() <= u32::MAX + 1,
    ensures
        r@.len() == key_pairs@.len(),
        forall|k: int|
            0 <= k < r@.len() ==> r@[k].id == id + k && r@[k].key_pair.public_key@
                == key_pairs@[k].public_key@ && r@[k].key_pair.private_key@
                == key_pairs@[k].private_key@,
{
    let mut records: Vec<PreKeyRecord> = Vec::new();
    let mut i: usize = 0;
    while i < key_pairs.len()
        invariant
            i <= key_pairs@.len(),
            id + key_pairs@.len() <= u32::MAX + 1,
            records@.len() == i,
            forall|k: int|
                0 <= k < i ==> records@[k].id == id + k && records@[k].key_pair.public_key@
                    == key_pairs@[k].public_key@ && records@[k].key_pair.private_key@
                    == key_pairs@[k].private_key@,
        decreases key_pairs@.len() - i,
    {
        let record = PreKeyRecord::new(id + i as u32, &key_pairs[i]);
        records.push(record);
        i = i + 1;
    }
    records
}

/// A signed prekey: an id, the time it was signed (milliseconds since the
/// epoch), a key pair and the identity's signature over the public key.
#[derive(Debug, Clone)]
pub struct SignedPreKeyRecord {
    pub id: SignedPreKeyId,
    pub timestamp: u64,
    pub key_pair: KeyPair,
    pub signature: Vec<u8>,
}

impl SignedPreKeyRecord {
    /// A record from its parts.
    pub fn new(id: SignedPreKeyId, timestamp: u64, key_pair: &KeyPair, signature: &[u8]) -> (r:
        SignedPreKeyRecord)
        ensures
            r.id == id,
            r.timestamp == timestamp,
            r.key_pair.public_key@ == key_pair.public_key@,
            r.key_pair.private_key@ == key_pair.private_key@,
            r.signature@ == signature@,
    {
        let sig = crate::codec::slice_to_vec(signature, 0, signature.len());
        assert(signature@.subrange(0, signature@.len() as int) =~= signature@);
        SignedPreKeyRecord { id, timestamp, key_pair: *key_pair, signature: sig }
    }

    /// The id of the prekey.
    pub fn id(&self) -> (r: SignedPreKeyId)
        ensures
            r == self.id,
    {
        self.id
    }

    /// The time of signing, in milliseconds since the epoch.
    pub fn timestamp(&self) -> (r: u64)
        ensures
            r == self.timestamp,
    {
        self.timestamp
    }

    /// The signature over the public key.
    pub fn signature(&self) -> (r: Vec<u8>)
        ensures
            r@ == self.signature@,
    {
        copy_vec(&self.signature)
    }

    /// The key pair of the prekey.
    pub fn key_pair(&self) -> (r: KeyPair)
        ensures
            r.public_key@ == self.key_pair.public_key@,
            r.private_key@ == self.key_pair.private_key@,
    {
        self.key_pair
    }

    /// The public key of the prekey.
    pub fn public_key(&self) -> (r: PublicKey)
        ensures
            r@ == self.key_pair.public_key@,
    {
        self.key_pair.public_key
    }

    /// The private key of the prekey.
    pub fn private_key(&self) -> (r: PrivateKey)
        ensures
            r@ == self.key_pair.private_key@,
    {
        self.key_pair.private_key
    }

    /// The stored form: id, timestamp, serialized public key, private key,
    /// signature.
    pub open spec fn spec_serialize(&self) -> Seq<u8> {
        u32_be(self.id) + u64_be(self.timestamp) + serialized_public_key(
            self.key_pair.public_key@,
        ) + self.key_pair.private_key@ + self.signature@
    }

    /// The stored form of the record.
    pub fn serialize(&self) -> (r: Result<Vec<u8>>)
        ensures
            r matches Ok(b) && b@ == self.spec_serialize(),
    {
        let mut out: Vec<u8> = Vec::new();
        push_u32(&mut out, self.id);
        push_u64(&mut out, self.timestamp);
        let public = self.key_pair.public_key.serialize();
        push_all(&mut out, public.as_slice());
        push_all(&mut out, &self.key_pair.private_key.key);
        push_all(&mut out, self.signature.as_slice());
        assert(out@ =~= self.spec_serialize());
        Ok(out)
    }

    /// Reads a record from its stored form.
    pub fn deserialize(data: &[u8]) -> (r: Result<SignedPreKeyRecord>)
        ensures
            r matches Ok(k) ==> k.spec_serialize() == data@,
            r matches Err(e) ==> e == SignalProtocolError::InvalidMessage,
            (exists|k: SignedPreKeyRecord| k.spec_serialize() == data@) ==> r is Ok,
    {
        if data.len() < SIGNED_PRE_KEY_RECORD_OVERHEAD || data[12] != DJB_TYPE {
            assert forall|k: SignedPreKeyRecord| k.spec_serialize() == data@ implies false by {
                assert(k.spec_serialize().len() >= SIGNED_PRE_KEY_RECORD_OVERHEAD);
                assert(k.spec_serialize()[12] == DJB_TYPE);
            }
            return Err(SignalProtocolError::InvalidMessage);
        }
        let id: u32 = read_u32(data, 0);
        let timestamp: u64 = read_u64(data, 4);
        let public = copy_bytes::<32>(data, 13);
        let private = copy_bytes::<32>(data, 45);
        let signature = slice_to_vec(data, SIGNED_PRE_KEY_RECORD_OVERHEAD, data.len());
        let k = SignedPreKeyRecord {
            id,
            timestamp,
            key_pair: KeyPair { public_key: PublicKey { key: public }, private_key: PrivateKey { key: private } },
            signature,
        };
        assert(k.spec_serialize() =~= data@);
        Ok(k)
    }

    /// A copy of the record.
    pub fn copy(&self) -> (r: SignedPreKeyRecord)
        ensures
            r.id == self.id,
            r.timestamp == self.timestamp,
            r.key_pair.public_key@ == self.key_pair.public_key@,
            r.key_pair.private_key@ == self.key_pair.private_key@,
            r.signature@ == self.signature@,
    {
        SignedPreKeyRecord {
            id: self.id,
            timestamp: self.timestamp,
            key_pair: self.key_pair,
            signature: copy_vec(&self.signature),
        }
    }
}

/// How many receiving chains a session state keeps.
pub const MAX_RECEIVER_CHAINS: usize = 5;

/// A chain key and the index of the next message key it yields.
#[derive(Debug, Clone, Copy)]
pub struct ChainKey {
    pub key: [u8; 32],
    pub index: u32,
}

/// The receiving chain that belongs to one ratchet key of the remote party.
#[derive(Debug, Clone, Copy)]
pub struct ReceiverChain {
    pub sender_ratchet_key: PublicKey,
    pub chain_key: ChainKey,
}

/// The receiving chains of a session, oldest first: at most
/// `MAX_RECEIVER_CHAINS` of them.
#[derive(Debug, Clone, Copy)]
pub struct ReceiverChains {
    chains: [ReceiverChain; 5],
    len: usize,
}

impl View for ReceiverChains {
    type V = Seq<ReceiverChain>;

    closed spec fn view(&self) -> Seq<ReceiverChain> {
        self.chains@.take(self.len as int)
    }
}

impl ReceiverChains {
    #[verifier::type_invariant]
    spec fn inv(&self) -> bool {
        self.len <= MAX_RECEIVER_CHAINS
    }

    /// No chain yet.
    pub fn new() -> (r: ReceiverChains)
        ensures
            r@ == Seq::<ReceiverChain>::empty(),
    {
        let empty = ReceiverChain {
            sender_ratchet_key: PublicKey { key: [0u8; 32] },
            chain_key: ChainKey { key: [0u8; 32], index: 0 },
        };
        let r = ReceiverChains { chains: [empty; 5], len: 0 };
        assert(r@ =~= Seq::<ReceiverChain>::empty());
        r
    }

    /// The number of chains.
    pub fn len(&self) -> (r: usize)
        ensures
            r == self@.len(),
            r <= MAX_RECEIVER_CHAINS,
    {
        proof {
            use_type_invariant(self);
        }
        self.len
    }

    /// The chain at position `i`, oldest first.
    pub fn get(&self, i: usize) -> (r: ReceiverChain)
        requires
            i < self@.len(),
        ensures
            r == self@[i as int],
    {
        proof {
            use_type_invariant(self);
        }
        self.chains[i]
    }

    /// Replaces the chain at position `i` by `chain`.
    pub fn set(&mut self, i: usize, chain: ReceiverChain)
        requires
            i < old(self)@.len(),
        ensures
            final(self)@ == old(self)@.update(i as int, chain),
    {
        proof {
            use_type_invariant(&*self);
        }
        self.chains[i] = chain;
        assert(self@ =~= old(self)@.update(i as int, chain));
    }

    /// Adds `chain` as the newest; when that makes more than
    /// `MAX_RECEIVER_CHAINS`, the oldest goes.
    pub fn push(&mut self, chain: ReceiverChain)
        ensures
            final(self)@ == if old(self)@.len() < MAX_RECEIVER_CHAINS {
                old(self)@.push(chain)
            } else {
                old(self)@.push(chain).drop_first()
            },
    {
        proof {
            use_type_invariant(&*self);
        }
        if self.len < MAX_RECEIVER_CHAINS {
            self.chains[self.len] = chain;
            self.len = self.len + 1;
            assert(self@ =~= old(self)@.push(chain));
        } else {
            let mut i: usize = 0;
            while i + 1 < MAX_RECEIVER_CHAINS
                invariant
                    i + 1 <= MAX_RECEIVER_CHAINS,
                    self.len == MAX_RECEIVER_CHAINS,
                    forall|j: int| 0 <= j < i ==> self.chains@[j] == old(self).chains@[j + 1],
                    forall|j: int| i <= j < MAX_RECEIVER_CHAINS ==> self.chains@[j] == old(self).chains@[j],
                decreases MAX_RECEIVER_CHAINS - i,
            {
                self.chains[i] = self.chains[i + 1];
                i = i + 1;
            }
            self.chains[MAX_RECEIVER_CHAINS - 1] = chain;
            assert(self@ =~= old(self)@.push(chain).drop_first());
        }
    }
}

/// The sending chain: our current ratchet key pair and its chain key.
#[derive(Debug, Clone, Copy)]
pub struct SenderChain {
    pub ratchet_key_pair: KeyPair,
    pub chain_key: ChainKey,
}

/// The ratchet state of one session with a remote party.
#[derive(Debug, Clone, Copy)]
pub struct SessionState {
    pub session_version: u32,
    pub local_identity_key: IdentityKey,
    pub remote_identity_key: Option<IdentityKey>,
    pub root_key: [u8; 32],
    pub previous_counter: u32,
    pub sender_chain: Option<SenderChain>,
    pub receiver_chains: ReceiverChains,
    pub local_registration_id: u32,
    pub remote_registration_id: u32,
    pub alice_base_key: PublicKey,
}

/// Whether some chain of `chains` before position `end` belongs to `key`.
pub open spec fn has_chain_before(chains: Seq<ReceiverChain>, key: Seq<u8>, end: int) -> bool {
    exists|j: int| 0 <= j < end && #[trigger] chains[j].sender_ratchet_key@ == key
}

impl SessionState {
    /// The chain key of the first receiving chain that belongs to `sender`.
    pub fn get_receiver_chain_key(&self, sender: &PublicKey) -> (r: Option<ChainKey>)
        ensures
            r is None <==> !has_chain_before(
                self.receiver_chains@,
                sender@,
                self.receiver_chains@.len() as int,
            ),
            r matches Some(c) ==> exists|i: int|
                0 <= i < self.receiver_chains@.len() && self.receiver_chains@[i].sender_ratchet_key@
                    == sender@ && !has_chain_before(self.receiver_chains@, sender@, i)
                    && c == self.receiver_chains@[i].chain_key,
    {
        let mut i: usize = 0;
        let n: usize = self.receiver_chains.len();
        while i < n
            invariant
                n == self.receiver_chains@.len(),
                i <= self.receiver_chains@.len(),
                !has_chain_before(self.receiver_chains@, sender@, i as int),
            decreases self.receiver_chains@.len() - i,
        {
            let chain = self.receiver_chains.get(i);
            if chain.sender_ratchet_key.same_key(sender) {
                return Some(chain.chain_key);
            }
            i = i + 1;
            assert forall|j: int| 0 <= j < i implies #[trigger] self.receiver_chains@[j].sender_ratchet_key@
                != sender@ by {
                if j < i - 1 {
                    assert(!has_chain_before(self.receiver_chains@, sender@, i - 1));
                }
            }
        }
        None
    }

    /// The position of the first receiving chain that belongs to `sender`.
    pub fn receiver_chain_index(&self, sender: &PublicKey) -> (r: Option<usize>)
        ensures
            r is None <==> !has_chain_before(
                self.receiver_chains@,
                sender@,
                self.receiver_chains@.len() as int,
            ),
            r matches Some(i) ==> i < self.receiver_chains@.len()
                && self.receiver_chains@[i as int].sender_ratchet_key@ == sender@
                && !has_chain_before(self.receiver_chains@, sender@, i as int),
    {
        let mut i: usize = 0;
        let n: usize = self.receiver_chains.len();
        while i < n
            invariant
                n == self.receiver_chains@.len(),
                i <= self.receiver_chains@.len(),
                !has_chain_before(self.receiver_chains@, sender@, i as int),
            decreases self.receiver_chains@.len() - i,
        {
            let chain = self.receiver_chains.get(i);
            if chain.sender_ratchet_key.same_key(sender) {
                return Some(i);
            }
            i = i + 1;
            assert forall|j: int| 0 <= j < i implies #[trigger] self.receiver_chains@[j].sender_ratchet_key@
                != sender@ by {
                if j < i - 1 {
                    assert(!has_chain_before(self.receiver_chains@, sender@, i - 1));
                }
            }
        }
        None
    }

    /// Receives the message with `counter` on the receiving chain of
    /// `sender`, where `window` is that chain's receiving position (its
    /// next counter is the chain key's index). The ordering rule of
    /// [`ChainWindow::receive`] decides: a kept skipped counter is served by
    /// its kept key and the chain stays; a counter at or ahead of the
    /// chain's, within the bound, moves the chain past it with
    /// `chain_key_after`, the key that the one-way steps derive for that
    /// position; a replay or a jump too far is refused and changes nothing.
    /// A ratchet key with no receiving chain yet needs a ratchet step first
    /// and is refused here with `SessionNotFound`.
    pub fn receive_message(
        &mut self,
        window: &mut ChainWindow,
        sender: &PublicKey,
        counter: u32,
        chain_key_after: [u8; 32],
    ) -> (r: Result<Delivery>)
        requires
            old(window).wf(),
        ensures
            final(window).wf(),
            final(self).sender_chain == old(self).sender_chain,
            final(self).root_key == old(self).root_key,
            ({
                let chains = old(self).receiver_chains@;
                let found = has_chain_before(chains, sender@, chains.len() as int);
                let i = choose|i: int|
                    0 <= i < chains.len() && chains[i].sender_ratchet_key@ == sender@
                        && !has_chain_before(chains, sender@, i);
                let unchanged = final(self).receiver_chains@ == chains && final(window).next()
                    == old(window).next() && final(window).skipped() == old(window).skipped();
                if !found {
                    r == Err::<Delivery, _>(SignalProtocolError::SessionNotFound) && unchanged
                } else if old(window).next() != chains[i].chain_key.index {
                    r == Err::<Delivery, _>(SignalProtocolError::InvalidArgument) && unchanged
                } else if counter == u32::MAX {
                    r == Err::<Delivery, _>(SignalProtocolError::ReplayOrOrderingViolation)
                        && unchanged
                } else {
                    match receive_spec(old(window).next(), old(window).skipped(), counter) {
                        Ok((d, n, sk)) => {
                            &&& r == Ok::<Delivery, SignalProtocolError>(d)
                            &&& final(window).next() == n
                            &&& final(window).skipped() == sk
                            &&& d == Delivery::Cached ==> final(self).receiver_chains@ == chains
                            &&& d == Delivery::Fresh ==> final(self).receiver_chains@
                                == chains.update(
                                i,
                                ReceiverChain {
                                    sender_ratchet_key: chains[i].sender_ratchet_key,
                                    chain_key: ChainKey {
                                        key: chain_key_after,
                                        index: (counter + 1) as u32,
                                    },
                                },
                            )
                        },
                        Err(e) => r == Err::<Delivery, _>(e) && unchanged,
                    }
                }
            }),
    {
        let ghost chains = self.receiver_chains@;
        let i = match self.receiver_chain_index(sender) {
            Some(i) => i,
            None => {
                return Err(SignalProtocolError::SessionNotFound);
            },
        };
        proof {
            let c = choose|c: int|
                0 <= c < chains.len() && chains[c].sender_ratchet_key@ == sender@
                    && !has_chain_before(chains, sender@, c);
            if c < i {
                assert(has_chain_before(chains, sender@, i as int));
            } else if c > i {
                assert(chains[i as int].sender_ratchet_key@ == sender@);
                assert(has_chain_before(chains, sender@, c));
            }
        }
        let chain = self.receiver_chains.get(i);
        if window.next_counter() != chain.chain_key.index as u64 {
            return Err(SignalProtocolError::InvalidArgument);
        }
        if counter == u32::MAX {
            return Err(SignalProtocolError::ReplayOrOrderingViolation);
        }
        let d = window.receive(counter)?;
        match d {
            Delivery::Fresh => {
                let next = ReceiverChain {
                    sender_ratchet_key: chain.sender_ratchet_key,
                    chain_key: ChainKey { key: chain_key_after, index: counter + 1 },
                };
                self.receiver_chains.set(i, next);
            },
            Delivery::Cached => {},
        }
        Ok(d)
    }

    /// Adds the receiving chain of a new ratchet key of the remote party;
    /// when that makes more than `MAX_RECEIVER_CHAINS`, the oldest chain
    /// goes.
    pub fn add_receiver_chain(&mut self, sender: PublicKey, chain_key: ChainKey)
        ensures
            ({
                let added = old(self).receiver_chains@.push(
                    ReceiverChain { sender_ratchet_key: sender, chain_key },
                );
                if added.len() > MAX_RECEIVER_CHAINS {
                    final(self).receiver_chains@ == added.drop_first()
                } else {
                    final(self).receiver_chains@ == added
                }
            }),
            final(self).sender_chain == old(self).sender_chain,
            final(self).root_key == old(self).root_key,
            final(self).session_version == old(self).session_version,
    {
        self.receiver_chains.push(ReceiverChain { sender_ratchet_key: sender, chain_key });
    }
}

/// The archived states after `s` is archived in front of `previous`: the
/// oldest goes when there would be more than `ARCHIVED_STATES_MAX_LENGTH`.
pub open spec fn archived_with(previous: Seq<SessionState>, s: SessionState) -> Seq<SessionState> {
    if previous.len() < ARCHIVED_STATES_MAX_LENGTH {
        seq![s] + previous
    } else {
        (seq![s] + previous).take(ARCHIVED_STATES_MAX_LENGTH as int)
    }
}

/// The sessions with one remote address: the current state, if any, and
/// the archived earlier states, most recent first.
#[derive(Debug, Clone)]
pub struct SessionRecord {
    current_session: Option<SessionState>,
    previous_sessions: Vec<SessionState>,
}

impl SessionRecord {
    /// The current state.
    pub closed spec fn current(&self) -> Option<SessionState> {
        self.current_session
    }

    /// The archived states, most recent first.
    pub closed spec fn previous(&self) -> Seq<SessionState> {
        self.previous_sessions@
    }

    /// Well-formed: at most `ARCHIVED_STATES_MAX_LENGTH` archived states.
    pub open spec fn wf(&self) -> bool {
        self.previous().len() <= ARCHIVED_STATES_MAX_LENGTH
    }

    /// A record with no session yet.
    pub fn new_fresh() -> (r: SessionRecord)
        ensures
            r.current() is None,
            r.previous().len() == 0,
            r.wf(),
    {
        SessionRecord { current_session: None, previous_sessions: Vec::new() }
    }

    /// A record whose current state is `state`.
    pub fn new(state: SessionState) -> (r: SessionRecord)
        ensures
            r.current() == Some(state),
            r.previous().len() == 0,
            r.wf(),
    {
        SessionRecord { current_session: Some(state), previous_sessions: Vec::new() }
    }

    /// The current state, if any.
    pub fn session_state(&self) -> (r: Option<&SessionState>)
        ensures
            match self.current() {
                Some(s) => r == Some(&s),
                None => r is None,
            },
    {
        self.current_session.as_ref()
    }

    /// A copy of the record.
    pub fn copy(&self) -> (r: SessionRecord)
        ensures
            r.current() == self.current(),
            r.previous() == self.previous(),
    {
        let mut previous: Vec<SessionState> = Vec::new();
        let mut i: usize = 0;
        while i < self.previous_sessions.len()
            invariant
                i <= self.previous_sessions@.len(),
                previous@ == self.previous_sessions@.subrange(0, i as int),
            decreases self.previous_sessions@.len() - i,
        {
            previous.push(self.previous_sessions[i]);
            i = i + 1;
            assert(previous@ =~= self.previous_sessions@.subrange(0, i as int));
        }
        assert(self.previous_sessions@.subrange(0, self.previous_sessions@.len() as int)
            =~= self.previous_sessions@);
        SessionRecord { current_session: self.current_session, previous_sessions: previous }
    }

    /// The number of archived states.
    pub fn previous_session_count(&self) -> (r: usize)
        ensures
            r == self.previous().len(),
    {
        self.previous_sessions.len()
    }

    /// Moves the current state, if any, to the front of the archived ones;
    /// the oldest archived state goes when there would be more than
    /// `ARCHIVED_STATES_MAX_LENGTH`.
    pub fn archive_current_state(&mut self) -> (r: Result<()>)
        requires
            old(self).wf(),
        ensures
            r is Ok,
            final(self).wf(),
            final(self).current() is None,
            match old(self).current() {
                Some(s) => final(self).previous() == archived_with(old(self).previous(), s),
                None => final(self).previous() == old(self).previous(),
            },
    {
        match self.current_session.take() {
            Some(state) => {
                self.previous_sessions.insert(0, state);
                self.previous_sessions.truncate(ARCHIVED_STATES_MAX_LENGTH);
                let ghost added = seq![state].add(old(self).previous());
                assert(self.previous_sessions@ =~= added.take(self.previous_sessions@.len() as int));
            },
            None => {},
        }
        Ok(())
    }

    /// Archives the current state, if any, and makes `state` current.
    pub fn promote_state(&mut self, state: SessionState)
        requires
            old(self).wf(),
        ensures
            final(self).wf(),
            final(self).current() == Some(state),
            match old(self).current() {
                Some(s) => final(self).previous() == archived_with(old(self).previous(), s),
                None => final(self).previous() == old(self).previous(),
            },
    {
        let _ = self.archive_current_state();
        self.current_session = Some(state);
    }

    /// The version of the current session.
    pub fn session_version(&self) -> (r: Result<u32>)
        ensures
            match self.current() {
                Some(s) => r == Ok::<u32, SignalProtocolError>(s.session_version),
                None => r == Err::<u32, _>(SignalProtocolError::SessionNotFound),
            },
    {
        match &self.current_session {
            Some(s) => Ok(s.session_version),
            None => Err(SignalProtocolError::SessionNotFound),
        }
    }

    /// The registration id of the remote party in the current session.
    pub fn remote_registration_id(&self) -> (r: Result<u32>)
        ensures
            match self.current() {
                Some(s) => r == Ok::<u32, SignalProtocolError>(s.remote_registration_id),
                None => r == Err::<u32, _>(SignalProtocolError::SessionNotFound),
            },
    {
        match &self.current_session {
            Some(s) => Ok(s.remote_registration_id),
            None => Err(SignalProtocolError::SessionNotFound),
        }
    }

    /// Our registration id in the current session.
    pub fn local_registration_id(&self) -> (r: Result<u32>)
        ensures
            match self.current() {
                Some(s) => r == Ok::<u32, SignalProtocolError>(s.local_registration_id),
                None => r == Err::<u32, _>(SignalProtocolError::SessionNotFound),
            },
    {
        match &self.current_session {
            Some(s) => Ok(s.local_registration_id),
            None => Err(SignalProtocolError::SessionNotFound),
        }
    }

    /// The serialized form of our identity key in the current session.
    pub fn local_identity_key_bytes(&self) -> (r: Result<Vec<u8>>)
        ensures
            match self.current() {
                Some(s) => r matches Ok(b) && b@ == serialized_public_key(s.local_identity_key@),
                None => r == Err::<Vec<u8>, _>(SignalProtocolError::SessionNotFound),
            },
    {
        match &self.current_session {
            Some(s) => Ok(s.local_identity_key.serialize()),
            None => Err(SignalProtocolError::SessionNotFound),
        }
    }

    /// The serialized form of the remote identity key in the current
    /// session, if it is known.
    pub fn remote_identity_key_bytes(&self) -> (r: Result<Option<Vec<u8>>>)
        ensures
            match self.current() {
                Some(s) => match s.remote_identity_key {
                    Some(k) => r matches Ok(Some(b)) && b@ == serialized_public_key(k@),
                    None => r matches Ok(None),
                },
                None => r == Err::<Option<Vec<u8>>, _>(SignalProtocolError::SessionNotFound),
            },
    {
        match &self.current_session {
            Some(s) => match &s.remote_identity_key {
                Some(k) => Ok(Some(k.serialize())),
                None => Ok(None),
            },
            None => Err(SignalProtocolError::SessionNotFound),
        }
    }

    /// The key of the receiving chain that belongs to `sender` in the
    /// current session, if there is one.
    pub fn get_receiver_chain_key(&self, sender: &PublicKey) -> (r: Result<Option<Vec<u8>>>)
        ensures
            match self.current() {
                Some(s) => {
                    &&& r is Ok
                    &&& (r matches Ok(None)) <==> !has_chain_before(
                        s.receiver_chains@,
                        sender@,
                        s.receiver_chains@.len() as int,
                    )
                    &&& r matches Ok(Some(b)) ==> exists|i: int|
                        0 <= i < s.receiver_chains@.len()
                            && s.receiver_chains@[i].sender_ratchet_key@ == sender@
                            && !has_chain_before(s.receiver_chains@, sender@, i) && b@
                            == s.receiver_chains@[i].chain_key.key@
                },
                None => r == Err::<Option<Vec<u8>>, _>(SignalProtocolError::SessionNotFound),
            },
    {
        match &self.current_session {
            Some(s) => match s.get_receiver_chain_key(sender) {
                Some(c) => {
                    let mut out: Vec<u8> = Vec::new();
                    crate::curve::push_all(&mut out, &c.key);
                    assert(out@ =~= c.key@);
                    Ok(Some(out))
                },
                None => Ok(None),
            },
            None => Err(SignalProtocolError::SessionNotFound),
        }
    }

    /// Whether the current session has a sending chain.
    pub fn has_sender_chain(&self) -> (r: Result<bool>)
        ensures
            match self.current() {
                Some(s) => r == Ok::<bool, SignalProtocolError>(s.sender_chain is Some),
                None => r == Err::<bool, _>(SignalProtocolError::SessionNotFound),
            },
    {
        match &self.current_session {
            Some(s) => Ok(s.sender_chain.is_some()),
            None => Err(SignalProtocolError::SessionNotFound),
        }
    }

    /// The serialized base key that the initiator used for the current
    /// session.
    pub fn alice_base_key(&self) -> (r: Result<Vec<u8>>)
        ensures
            match self.current() {
                Some(s) => r matches Ok(b) && b@ == serialized_public_key(s.alice_base_key@),
                None => r == Err::<Vec<u8>, _>(SignalProtocolError::SessionNotFound),
            },
    {
        match &self.current_session {
            Some(s) => Ok(s.alice_base_key.serialize()),
            None => Err(SignalProtocolError::SessionNotFound),
        }
    }

    /// The key of the sending chain of the current session.
    pub fn get_sender_chain_key_bytes(&self) -> (r: Result<Vec<u8>>)
        ensures
            match self.current() {
                Some(s) => match s.sender_chain {
                    Some(c) => r matches Ok(b) && b@ == c.chain_key.key@,
                    None => r == Err::<Vec<u8>, _>(SignalProtocolError::SessionNotFound),
                },
                None => r == Err::<Vec<u8>, _>(SignalProtocolError::SessionNotFound),
            },
    {
        match &self.current_session {
            Some(s) => match &s.sender_chain {
                Some(c) => {
                    let mut out: Vec<u8> = Vec::new();
                    crate::curve::push_all(&mut out, &c.chain_key.key);
                    assert(out@ =~= c.chain_key.key@);
                    Ok(out)
                },
                None => Err(SignalProtocolError::SessionNotFound),
            },
            None => Err(SignalProtocolError::SessionNotFound),
        }
    }
}

} // verus!
