use vstd::prelude::*;

use crate::codec::{
    copy_vec, push_u32, read_u32, slice_to_vec, u32_be, valid_version, CURRENT_MESSAGE_VERSION,
    MIN_MESSAGE_VERSION,
};
use crate::curve::{copy_bytes, push_all, serialized_public_key, PublicKey, DJB_TYPE};
use crate::error::{Result, SignalProtocolError};
use crate::identity_key::IdentityKey;
use crate::uuid::MyUuid;
use crate::mac::{hmac_sha256, hmac_sha256_tag};

verus! {

/// Type code of an ordinary ratchet message.
pub const WHISPER_TYPE: u8 = 2;

/// Type code of a prekey (session bootstrap) message.
pub const PREKEY_TYPE: u8 = 3;

/// Type code of a group sender-key message.
pub const SENDERKEY_TYPE: u8 = 4;

/// Type code of a sender-key distribution message.
pub const SENDERKEY_DISTRIBUTION_TYPE: u8 = 5;

/// Length of the MAC that ends a ratchet message.
pub const MAC_LEN: usize = 8;

/// Length of the signature that ends a sender-key message.
pub const SIGNATURE_LEN: usize = 64;

/// The kinds of protocol message.
#[derive(Debug, Clone, Copy, PartialEq, Eq, Structural)]
pub enum CiphertextMessageType {
    Whisper,
    PreKey,
    SenderKey,
    SenderKeyDistribution,
}

impl CiphertextMessageType {
    /// The wire code of the kind.
    pub open spec fn spec_code(self) -> u8 {
        match self {
            CiphertextMessageType::Whisper => WHISPER_TYPE,
            CiphertextMessageType::PreKey => PREKEY_TYPE,
            CiphertextMessageType::SenderKey => SENDERKEY_TYPE,
            CiphertextMessageType::SenderKeyDistribution => SENDERKEY_DISTRIBUTION_TYPE,
        }
    }

    /// The kind with wire code `c`, if there is one.
    pub open spec fn spec_from_code(c: u8) -> Option<CiphertextMessageType> {
        if c == WHISPER_TYPE {
            Some(CiphertextMessageType::Whisper)
        } else if c == PREKEY_TYPE {
            Some(CiphertextMessageType::PreKey)
        } else if c == SENDERKEY_TYPE {
            Some(CiphertextMessageType::SenderKey)
        } else if c == SENDERKEY_DISTRIBUTION_TYPE {
            Some(CiphertextMessageType::SenderKeyDistribution)
        } else {
            None
        }
    }

    /// The wire code of the kind.
    pub fn code(self) -> (r: u8)
        ensures
            r == self.spec_code(),
    {
        match self {
            CiphertextMessageType::Whisper => WHISPER_TYPE,
            CiphertextMessageType::PreKey => PREKEY_TYPE,
            CiphertextMessageType::SenderKey => SENDERKEY_TYPE,
            CiphertextMessageType::SenderKeyDistribution => SENDERKEY_DISTRIBUTION_TYPE,
        }
    }

    /// The kind with wire code `c`; any other code is refused.
    pub fn from_code(c: u8) -> (r: Result<CiphertextMessageType>)
        ensures
            match Self::spec_from_code(c) {
                Some(t) => r == Ok::<_, SignalProtocolError>(t),
                None => r == Err::<CiphertextMessageType, _>(
                    SignalProtocolError::UnrecognizedMessageType(c),
                ),
            },
    {
        if c == WHISPER_TYPE {
            Ok(CiphertextMessageType::Whisper)
        } else if c == PREKEY_TYPE {
            Ok(CiphertextMessageType::PreKey)
        } else if c == SENDERKEY_TYPE {
            Ok(CiphertextMessageType::SenderKey)
        } else if c == SENDERKEY_DISTRIBUTION_TYPE {
            Ok(CiphertextMessageType::SenderKeyDistribution)
        } else {
            Err(SignalProtocolError::UnrecognizedMessageType(c))
        }
    }
}

/// Checks the type byte and the version byte that open every message.
fn check_header(data: &[u8], type_code: u8) -> (r: Result<()>)
    ensures
        data@.len() < 2 ==> r == Err::<(), _>(SignalProtocolError::InvalidMessage),
        data@.len() >= 2 && data@[0] != type_code ==> r == Err::<(), _>(
            SignalProtocolError::UnrecognizedMessageType(data@[0]),
        ),
        data@.len() >= 2 && data@[0] == type_code && !valid_version(data@[1]) ==> r == Err::<
            (),
            _,
        >(SignalProtocolError::UnknownMessageVersion(data@[1])),
        data@.len() >= 2 && data@[0] == type_code && valid_version(data@[1]) ==> r is Ok,
{
    if data.len() < 2 {
        return Err(SignalProtocolError::InvalidMessage);
    }
    if data[0] != type_code {
        return Err(SignalProtocolError::UnrecognizedMessageType(data[0]));
    }
    if data[1] < MIN_MESSAGE_VERSION || data[1] > CURRENT_MESSAGE_VERSION {
        return Err(SignalProtocolError::UnknownMessageVersion(data[1]));
    }
    Ok(())
}

/// An ordinary ratchet message: the sender's current ratchet key, the
/// message's position in its chain, the encrypted body and its MAC.
#[derive(Debug, Clone)]
pub struct SignalMessage {
    pub message_version: u8,
    pub sender_ratchet_key: PublicKey,
    pub counter: u32,
    pub previous_counter: u32,
    pub ciphertext: Vec<u8>,
    pub mac: [u8; 8],
}

/// The MAC of a ratchet message: the first 8 bytes of the HMAC-SHA256 tag
/// under `mac_key` of the sender's and receiver's serialized identity keys
/// followed by the message without its MAC.
pub open spec fn mac_of(mac_key: Seq<u8>, sender: Seq<u8>, receiver: Seq<u8>, body: Seq<u8>) -> Seq<
    u8,
> {
    hmac_sha256(mac_key, serialized_public_key(sender) + serialized_public_key(receiver) + body).take(
        MAC_LEN as int,
    )
}

/// Length of everything in a serialized ratchet message but its body.
pub const SIGNAL_MESSAGE_OVERHEAD: usize = 51;

impl SignalMessage {
    /// Well-formed: the version is one that the codec accepts.
    pub open spec fn wf(&self) -> bool {
        valid_version(self.message_version)
    }

    /// The wire form: type, version, ratchet key, counters, body, MAC.
    pub open spec fn spec_serialize(&self) -> Seq<u8> {
        seq![WHISPER_TYPE, self.message_version] + serialized_public_key(
            self.sender_ratchet_key@,
        ) + u32_be(self.counter) + u32_be(self.previous_counter) + self.ciphertext@
            + self.mac@
    }

    /// The wire form without its MAC.
    pub open spec fn spec_serialize_without_mac(&self) -> Seq<u8> {
        seq![WHISPER_TYPE, self.message_version] + serialized_public_key(
            self.sender_ratchet_key@,
        ) + u32_be(self.counter) + u32_be(self.previous_counter) + self.ciphertext@
    }

    /// Builds a message from its parts, with any version; its MAC is the
    /// first 8 bytes of the HMAC-SHA256 tag under `mac_key` of the sender's
    /// and the receiver's serialized identity keys followed by the message
    /// without its MAC.
    pub fn new(
        message_version: u8,
        mac_key: &[u8],
        sender_ratchet_key: PublicKey,
        counter: u32,
        previous_counter: u32,
        ciphertext: &[u8],
        sender_identity_key: &IdentityKey,
        receiver_identity_key: &IdentityKey,
    ) -> (r: Result<SignalMessage>)
        ensures
            r matches Ok(m) && m.message_version == message_version && m.sender_ratchet_key@
                == sender_ratchet_key@ && m.counter == counter && m.previous_counter
                == previous_counter && m.ciphertext@ == ciphertext@ && m.mac@ == mac_of(
                mac_key@,
                sender_identity_key@,
                receiver_identity_key@,
                m.spec_serialize_without_mac(),
            ),
    {
        let body = slice_to_vec(ciphertext, 0, ciphertext.len());
        assert(ciphertext@.subrange(0, ciphertext@.len() as int) =~= ciphertext@);
        let mut m = SignalMessage {
            message_version,
            sender_ratchet_key,
            counter,
            previous_counter,
            ciphertext: body,
            mac: [0u8; 8],
        };
        let mac = m.compute_mac(sender_identity_key, receiver_identity_key, mac_key);
        m.mac = mac;
        Ok(m)
    }

    /// The MAC that this message should carry under `mac_key` between the
    /// two identities.
    fn compute_mac(&self, sender_identity_key: &IdentityKey, receiver_identity_key: &IdentityKey, mac_key: &[u8]) -> (r: [u8; 8])
        ensures
            r@ == mac_of(
                mac_key@,
                sender_identity_key@,
                receiver_identity_key@,
                self.spec_serialize_without_mac(),
            ),
    {
        let mut input: Vec<u8> = Vec::new();
        let sender = sender_identity_key.serialize();
        push_all(&mut input, sender.as_slice());
        let receiver = receiver_identity_key.serialize();
        push_all(&mut input, receiver.as_slice());
        let mut whole = self.serialized();
        let n: usize = whole.len();
        whole.truncate(n - MAC_LEN);
        assert(whole@ =~= self.spec_serialize_without_mac());
        push_all(&mut input, whole.as_slice());
        let tag = hmac_sha256_tag(mac_key, input.as_slice());
        let r = copy_bytes::<8>(&tag, 0);
        assert(r@ =~= tag@.take(8));
        r
    }

    /// Whether the message's MAC is the one that `mac_key` gives between
    /// the two identities.
    pub fn verify_mac(
        &self,
        sender_identity_key: &IdentityKey,
        receiver_identity_key: &IdentityKey,
        mac_key: &[u8],
    ) -> (r: Result<bool>)
        ensures
            r == Ok::<bool, SignalProtocolError>(self.mac@ == mac_of(
                mac_key@,
                sender_identity_key@,
                receiver_identity_key@,
                self.spec_serialize_without_mac(),
            )),
    {
        let expected = self.compute_mac(sender_identity_key, receiver_identity_key, mac_key);
        let mut i: usize = 0;
        while i < MAC_LEN
            invariant
                i <= MAC_LEN,
                self.mac@.len() == MAC_LEN,
                expected@.len() == MAC_LEN,
                expected@ == mac_of(
                    mac_key@,
                    sender_identity_key@,
                    receiver_identity_key@,
                    self.spec_serialize_without_mac(),
                ),
                forall|j: int| 0 <= j < i ==> self.mac@[j] == expected@[j],
            decreases MAC_LEN - i,
        {
            if self.mac[i] != expected[i] {
                assert(self.mac@[i as int] != expected@[i as int]);
                assert(self.mac@ != expected@);
                return Ok(false);
            }
            i = i + 1;
        }
        assert(self.mac@ =~= expected@);
        Ok(true)
    }

    /// The message version.
    pub fn message_version(&self) -> (r: u8)
        ensures
            r == self.message_version,
    {
        self.message_version
    }

    /// The sender's ratchet key.
    pub fn sender_ratchet_key(&self) -> (r: PublicKey)
        ensures
            r@ == self.sender_ratchet_key@,
    {
        self.sender_ratchet_key
    }

    /// The position of the message in its chain.
    pub fn counter(&self) -> (r: u32)
        ensures
            r == self.counter,
    {
        self.counter
    }

    /// The length of the sender's previous chain.
    pub fn previous_counter(&self) -> (r: u32)
        ensures
            r == self.previous_counter,
    {
        self.previous_counter
    }

    /// The encrypted body.
    pub fn body(&self) -> (r: Vec<u8>)
        ensures
            r@ == self.ciphertext@,
    {
        copy_vec(&self.ciphertext)
    }

    /// The wire form of the message.
    pub fn serialized(&self) -> (r: Vec<u8>)
        ensures
            r@ == self.spec_serialize(),
    {
        let mut out: Vec<u8> = Vec::new();
        out.push(WHISPER_TYPE);
        out.push(self.message_version);
        let key = self.sender_ratchet_key.serialize();
        push_all(&mut out, key.as_slice());
        push_u32(&mut out, self.counter);
        push_u32(&mut out, self.previous_counter);
        push_all(&mut out, self.ciphertext.as_slice());
        push_all(&mut out, &self.mac);
        assert(out@ =~= self.spec_serialize());
        out
    }

    /// Reads a message from its wire form.
    pub fn try_from(data: &[u8]) -> (r: Result<SignalMessage>)
        ensures
            data@.len() < 2 ==> r == Err::<SignalMessage, _>(SignalProtocolError::InvalidMessage),
            data@.len() >= 2 && data@[0] != WHISPER_TYPE ==> r == Err::<SignalMessage, _>(
                SignalProtocolError::UnrecognizedMessageType(data@[0]),
            ),
            data@.len() >= 2 && data@[0] == WHISPER_TYPE && !valid_version(data@[1]) ==> r
                == Err::<SignalMessage, _>(SignalProtocolError::UnknownMessageVersion(data@[1])),
            data@.len() >= 2 && data@[0] == WHISPER_TYPE && valid_version(data@[1]) ==> (r is Ok
                || r == Err::<SignalMessage, _>(SignalProtocolError::InvalidMessage)),
            r matches Ok(m) ==> m.wf() && m.spec_serialize() == data@,
            r matches Err(e) ==> (e == SignalProtocolError::InvalidMessage
                || e == SignalProtocolError::UnrecognizedMessageType(data@[0])
                || e == SignalProtocolError::UnknownMessageVersion(data@[1])),
            (exists|m: SignalMessage| m.wf() && m.spec_serialize() == data@) ==> r is Ok,
    {
        check_header(data, WHISPER_TYPE)?;
        let n: usize = data.len();
        if n < SIGNAL_MESSAGE_OVERHEAD {
            assert forall|m: SignalMessage| m.wf() && m.spec_serialize() == data@ implies false by {
                assert(m.spec_serialize().len() >= SIGNAL_MESSAGE_OVERHEAD);
            }
            return Err(SignalProtocolError::InvalidMessage);
        }
        if data[2] != DJB_TYPE {
            assert forall|m: SignalMessage| m.wf() && m.spec_serialize() == data@ implies false by {
                assert(m.spec_serialize()[2] == DJB_TYPE);
            }
            return Err(SignalProtocolError::InvalidMessage);
        }
        let key = copy_bytes::<32>(data, 3);
        let counter: u32 = read_u32(data, 35);
        let previous_counter: u32 = read_u32(data, 39);
        let ciphertext = slice_to_vec(data, 43, n - MAC_LEN);
        let mac = copy_bytes::<8>(data, n - MAC_LEN);
        let m = SignalMessage {
            message_version: data[1],
            sender_ratchet_key: PublicKey { key },
            counter,
            previous_counter,
            ciphertext,
            mac,
        };
        assert(m.spec_serialize() =~= data@);
        Ok(m)
    }

    /// A copy of the message.
    pub fn copy(&self) -> (r: SignalMessage)
        ensures
            r.message_version == self.message_version,
            r.sender_ratchet_key@ == self.sender_ratchet_key@,
            r.counter == self.counter,
            r.previous_counter == self.previous_counter,
            r.ciphertext@ == self.ciphertext@,
            r.mac@ == self.mac@,
    {
        SignalMessage {
            message_version: self.message_version,
            sender_ratchet_key: self.sender_ratchet_key,
            counter: self.counter,
            previous_counter: self.previous_counter,
            ciphertext: copy_vec(&self.ciphertext),
            mac: self.mac,
        }
    }
}

/// The wire form of an optional prekey id: a flag byte, then four bytes
/// (zero when there is no id).
pub open spec fn optional_id_bytes(id: Option<u32>) -> Seq<u8> {
    match id {
        Some(x) => seq![1u8] + u32_be(x),
        None => seq![0u8, 0u8, 0u8, 0u8, 0u8],
    }
}

/// Length of everything in a serialized prekey message but the inner
/// ratchet message.
pub const PREKEY_MESSAGE_OVERHEAD: usize = 81;

/// The first message of a session: the keys that let the responder
/// bootstrap the session, around an ordinary ratchet message.
#[derive(Debug, Clone)]
pub struct PreKeySignalMessage {
    pub message_version: u8,
    pub registration_id: u32,
    pub pre_key_id: Option<u32>,
    pub signed_pre_key_id: u32,
    pub base_key: PublicKey,
    pub identity_key: IdentityKey,
    pub message: SignalMessage,
}

impl PreKeySignalMessage {
    /// Well-formed: both versions are ones that the codec accepts.
    pub open spec fn wf(&self) -> bool {
        valid_version(self.message_version) && self.message.wf()
    }

    /// The wire form: type, version, registration id, optional prekey id,
    /// signed prekey id, base key, identity key, inner message.
    pub open spec fn spec_serialize(&self) -> Seq<u8> {
        seq![PREKEY_TYPE, self.message_version] + u32_be(self.registration_id)
            + optional_id_bytes(self.pre_key_id) + u32_be(self.signed_pre_key_id)
            + serialized_public_key(self.base_key@) + serialized_public_key(self.identity_key@)
            + self.message.spec_serialize()
    }

    /// Builds a message from its parts, with any version.
    pub fn new(
        message_version: u8,
        registration_id: u32,
        pre_key_id: Option<u32>,
        signed_pre_key_id: u32,
        base_key: PublicKey,
        identity_key: IdentityKey,
        message: SignalMessage,
    ) -> (r: Result<PreKeySignalMessage>)
        ensures
            r matches Ok(m) && m.message_version == message_version && m.registration_id
                == registration_id && m.pre_key_id == pre_key_id && m.signed_pre_key_id
                == signed_pre_key_id && m.base_key@ == base_key@ && m.identity_key@
                == identity_key@ && m.message.spec_serialize() == message.spec_serialize()
                && m.message.message_version == message.message_version,
    {
        Ok(PreKeySignalMessage {
            message_version,
            registration_id,
            pre_key_id,
            signed_pre_key_id,
            base_key,
            identity_key,
            message,
        })
    }

    /// The message version.
    pub fn message_version(&self) -> (r: u8)
        ensures
            r == self.message_version,
    {
        self.message_version
    }

    /// The sender's registration id.
    pub fn registration_id(&self) -> (r: u32)
        ensures
            r == self.registration_id,
    {
        self.registration_id
    }

    /// The one-time prekey used, if any.
    pub fn pre_key_id(&self) -> (r: Option<u32>)
        ensures
            r == self.pre_key_id,
    {
        self.pre_key_id
    }

    /// The signed prekey used.
    pub fn signed_pre_key_id(&self) -> (r: u32)
        ensures
            r == self.signed_pre_key_id,
    {
        self.signed_pre_key_id
    }

    /// The sender's base key.
    pub fn base_key(&self) -> (r: PublicKey)
        ensures
            r@ == self.base_key@,
    {
        self.base_key
    }

    /// The sender's identity key.
    pub fn identity_key(&self) -> (r: IdentityKey)
        ensures
            r@ == self.identity_key@,
    {
        self.identity_key
    }

    /// The wire form of the message.
    pub fn serialized(&self) -> (r: Vec<u8>)
        ensures
            r@ == self.spec_serialize(),
    {
        let mut out: Vec<u8> = Vec::new();
        out.push(PREKEY_TYPE);
        out.push(self.message_version);
        assert(out@ =~= seq![PREKEY_TYPE, self.message_version]);
        push_u32(&mut out, self.registration_id);
        let ghost head = out@;
        match self.pre_key_id {
            Some(id) => {
                out.push(1u8);
                push_u32(&mut out, id);
            },
            None => {
                out.push(0u8);
                push_u32(&mut out, 0u32);
                proof {
                    crate::codec::lemma_u32_be_zero();
                }
            },
        }
        assert(out@ =~= head + optional_id_bytes(self.pre_key_id));
        push_u32(&mut out, self.signed_pre_key_id);
        let base = self.base_key.serialize();
        push_all(&mut out, base.as_slice());
        let identity = self.identity_key.serialize();
        push_all(&mut out, identity.as_slice());
        let inner = self.message.serialized();
        push_all(&mut out, inner.as_slice());
        assert(out@ == self.spec_serialize());
        out
    }

    /// Reads a message from its wire form.
    pub fn try_from(data: &[u8]) -> (r: Result<PreKeySignalMessage>)
        ensures
            data@.len() < 2 ==> r == Err::<PreKeySignalMessage, _>(
                SignalProtocolError::InvalidMessage,
            ),
            data@.len() >= 2 && data@[0] != PREKEY_TYPE ==> r == Err::<PreKeySignalMessage, _>(
                SignalProtocolError::UnrecognizedMessageType(data@[0]),
            ),
            data@.len() >= 2 && data@[0] == PREKEY_TYPE && !valid_version(data@[1]) ==> r
                == Err::<PreKeySignalMessage, _>(
                SignalProtocolError::UnknownMessageVersion(data@[1]),
            ),
            data@.len() >= 2 && data@[0] == PREKEY_TYPE && valid_version(data@[1]) ==> (r is Ok
                || r == Err::<PreKeySignalMessage, _>(SignalProtocolError::InvalidMessage)),
            r matches Ok(m) ==> m.wf() && m.spec_serialize() == data@,
            r matches Err(e) ==> (e == SignalProtocolError::InvalidMessage
                || e == SignalProtocolError::UnrecognizedMessageType(data@[0])
                || e == SignalProtocolError::UnknownMessageVersion(data@[1])),
            (exists|m: PreKeySignalMessage| m.wf() && m.spec_serialize() == data@) ==> r is Ok,
    {
        check_header(data, PREKEY_TYPE)?;
        let n: usize = data.len();
        if n < PREKEY_MESSAGE_OVERHEAD {
            assert forall|m: PreKeySignalMessage| m.wf() && m.spec_serialize() == data@ implies false by {
                assert(m.spec_serialize().len() >= PREKEY_MESSAGE_OVERHEAD);
            }
            return Err(SignalProtocolError::InvalidMessage);
        }
        let registration_id: u32 = read_u32(data, 2);
        let flag: u8 = data[6];
        let id: u32 = read_u32(data, 7);
        if !(flag == 1 || (flag == 0 && id == 0)) {
            assert forall|m: PreKeySignalMessage| m.wf() && m.spec_serialize() == data@ implies false by {
                let s = m.spec_serialize();
                assert(s.subrange(6, 11) =~= optional_id_bytes(m.pre_key_id));
                assert(data@.subrange(7, 11) =~= s.subrange(7, 11));
                if m.pre_key_id is None {
                    crate::codec::lemma_u32_be_zero();
                    assert(u32_be(id) =~= u32_be(0u32));
                    crate::codec::lemma_u32_be_injective(id, 0u32);
                }
            }
            return Err(SignalProtocolError::InvalidMessage);
        }
        let pre_key_id: Option<u32> = if flag == 1 {
            Some(id)
        } else {
            None
        };
        let signed_pre_key_id: u32 = read_u32(data, 11);
        if data[15] != DJB_TYPE || data[48] != DJB_TYPE {
            assert forall|m: PreKeySignalMessage| m.wf() && m.spec_serialize() == data@ implies false by {
                assert(m.spec_serialize()[15] == DJB_TYPE);
                assert(m.spec_serialize()[48] == DJB_TYPE);
            }
            return Err(SignalProtocolError::InvalidMessage);
        }
        let base = copy_bytes::<32>(data, 16);
        let identity = copy_bytes::<32>(data, 49);
        let rest = slice_to_vec(data, PREKEY_MESSAGE_OVERHEAD, n);
        let inner = match SignalMessage::try_from(rest.as_slice()) {
            Ok(inner) => inner,
            Err(_) => {
                assert forall|m: PreKeySignalMessage| m.wf() && m.spec_serialize() == data@ implies false by {
                    assert(m.message.spec_serialize() =~= rest@);
                }
                return Err(SignalProtocolError::InvalidMessage);
            },
        };
        let m = PreKeySignalMessage {
            message_version: data[1],
            registration_id,
            pre_key_id,
            signed_pre_key_id,
            base_key: PublicKey { key: base },
            identity_key: IdentityKey { key: PublicKey { key: identity } },
            message: inner,
        };
        assert(data@.subrange(6, 11) =~= optional_id_bytes(pre_key_id)) by {
            if flag == 0 {
                crate::codec::lemma_u32_be_zero();
            }
        }
        assert(m.spec_serialize() =~= data@);
        Ok(m)
    }

    /// The inner ratchet message.
    pub fn message(&self) -> (r: SignalMessage)
        ensures
            r.spec_serialize() == self.message.spec_serialize(),
            r.wf() == self.message.wf(),
    {
        self.message.copy()
    }
}

/// Length of everything in a serialized sender-key message but its body.
pub const SENDERKEY_MESSAGE_OVERHEAD: usize = 90;

/// A group message: the distribution and chain it belongs to, its
/// iteration in that chain, the encrypted body and the sender's signature.
#[derive(Debug, Clone)]
pub struct SenderKeyMessage {
    pub message_version: u8,
    pub distribution_id: [u8; 16],
    pub chain_id: u32,
    pub iteration: u32,
    pub ciphertext: Vec<u8>,
    pub signature: [u8; 64],
}

impl SenderKeyMessage {
    /// Well-formed: the version is one that the codec accepts.
    pub open spec fn wf(&self) -> bool {
        valid_version(self.message_version)
    }

    /// The wire form: type, version, distribution id, chain id, iteration,
    /// body, signature.
    pub open spec fn spec_serialize(&self) -> Seq<u8> {
        seq![SENDERKEY_TYPE, self.message_version] + self.distribution_id@ + u32_be(
            self.chain_id,
        ) + u32_be(self.iteration) + self.ciphertext@ + self.signature@
    }

    /// Builds a message from its parts, with any version; the signature
    /// must be 64 bytes.
    pub fn new(
        message_version: u8,
        distribution_id: MyUuid,
        chain_id: u32,
        iteration: u32,
        ciphertext: &[u8],
        signature: &[u8],
    ) -> (r: Result<SenderKeyMessage>)
        ensures
            signature@.len() != SIGNATURE_LEN ==> r == Err::<SenderKeyMessage, _>(
                SignalProtocolError::InvalidArgument,
            ),
            signature@.len() == SIGNATURE_LEN ==> (r matches Ok(m) && m.message_version == message_version && m.distribution_id@
                == distribution_id@ && m.chain_id == chain_id && m.iteration == iteration
                && m.ciphertext@ == ciphertext@ && m.signature@ == signature@),
    {
        if signature.len() != SIGNATURE_LEN {
            return Err(SignalProtocolError::InvalidArgument);
        }
        let sig = copy_bytes::<64>(signature, 0);
        assert(signature@.subrange(0, 64) =~= signature@);
        let body = slice_to_vec(ciphertext, 0, ciphertext.len());
        assert(ciphertext@.subrange(0, ciphertext@.len() as int) =~= ciphertext@);
        Ok(SenderKeyMessage {
            message_version,
            distribution_id: distribution_id.bytes,
            chain_id,
            iteration,
            ciphertext: body,
            signature: sig,
        })
    }

    /// The message version.
    pub fn message_version(&self) -> (r: u8)
        ensures
            r == self.message_version,
    {
        self.message_version
    }

    /// The id of the chain the message belongs to.
    pub fn key_id(&self) -> (r: u32)
        ensures
            r == self.chain_id,
    {
        self.chain_id
    }

    /// The iteration of the message in its chain.
    pub fn iteration(&self) -> (r: u32)
        ensures
            r == self.iteration,
    {
        self.iteration
    }

    /// The encrypted body.
    pub fn ciphertext(&self) -> (r: Vec<u8>)
        ensures
            r@ == self.ciphertext@,
    {
        copy_vec(&self.ciphertext)
    }

    /// The wire form of the message.
    pub fn serialized(&self) -> (r: Vec<u8>)
        ensures
            r@ == self.spec_serialize(),
    {
        let mut out: Vec<u8> = Vec::new();
        out.push(SENDERKEY_TYPE);
        out.push(self.message_version);
        assert(out@ =~= seq![SENDERKEY_TYPE, self.message_version]);
        push_all(&mut out, &self.distribution_id);
        push_u32(&mut out, self.chain_id);
        push_u32(&mut out, self.iteration);
        push_all(&mut out, self.ciphertext.as_slice());
        push_all(&mut out, &self.signature);
        out
    }

    /// Reads a message from its wire form.
    pub fn try_from(data: &[u8]) -> (r: Result<SenderKeyMessage>)
        ensures
            data@.len() < 2 ==> r == Err::<SenderKeyMessage, _>(
                SignalProtocolError::InvalidMessage,
            ),
            data@.len() >= 2 && data@[0] != SENDERKEY_TYPE ==> r == Err::<SenderKeyMessage, _>(
                SignalProtocolError::UnrecognizedMessageType(data@[0]),
            ),
            data@.len() >= 2 && data@[0] == SENDERKEY_TYPE && !valid_version(data@[1]) ==> r
                == Err::<SenderKeyMessage, _>(
                SignalProtocolError::UnknownMessageVersion(data@[1]),
            ),
            data@.len() >= 2 && data@[0] == SENDERKEY_TYPE && valid_version(data@[1]) ==> (r is Ok
                || r == Err::<SenderKeyMessage, _>(SignalProtocolError::InvalidMessage)),
            r matches Ok(m) ==> m.wf() && m.spec_serialize() == data@,
            r matches Err(e) ==> (e == SignalProtocolError::InvalidMessage
                || e == SignalProtocolError::UnrecognizedMessageType(data@[0])
                || e == SignalProtocolError::UnknownMessageVersion(data@[1])),
            (exists|m: SenderKeyMessage| m.wf() && m.spec_serialize() == data@) ==> r is Ok,
    {
        check_header(data, SENDERKEY_TYPE)?;
        let n: usize = data.len();
        if n < SENDERKEY_MESSAGE_OVERHEAD {
            assert forall|m: SenderKeyMessage| m.wf() && m.spec_serialize() == data@ implies false by {
                assert(m.spec_serialize().len() >= SENDERKEY_MESSAGE_OVERHEAD);
            }
            return Err(SignalProtocolError::InvalidMessage);
        }
        let distribution_id = copy_bytes::<16>(data, 2);
        let chain_id: u32 = read_u32(data, 18);
        let iteration: u32 = read_u32(data, 22);
        let ciphertext = slice_to_vec(data, 26, n - SIGNATURE_LEN);
        let signature = copy_bytes::<64>(data, n - SIGNATURE_LEN);
        let m = SenderKeyMessage {
            message_version: data[1],
            distribution_id,
            chain_id,
            iteration,
            ciphertext,
            signature,
        };
        assert(m.spec_serialize() =~= data@);
        Ok(m)
    }
}

/// Length of a serialized sender-key distribution message.
pub const SENDERKEY_DISTRIBUTION_MESSAGE_LEN: usize = 91;

/// Publishes a sender's group chain to a recipient: the distribution and
/// chain ids, the chain's current iteration and key, and the public key
/// that checks the sender's signatures.
#[derive(Debug, Clone, Copy)]
pub struct SenderKeyDistributionMessage {
    pub message_version: u8,
    pub distribution_id: [u8; 16],
    pub chain_id: u32,
    pub iteration: u32,
    pub chain_key: [u8; 32],
    pub signing_key: PublicKey,
}

impl SenderKeyDistributionMessage {
    /// Well-formed: the version is one that the codec accepts.
    pub open spec fn wf(&self) -> bool {
        valid_version(self.message_version)
    }

    /// The wire form: type, version, distribution id, chain id, iteration,
    /// chain key, signing key.
    pub open spec fn spec_serialize(&self) -> Seq<u8> {
        seq![SENDERKEY_DISTRIBUTION_TYPE, self.message_version] + self.distribution_id@
            + u32_be(self.chain_id) + u32_be(self.iteration) + self.chain_key@
            + serialized_public_key(self.signing_key@)
    }

    /// Builds a message from its parts, with any version; the chain key
    /// must be 32 bytes.
    pub fn new(
        message_version: u8,
        distribution_id: [u8; 16],
        chain_id: u32,
        iteration: u32,
        chain_key: &[u8],
        signing_key: PublicKey,
    ) -> (r: Result<SenderKeyDistributionMessage>)
        ensures
            chain_key@.len() != 32 ==> r == Err::<SenderKeyDistributionMessage, _>(
                SignalProtocolError::InvalidKeyMaterial,
            ),
            chain_key@.len() == 32 ==> (r matches Ok(m) && m.message_version == message_version && m.distribution_id@
                == distribution_id@ && m.chain_id == chain_id && m.iteration == iteration
                && m.chain_key@ == chain_key@ && m.signing_key@ == signing_key@),
    {
        if chain_key.len() != 32 {
            return Err(SignalProtocolError::InvalidKeyMaterial);
        }
        let key = copy_bytes::<32>(chain_key, 0);
        assert(chain_key@.subrange(0, 32) =~= chain_key@);
        Ok(SenderKeyDistributionMessage {
            message_version,
            distribution_id,
            chain_id,
            iteration,
            chain_key: key,
            signing_key,
        })
    }

    /// The message version.
    pub fn message_version(&self) -> (r: u8)
        ensures
            r == self.message_version,
    {
        self.message_version
    }

    /// The id of the published chain.
    pub fn id(&self) -> (r: u32)
        ensures
            r == self.chain_id,
    {
        self.chain_id
    }

    /// The current iteration of the chain.
    pub fn iteration(&self) -> (r: u32)
        ensures
            r == self.iteration,
    {
        self.iteration
    }

    /// The current chain key.
    pub fn chain_key(&self) -> (r: Vec<u8>)
        ensures
            r@ == self.chain_key@,
    {
        let mut out: Vec<u8> = Vec::new();
        push_all(&mut out, &self.chain_key);
        assert(out@ =~= self.chain_key@);
        out
    }

    /// The key that checks the sender's signatures.
    pub fn signing_key(&self) -> (r: PublicKey)
        ensures
            r@ == self.signing_key@,
    {
        self.signing_key
    }

    /// The wire form of the message.
    pub fn serialized(&self) -> (r: Vec<u8>)
        ensures
            r@ == self.spec_serialize(),
    {
        let mut out: Vec<u8> = Vec::new();
        out.push(SENDERKEY_DISTRIBUTION_TYPE);
        out.push(self.message_version);
        assert(out@ =~= seq![SENDERKEY_DISTRIBUTION_TYPE, self.message_version]);
        push_all(&mut out, &self.distribution_id);
        push_u32(&mut out, self.chain_id);
        push_u32(&mut out, self.iteration);
        push_all(&mut out, &self.chain_key);
        let key = self.signing_key.serialize();
        push_all(&mut out, key.as_slice());
        out
    }

    /// Reads a message from its wire form.
    pub fn try_from(data: &[u8]) -> (r: Result<SenderKeyDistributionMessage>)
        ensures
            data@.len() < 2 ==> r == Err::<SenderKeyDistributionMessage, _>(
                SignalProtocolError::InvalidMessage,
            ),
            data@.len() >= 2 && data@[0] != SENDERKEY_DISTRIBUTION_TYPE ==> r == Err::<
                SenderKeyDistributionMessage,
                _,
            >(SignalProtocolError::UnrecognizedMessageType(data@[0])),
            data@.len() >= 2 && data@[0] == SENDERKEY_DISTRIBUTION_TYPE && !valid_version(
                data@[1],
            ) ==> r == Err::<SenderKeyDistributionMessage, _>(
                SignalProtocolError::UnknownMessageVersion(data@[1]),
            ),
            data@.len() >= 2 && data@[0] == SENDERKEY_DISTRIBUTION_TYPE && valid_version(data@[1]) ==> (r is Ok
                || r == Err::<SenderKeyDistributionMessage, _>(SignalProtocolError::InvalidMessage)),
            r matches Ok(m) ==> m.wf() && m.spec_serialize() == data@,
            r matches Err(e) ==> (e == SignalProtocolError::InvalidMessage
                || e == SignalProtocolError::UnrecognizedMessageType(data@[0])
                || e == SignalProtocolError::UnknownMessageVersion(data@[1])),
            (exists|m: SenderKeyDistributionMessage| m.wf() && m.spec_serialize() == data@) ==> r is Ok,
    {
        check_header(data, SENDERKEY_DISTRIBUTION_TYPE)?;
        let n: usize = data.len();
        if n != SENDERKEY_DISTRIBUTION_MESSAGE_LEN || data[58] != DJB_TYPE {
            assert forall|m: SenderKeyDistributionMessage|
                m.wf() && m.spec_serialize() == data@ implies false by {
                assert(m.spec_serialize().len() == SENDERKEY_DISTRIBUTION_MESSAGE_LEN);
                assert(m.spec_serialize()[58] == DJB_TYPE);
            }
            return Err(SignalProtocolError::InvalidMessage);
        }
        let distribution_id = copy_bytes::<16>(data, 2);
        let chain_id: u32 = read_u32(data, 18);
        let iteration: u32 = read_u32(data, 22);
        let chain_key = copy_bytes::<32>(data, 26);
        let signing_key = copy_bytes::<32>(data, 59);
        let m = SenderKeyDistributionMessage {
            message_version: data[1],
            distribution_id,
            chain_id,
            iteration,
            chain_key,
            signing_key: PublicKey { key: signing_key },
        };
        assert(m.spec_serialize() =~= data@);
        Ok(m)
    }
}

/// A protocol message of any of the four kinds.
#[derive(Debug, Clone)]
pub enum CiphertextMessage {
    SignalMessage(SignalMessage),
    PreKeySignalMessage(PreKeySignalMessage),
    SenderKeyMessage(SenderKeyMessage),
    SenderKeyDistributionMessage(SenderKeyDistributionMessage),
}

impl CiphertextMessage {
    /// Well-formed: the message inside is.
    pub open spec fn wf(&self) -> bool {
        match self {
            CiphertextMessage::SignalMessage(m) => m.wf(),
            CiphertextMessage::PreKeySignalMessage(m) => m.wf(),
            CiphertextMessage::SenderKeyMessage(m) => m.wf(),
            CiphertextMessage::SenderKeyDistributionMessage(m) => m.wf(),
        }
    }

    /// The kind of the message.
    pub open spec fn spec_message_type(&self) -> CiphertextMessageType {
        match self {
            CiphertextMessage::SignalMessage(_) => CiphertextMessageType::Whisper,
            CiphertextMessage::PreKeySignalMessage(_) => CiphertextMessageType::PreKey,
            CiphertextMessage::SenderKeyMessage(_) => CiphertextMessageType::SenderKey,
            CiphertextMessage::SenderKeyDistributionMessage(
                _,
            ) => CiphertextMessageType::SenderKeyDistribution,
        }
    }

    /// The wire form of the message inside.
    pub open spec fn spec_serialize(&self) -> Seq<u8> {
        match self {
            CiphertextMessage::SignalMessage(m) => m.spec_serialize(),
            CiphertextMessage::PreKeySignalMessage(m) => m.spec_serialize(),
            CiphertextMessage::SenderKeyMessage(m) => m.spec_serialize(),
            CiphertextMessage::SenderKeyDistributionMessage(m) => m.spec_serialize(),
        }
    }

    /// The kind of the message.
    pub fn message_type(&self) -> (r: CiphertextMessageType)
        ensures
            r == self.spec_message_type(),
    {
        match self {
            CiphertextMessage::SignalMessage(_) => CiphertextMessageType::Whisper,
            CiphertextMessage::PreKeySignalMessage(_) => CiphertextMessageType::PreKey,
            CiphertextMessage::SenderKeyMessage(_) => CiphertextMessageType::SenderKey,
            CiphertextMessage::SenderKeyDistributionMessage(
                _,
            ) => CiphertextMessageType::SenderKeyDistribution,
        }
    }

    /// The wire form of the message inside.
    pub fn serialize(&self) -> (r: Vec<u8>)
        ensures
            r@ == self.spec_serialize(),
    {
        match self {
            CiphertextMessage::SignalMessage(m) => m.serialized(),
            CiphertextMessage::PreKeySignalMessage(m) => m.serialized(),
            CiphertextMessage::SenderKeyMessage(m) => m.serialized(),
            CiphertextMessage::SenderKeyDistributionMessage(m) => m.serialized(),
        }
    }

    /// Reads a message of any kind, by the type code in its first byte.
    pub fn deserialize(data: &[u8]) -> (r: Result<CiphertextMessage>)
        ensures
            data@.len() < 2 ==> r == Err::<CiphertextMessage, _>(
                SignalProtocolError::InvalidMessage,
            ),
            data@.len() >= 2 && CiphertextMessageType::spec_from_code(data@[0]) is None ==> r
                == Err::<CiphertextMessage, _>(
                SignalProtocolError::UnrecognizedMessageType(data@[0]),
            ),
            data@.len() >= 2 && CiphertextMessageType::spec_from_code(data@[0]) is Some
                && !valid_version(data@[1]) ==> r == Err::<CiphertextMessage, _>(
                SignalProtocolError::UnknownMessageVersion(data@[1]),
            ),
            data@.len() >= 2 && CiphertextMessageType::spec_from_code(data@[0]) is Some
                && valid_version(data@[1]) ==> (r is Ok || r == Err::<CiphertextMessage, _>(
                SignalProtocolError::InvalidMessage,
            )),
            r matches Ok(m) ==> m.wf() && m.spec_serialize() == data@
                && CiphertextMessageType::spec_from_code(data@[0]) == Some(m.spec_message_type()),
            (exists|m: CiphertextMessage| m.wf() && m.spec_serialize() == data@) ==> r is Ok,
    {
        if data.len() < 2 {
            return Err(SignalProtocolError::InvalidMessage);
        }
        let kind = CiphertextMessageType::from_code(data[0])?;
        match kind {
            CiphertextMessageType::Whisper => {
                let r = SignalMessage::try_from(data);
                proof {
                    if exists|m: CiphertextMessage| m.wf() && m.spec_serialize() == data@ {
                        let m = choose|m: CiphertextMessage| m.wf() && m.spec_serialize() == data@;
                        if let CiphertextMessage::SignalMessage(x) = m {
                            assert(x.wf() && x.spec_serialize() == data@);
                        } else {
                            assert(m.spec_serialize()[0] != WHISPER_TYPE);
                        }
                    }
                }
                let m = r?;
                Ok(CiphertextMessage::SignalMessage(m))
            },
            CiphertextMessageType::PreKey => {
                let r = PreKeySignalMessage::try_from(data);
                proof {
                    if exists|m: CiphertextMessage| m.wf() && m.spec_serialize() == data@ {
                        let m = choose|m: CiphertextMessage| m.wf() && m.spec_serialize() == data@;
                        if let CiphertextMessage::PreKeySignalMessage(x) = m {
                            assert(x.wf() && x.spec_serialize() == data@);
                        } else {
                            assert(m.spec_serialize()[0] != PREKEY_TYPE);
                        }
                    }
                }
                let m = r?;
                Ok(CiphertextMessage::PreKeySignalMessage(m))
            },
            CiphertextMessageType::SenderKey => {
                let r = SenderKeyMessage::try_from(data);
                proof {
                    if exists|m: CiphertextMessage| m.wf() && m.spec_serialize() == data@ {
                        let m = choose|m: CiphertextMessage| m.wf() && m.spec_serialize() == data@;
                        if let CiphertextMessage::SenderKeyMessage(x) = m {
                            assert(x.wf() && x.spec_serialize() == data@);
                        } else {
                            assert(m.spec_serialize()[0] != SENDERKEY_TYPE);
                        }
                    }
                }
                let m = r?;
                Ok(CiphertextMessage::SenderKeyMessage(m))
            },
            CiphertextMessageType::SenderKeyDistribution => {
                let r = SenderKeyDistributionMessage::try_from(data);
                proof {
                    if exists|m: CiphertextMessage| m.wf() && m.spec_serialize() == data@ {
                        let m = choose|m: CiphertextMessage| m.wf() && m.spec_serialize() == data@;
                        if let CiphertextMessage::SenderKeyDistributionMessage(x) = m {
                            assert(x.wf() && x.spec_serialize() == data@);
                        } else {
                            assert(m.spec_serialize()[0] != SENDERKEY_DISTRIBUTION_TYPE);
                        }
                    }
                }
                let m = r?;
                Ok(CiphertextMessage::SenderKeyDistributionMessage(m))
            },
        }
    }
}

} // verus!
