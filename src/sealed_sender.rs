use vstd::prelude::*;

use crate::codec::copy_vec;
use crate::error::{Result, SignalProtocolError};
use crate::protocol::{CiphertextMessage, CiphertextMessageType};

pub use crate::certificates::{check_certificate_chain, chain_valid, SenderCertificate, ServerCertificate};

verus! {

/// The kind of message that a sealed envelope carries, by its type code:
/// an ordinary ratchet message, a prekey message or a sender-key message.
pub open spec fn sealed_message_type(code: u8) -> Option<CiphertextMessageType> {
    match CiphertextMessageType::spec_from_code(code) {
        Some(CiphertextMessageType::SenderKeyDistribution) => None,
        other => other,
    }
}

/// The content of a sealed envelope: the kind of the inner message, the
/// sender's certificate, the inner message's bytes, a content hint and an
/// optional group id.
#[derive(Debug, Clone)]
pub struct UnidentifiedSenderMessageContent {
    pub msg_type: CiphertextMessageType,
    pub sender: SenderCertificate,
    pub contents: Vec<u8>,
    pub content_hint: u32,
    pub group_id: Option<Vec<u8>>,
}

impl UnidentifiedSenderMessageContent {
    /// Builds the content; the type code must be that of a ratchet, prekey
    /// or sender-key message.
    pub fn new(
        msg_type_value: u8,
        sender: SenderCertificate,
        contents: Vec<u8>,
        content_hint: u32,
        group_id: Vec<u8>,
    ) -> (r: Result<UnidentifiedSenderMessageContent>)
        ensures
            match sealed_message_type(msg_type_value) {
                Some(t) => r matches Ok(c) && c.msg_type == t && c.sender == sender && c.contents@
                    == contents@ && c.content_hint == content_hint && (c.group_id matches Some(
                    g,
                ) && g@ == group_id@),
                None => r == Err::<UnidentifiedSenderMessageContent, _>(
                    SignalProtocolError::UnrecognizedMessageType(msg_type_value),
                ),
            },
    {
        let msg_type = match CiphertextMessageType::from_code(msg_type_value) {
            Ok(CiphertextMessageType::SenderKeyDistribution) => {
                return Err(SignalProtocolError::UnrecognizedMessageType(msg_type_value));
            },
            Ok(t) => t,
            Err(e) => {
                return Err(e);
            },
        };
        Ok(UnidentifiedSenderMessageContent {
            msg_type,
            sender,
            contents,
            content_hint,
            group_id: Some(group_id),
        })
    }

    /// The type code of the inner message.
    pub fn msg_type(&self) -> (r: u8)
        ensures
            r == self.msg_type.spec_code(),
    {
        self.msg_type.code()
    }

    /// The sender's certificate.
    pub fn sender(&self) -> (r: &SenderCertificate)
        ensures
            *r == self.sender,
    {
        &self.sender
    }

    /// The inner message's bytes.
    pub fn contents(&self) -> (r: Vec<u8>)
        ensures
            r@ == self.contents@,
    {
        copy_vec(&self.contents)
    }

    /// Reads the inner message, which must be of the kind that the content
    /// names; this decides whether it goes to a pairwise session or to a
    /// group chain.
    pub fn inner_message(&self) -> (r: Result<CiphertextMessage>)
        ensures
            r matches Ok(m) ==> m.wf() && m.spec_serialize() == self.contents@
                && m.spec_message_type() == self.msg_type,
            (exists|m: CiphertextMessage|
                m.wf() && m.spec_serialize() == self.contents@ && m.spec_message_type()
                    == self.msg_type) ==> r is Ok,
    {
        let m = CiphertextMessage::deserialize(self.contents.as_slice());
        match m {
            Ok(m) => {
                let kind = m.message_type();
                if kind.code() != self.msg_type.code() {
                    proof {
                        assert(m.spec_message_type() != self.msg_type);
                        if exists|x: CiphertextMessage|
                            x.wf() && x.spec_serialize() == self.contents@ && x.spec_message_type()
                                == self.msg_type {
                            let x = choose|x: CiphertextMessage|
                                x.wf() && x.spec_serialize() == self.contents@
                                    && x.spec_message_type() == self.msg_type;
                            assert(CiphertextMessageType::spec_from_code(self.contents@[0]) == Some(
                                m.spec_message_type(),
                            ));
                            assert(x.spec_serialize()[0] == x.spec_message_type().spec_code());
                        }
                    }
                    return Err(SignalProtocolError::InvalidMessage);
                }
                Ok(m)
            },
            Err(e) => Err(e),
        }
    }
}

/// What a sealed envelope yields once opened and decrypted: who sent it,
/// from which device, and the plaintext.
#[derive(Debug, Clone)]
pub struct SealedSenderDecryptionResult {
    pub sender_uuid: String,
    pub sender_e164: Option<String>,
    pub device_id: u32,
    pub message: Vec<u8>,
}

impl SealedSenderDecryptionResult {
    /// The result for `plaintext` from the sender that `content` certifies.
    pub fn new(content: &UnidentifiedSenderMessageContent, plaintext: Vec<u8>) -> (r:
        SealedSenderDecryptionResult)
        ensures
            r.sender_uuid@ == content.sender.sender_uuid@,
            match content.sender.sender_e164 {
                Some(e) => r.sender_e164 matches Some(x) && x@ == e@,
                None => r.sender_e164 is None,
            },
            r.device_id == content.sender.sender_device_id,
            r.message@ == plaintext@,
    {
        let e164: Option<String> = match &content.sender.sender_e164 {
            Some(e) => Some(e.clone()),
            None => None,
        };
        SealedSenderDecryptionResult {
            sender_uuid: content.sender.sender_uuid.clone(),
            sender_e164: e164,
            device_id: content.sender.sender_device_id,
            message: plaintext,
        }
    }

    /// The sender's uuid.
    pub fn sender_uuid(&self) -> (r: String)
        ensures
            r@ == self.sender_uuid@,
    {
        self.sender_uuid.clone()
    }

    /// The sender's phone number, if known.
    pub fn sender_e164(&self) -> (r: Option<String>)
        ensures
            match self.sender_e164 {
                Some(e) => r matches Some(x) && x@ == e@,
                None => r is None,
            },
    {
        match &self.sender_e164 {
            Some(e) => Some(e.clone()),
            None => None,
        }
    }

    /// The sender's device.
    pub fn device_id(&self) -> (r: u32)
        ensures
            r == self.device_id,
    {
        self.device_id
    }

    /// The plaintext.
    pub fn message(&self) -> (r: Vec<u8>)
        ensures
            r@ == self.message@,
    {
        copy_vec(&self.message)
    }
}

} // verus!
