use signal_protocol::codec::CURRENT_MESSAGE_VERSION;
use signal_protocol::curve::{KeyPair, PrivateKey, PublicKey};
use signal_protocol::error::SignalProtocolError;
use signal_protocol::identity_key::IdentityKey;
use signal_protocol::uuid::MyUuid;
use signal_protocol::protocol::{
    CiphertextMessage, CiphertextMessageType, PreKeySignalMessage, SenderKeyDistributionMessage,
    SenderKeyMessage, SignalMessage,
};

fn key(b: u8) -> PublicKey {
    PublicKey { key: [b; 32] }
}

fn ident(b: u8) -> IdentityKey {
    IdentityKey::new(key(b))
}

fn signal_message() -> SignalMessage {
    SignalMessage {
        message_version: 3,
        sender_ratchet_key: key(7),
        counter: 5,
        previous_counter: 4,
        ciphertext: vec![1, 2, 3],
        mac: [9; 8],
    }
}

#[test]
fn public_key_round_trip() {
    let k = key(0x11);
    let bytes = k.serialize();
    assert_eq!(bytes.len(), 33);
    assert_eq!(bytes[0], 5);
    let back = PublicKey::deserialize(&bytes).unwrap();
    assert_eq!(back.key, k.key);
}

#[test]
fn public_key_rejects_bad_bytes() {
    let mut bytes = key(1).serialize();
    bytes[0] = 6;
    assert_eq!(PublicKey::deserialize(&bytes).unwrap_err(), SignalProtocolError::InvalidKeyMaterial);
    assert_eq!(PublicKey::deserialize(&[5u8; 32]).unwrap_err(), SignalProtocolError::InvalidKeyMaterial);
    assert_eq!(PublicKey::deserialize(&[]).unwrap_err(), SignalProtocolError::InvalidKeyMaterial);
    assert!(PublicKey::from_djb_public_key_bytes(&[3u8; 32]).is_ok());
    assert!(PrivateKey::deserialize(&[3u8; 31]).is_err());
}

#[test]
fn key_pair_from_serialized_parts() {
    let pair = KeyPair::from_public_and_private(&key(2).serialize(), &[4u8; 32]).unwrap();
    assert_eq!(pair.public_key.key, [2u8; 32]);
    assert_eq!(pair.private_key.serialize(), vec![4u8; 32]);
}

#[test]
fn signal_message_exact_bytes() {
    let m = signal_message();
    let bytes = m.serialized();
    let mut expected = vec![2u8, 3u8, 5u8];
    expected.extend_from_slice(&[7u8; 32]);
    expected.extend_from_slice(&[0, 0, 0, 5, 0, 0, 0, 4, 1, 2, 3]);
    expected.extend_from_slice(&[9u8; 8]);
    assert_eq!(bytes, expected);
}

#[test]
fn signal_message_round_trip() {
    let m = signal_message();
    let back = SignalMessage::try_from(&m.serialized()).unwrap();
    assert_eq!(back.counter, 5);
    assert_eq!(back.previous_counter, 4);
    assert_eq!(back.ciphertext, vec![1, 2, 3]);
    assert_eq!(back.mac, [9u8; 8]);
    assert_eq!(back.sender_ratchet_key.key, [7u8; 32]);
    assert_eq!(back.serialized(), m.serialized());
}

#[test]
fn signal_message_errors() {
    let bytes = signal_message().serialized();
    let mut wrong_type = bytes.clone();
    wrong_type[0] = 9;
    assert_eq!(
        SignalMessage::try_from(&wrong_type).unwrap_err(),
        SignalProtocolError::UnrecognizedMessageType(9)
    );
    let mut wrong_version = bytes.clone();
    wrong_version[1] = 2;
    assert_eq!(
        SignalMessage::try_from(&wrong_version).unwrap_err(),
        SignalProtocolError::UnknownMessageVersion(2)
    );
    assert_eq!(
        SignalMessage::try_from(&bytes[..40]).unwrap_err(),
        SignalProtocolError::InvalidMessage
    );
    assert_eq!(SignalMessage::try_from(&[2]).unwrap_err(), SignalProtocolError::InvalidMessage);
    let any_version = SignalMessage::new(9, &[1; 32], key(1), 0, 0, &[], &ident(1), &ident(2)).unwrap();
    assert_eq!(any_version.message_version(), 9);
    assert_eq!(
        SignalMessage::try_from(&any_version.serialized()).unwrap_err(),
        SignalProtocolError::UnknownMessageVersion(9)
    );
}

#[test]
fn prekey_message_round_trip() {
    for id in [Some(77u32), None] {
        let m = PreKeySignalMessage::new(
            CURRENT_MESSAGE_VERSION,
            1234,
            id,
            8,
            key(3),
            IdentityKey::new(key(4)),
            signal_message(),
        )
        .unwrap();
        let bytes = m.serialized();
        let back = PreKeySignalMessage::try_from(&bytes).unwrap();
        assert_eq!(back.pre_key_id, id);
        assert_eq!(back.registration_id, 1234);
        assert_eq!(back.signed_pre_key_id, 8);
        assert_eq!(back.base_key.key, [3u8; 32]);
        assert_eq!(back.identity_key.key.key, [4u8; 32]);
        assert_eq!(back.message().serialized(), signal_message().serialized());
        assert_eq!(back.serialized(), bytes);
    }
}

#[test]
fn prekey_message_rejects_nonzero_absent_id() {
    let m = PreKeySignalMessage::new(3, 1, None, 2, key(3), IdentityKey::new(key(4)), signal_message())
        .unwrap();
    let mut bytes = m.serialized();
    bytes[9] = 1;
    assert_eq!(
        PreKeySignalMessage::try_from(&bytes).unwrap_err(),
        SignalProtocolError::InvalidMessage
    );
    let mut bad_inner = m.serialized();
    let last = bad_inner.len() - 1;
    bad_inner.truncate(last - 20);
    assert_eq!(
        PreKeySignalMessage::try_from(&bad_inner).unwrap_err(),
        SignalProtocolError::InvalidMessage
    );
}

#[test]
fn sender_key_message_round_trip() {
    let m = SenderKeyMessage::new(3, MyUuid::from_bytes([6u8; 16]), 42, 7, &[5, 5], &[8u8; 64]).unwrap();
    let bytes = m.serialized();
    assert_eq!(bytes.len(), 92);
    assert_eq!(&bytes[18..26], &[0, 0, 0, 42, 0, 0, 0, 7]);
    let back = SenderKeyMessage::try_from(&bytes).unwrap();
    assert_eq!(back.chain_id, 42);
    assert_eq!(back.iteration, 7);
    assert_eq!(back.ciphertext, vec![5, 5]);
    assert_eq!(back.distribution_id, [6u8; 16]);
    assert_eq!(
        SenderKeyMessage::new(3, MyUuid::from_bytes([0; 16]), 0, 0, &[], &[0; 63]).unwrap_err(),
        SignalProtocolError::InvalidArgument
    );
}

#[test]
fn distribution_message_round_trip() {
    let m = SenderKeyDistributionMessage::new(3, [1u8; 16], 1, 0, &[2u8; 32], key(9)).unwrap();
    let bytes = m.serialized();
    assert_eq!(bytes.len(), 91);
    let back = SenderKeyDistributionMessage::try_from(&bytes).unwrap();
    assert_eq!(back.chain_id, 1);
    assert_eq!(back.iteration, 0);
    assert_eq!(back.chain_key, [2u8; 32]);
    assert_eq!(back.signing_key.key, [9u8; 32]);
    assert_eq!(
        SenderKeyDistributionMessage::try_from(&bytes[..90]).unwrap_err(),
        SignalProtocolError::InvalidMessage
    );
    assert_eq!(
        SenderKeyDistributionMessage::new(3, [1u8; 16], 1, 0, &[2u8; 31], key(9)).unwrap_err(),
        SignalProtocolError::InvalidKeyMaterial
    );
}

#[test]
fn ciphertext_message_dispatch() {
    let whisper = signal_message().serialized();
    let m = CiphertextMessage::deserialize(&whisper).unwrap();
    assert_eq!(m.message_type(), CiphertextMessageType::Whisper);
    assert_eq!(m.message_type().code(), 2);
    assert_eq!(m.serialize(), whisper);
    let skdm = SenderKeyDistributionMessage::new(4, [1u8; 16], 1, 0, &[2u8; 32], key(9))
        .unwrap()
        .serialized();
    let m = CiphertextMessage::deserialize(&skdm).unwrap();
    assert_eq!(m.message_type(), CiphertextMessageType::SenderKeyDistribution);
    assert_eq!(
        CiphertextMessage::deserialize(&[7, 3, 0]).unwrap_err(),
        SignalProtocolError::UnrecognizedMessageType(7)
    );
    assert_eq!(
        CiphertextMessage::deserialize(&[3, 1, 0]).unwrap_err(),
        SignalProtocolError::UnknownMessageVersion(1)
    );
}

#[test]
fn message_type_codes() {
    assert_eq!(CiphertextMessageType::from_code(2).unwrap(), CiphertextMessageType::Whisper);
    assert_eq!(CiphertextMessageType::from_code(3).unwrap(), CiphertextMessageType::PreKey);
    assert_eq!(CiphertextMessageType::from_code(4).unwrap(), CiphertextMessageType::SenderKey);
    assert_eq!(
        CiphertextMessageType::from_code(5).unwrap(),
        CiphertextMessageType::SenderKeyDistribution
    );
    assert_eq!(
        CiphertextMessageType::from_code(7).unwrap_err(),
        SignalProtocolError::UnrecognizedMessageType(7)
    );
}

#[test]
fn constructors_accept_any_version() {
    let mut inner = signal_message();
    inner.message_version = 9;
    let m = PreKeySignalMessage::new(1, 1, None, 2, key(3), IdentityKey::new(key(4)), inner).unwrap();
    assert_eq!(m.message_version(), 1);
    assert_eq!(m.message().message_version(), 9);
    let skm = SenderKeyMessage::new(0, MyUuid::new(), 5, 6, &[1, 2], &[0; 64]).unwrap();
    assert_eq!(skm.message_version(), 0);
    assert_eq!((skm.key_id(), skm.iteration(), skm.ciphertext()), (5, 6, vec![1, 2]));
    let cm = CiphertextMessage::SenderKeyMessage(skm.clone());
    assert_eq!(cm.serialize(), skm.serialized());
    assert_eq!(cm.message_type().code(), 4);
    let a = SignalMessage::new(0, &[5; 32], key(1), 2, 3, &[4], &ident(1), &ident(2)).unwrap();
    let b = SignalMessage::new(0, &[5; 32], key(1), 2, 3, &[4], &ident(1), &ident(2)).unwrap();
    assert_eq!(a.serialized(), b.serialized());
    assert_eq!(CiphertextMessage::SignalMessage(a.clone()).message_type().code(), 2);
    let d = SenderKeyDistributionMessage::new(7, [1; 16], 1, 2, &[3; 32], key(4)).unwrap();
    assert_eq!((d.message_version(), d.id(), d.iteration()), (7, 1, 2));
    assert_eq!(d.chain_key(), vec![3u8; 32]);
}

#[test]
fn truncated_bodies_are_invalid_messages() {
    let bytes = signal_message().serialized();
    for cut in [2usize, 10, 50] {
        assert_eq!(SignalMessage::try_from(&bytes[..cut]).unwrap_err(), SignalProtocolError::InvalidMessage);
    }
    let skm = SenderKeyMessage::new(3, MyUuid::new(), 1, 1, &[], &[0; 64]).unwrap().serialized();
    assert_eq!(SenderKeyMessage::try_from(&skm[..89]).unwrap_err(), SignalProtocolError::InvalidMessage);
}

#[test]
fn mac_binds_key_identities_and_content() {
    let m = SignalMessage::new(3, &[1; 32], key(7), 5, 4, &[1, 2, 3], &ident(1), &ident(2)).unwrap();
    assert_ne!(m.mac, [0u8; 8]);
    assert_eq!(m.verify_mac(&ident(1), &ident(2), &[1; 32]).unwrap(), true);
    assert_eq!(m.verify_mac(&ident(1), &ident(2), &[2; 32]).unwrap(), false);
    assert_eq!(m.verify_mac(&ident(2), &ident(1), &[1; 32]).unwrap(), false);
    let other = SignalMessage::new(3, &[2; 32], key(7), 5, 4, &[1, 2, 3], &ident(1), &ident(2)).unwrap();
    assert_ne!(other.mac, m.mac);
    let back = SignalMessage::try_from(&m.serialized()).unwrap();
    assert_eq!(back.verify_mac(&ident(1), &ident(2), &[1; 32]).unwrap(), true);
    let mut tampered = back.clone();
    tampered.counter = 6;
    assert_eq!(tampered.verify_mac(&ident(1), &ident(2), &[1; 32]).unwrap(), false);
}
