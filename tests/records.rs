use signal_protocol::curve::{KeyPair, PrivateKey, PublicKey};
use signal_protocol::error::SignalProtocolError;
use signal_protocol::sender_keys::{SenderKeyRecord, SenderKeyState, SENDER_KEY_STATE_LEN};
use signal_protocol::state::{PreKeyRecord, SignedPreKeyRecord};

fn pair(b: u8) -> KeyPair {
    KeyPair::new(PublicKey { key: [b; 32] }, PrivateKey { key: [b ^ 0xff; 32] })
}

fn sender_state(chain_id: u32, private: bool) -> SenderKeyState {
    SenderKeyState {
        message_version: 3,
        chain_id,
        iteration: 9,
        chain_key: [chain_id as u8; 32],
        signing_key: PublicKey { key: [4; 32] },
        signing_private_key: if private { Some(PrivateKey { key: [5; 32] }) } else { None },
    }
}

#[test]
fn pre_key_record_round_trip() {
    let r = PreKeyRecord::new(0x01020304, &pair(7));
    let bytes = r.serialize().unwrap();
    assert_eq!(bytes.len(), 69);
    assert_eq!(&bytes[..5], &[1, 2, 3, 4, 5]);
    let back = PreKeyRecord::deserialize(&bytes).unwrap();
    assert_eq!(back.id(), 0x01020304);
    assert_eq!(back.public_key().key, [7u8; 32]);
    assert_eq!(back.private_key().key, [0xf8u8; 32]);
    assert_eq!(
        PreKeyRecord::deserialize(&bytes[..68]).unwrap_err(),
        SignalProtocolError::InvalidMessage
    );
}

#[test]
fn signed_pre_key_record_round_trip() {
    let r = SignedPreKeyRecord::new(2, 0x0102030405060708, &pair(3), &[6u8; 64]);
    let bytes = r.serialize().unwrap();
    assert_eq!(&bytes[4..12], &[1, 2, 3, 4, 5, 6, 7, 8]);
    let back = SignedPreKeyRecord::deserialize(&bytes).unwrap();
    assert_eq!(back.id(), 2);
    assert_eq!(back.timestamp(), 0x0102030405060708);
    assert_eq!(back.signature(), vec![6u8; 64]);
    assert_eq!(back.key_pair().public_key.key, [3u8; 32]);
    assert_eq!(
        SignedPreKeyRecord::deserialize(&bytes[..70]).unwrap_err(),
        SignalProtocolError::InvalidMessage
    );
}

#[test]
fn sender_key_record_round_trip() {
    let mut record = SenderKeyRecord::new_fresh();
    assert_eq!(record.serialize().unwrap(), Vec::<u8>::new());
    record.add_sender_key_state(sender_state(1, false));
    record.add_sender_key_state(sender_state(2, true));
    let bytes = record.serialize().unwrap();
    assert_eq!(bytes.len(), 2 * SENDER_KEY_STATE_LEN);
    let back = SenderKeyRecord::deserialize(&bytes).unwrap();
    assert_eq!(back.sender_key_state().unwrap().chain_id, 2);
    assert!(back.sender_key_state().unwrap().signing_private_key.is_some());
    assert!(back.sender_key_state_for_chain_id(1).unwrap().signing_private_key.is_none());
    assert_eq!(back.serialize().unwrap(), bytes);
}

#[test]
fn sender_key_record_rejects_bad_forms() {
    let mut record = SenderKeyRecord::new_fresh();
    record.add_sender_key_state(sender_state(1, false));
    let bytes = record.serialize().unwrap();
    assert_eq!(
        SenderKeyRecord::deserialize(&bytes[..100]).unwrap_err(),
        SignalProtocolError::InvalidMessage
    );
    let mut flag = bytes.clone();
    flag[74] = 2;
    assert_eq!(SenderKeyRecord::deserialize(&flag).unwrap_err(), SignalProtocolError::InvalidMessage);
    let mut stray = bytes.clone();
    stray[80] = 1;
    assert_eq!(SenderKeyRecord::deserialize(&stray).unwrap_err(), SignalProtocolError::InvalidMessage);
    let six: Vec<u8> = bytes.iter().cycle().take(6 * SENDER_KEY_STATE_LEN).cloned().collect();
    assert_eq!(SenderKeyRecord::deserialize(&six).unwrap_err(), SignalProtocolError::InvalidMessage);
}

#[test]
fn sender_key_states_are_bounded() {
    let mut record = SenderKeyRecord::new_fresh();
    for chain in 0..8u32 {
        record.add_sender_key_state(sender_state(chain, false));
    }
    assert_eq!(record.serialize().unwrap().len(), 5 * SENDER_KEY_STATE_LEN);
    assert_eq!(record.sender_key_state().unwrap().chain_id, 7);
    assert!(record.sender_key_state_for_chain_id(2).is_none());
    assert!(record.sender_key_state_for_chain_id(3).is_some());
}
