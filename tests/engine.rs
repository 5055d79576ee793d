use signal_protocol::address::ProtocolAddress;
use signal_protocol::chain::{ChainWindow, Delivery, MAX_FORWARD_JUMPS, MAX_MESSAGE_KEYS};
use signal_protocol::curve::{KeyPair, PrivateKey, PublicKey};
use signal_protocol::error::SignalProtocolError;
use signal_protocol::group_cipher::{
    advance_sender_chain, create_sender_key_distribution_message,
    process_sender_key_distribution_message, receive_group_message,
};
use signal_protocol::identity_key::{IdentityKey, IdentityKeyPair};
use signal_protocol::protocol::{PreKeySignalMessage, SenderKeyDistributionMessage, SignalMessage};
use signal_protocol::sealed_sender::{
    check_certificate_chain, SealedSenderDecryptionResult, SenderCertificate, ServerCertificate,
    UnidentifiedSenderMessageContent,
};
use signal_protocol::sender_keys::SenderKeyRecord;
use signal_protocol::session::{
    check_prekey_bundle, complete_pre_key_message, pre_key_message_keys, process_prekey_bundle,
    PreKeyBootstrap,
};
use signal_protocol::state::{
    generate_n_prekeys, ChainKey, SenderChain, PreKeyBundle, PreKeyRecord, ReceiverChains, SessionRecord,
    SessionState, SignedPreKeyRecord, ARCHIVED_STATES_MAX_LENGTH,
};
use signal_protocol::storage::{
    IdentityKeyStore, InMemSignalProtocolStore, SenderKeyStore,
};
use signal_protocol::uuid::MyUuid;

fn key(b: u8) -> PublicKey {
    PublicKey { key: [b; 32] }
}

fn pair(b: u8) -> KeyPair {
    KeyPair::new(key(b), PrivateKey { key: [b.wrapping_add(100); 32] })
}

fn identity(b: u8) -> IdentityKeyPair {
    IdentityKeyPair::new(IdentityKey::new(key(b)), PrivateKey { key: [b; 32] })
}

fn store() -> InMemSignalProtocolStore {
    InMemSignalProtocolStore::new(&identity(1), 99).unwrap()
}

fn fitting_state(base: u8, remote: u8) -> SessionState {
    let mut s = state(base, 4);
    s.remote_identity_key = Some(IdentityKey::new(key(remote)));
    s.sender_chain = Some(SenderChain { ratchet_key_pair: pair(9), chain_key: ChainKey { key: [1; 32], index: 0 } });
    s
}

fn state(base: u8, version: u32) -> SessionState {
    SessionState {
        session_version: version,
        local_identity_key: IdentityKey::new(key(1)),
        remote_identity_key: Some(IdentityKey::new(key(2))),
        root_key: [0u8; 32],
        previous_counter: 0,
        sender_chain: None,
        receiver_chains: ReceiverChains::new(),
        local_registration_id: 10,
        remote_registration_id: 20,
        alice_base_key: key(base),
    }
}

#[test]
fn prekey_ids_run_from_start() {
    let pairs = vec![pair(1), pair(2), pair(3)];
    let records = generate_n_prekeys(40, &pairs);
    assert_eq!(records.len(), 3);
    assert_eq!(records[0].id(), 40);
    assert_eq!(records[2].id(), 42);
    assert_eq!(records[1].public_key().key, [2u8; 32]);
}

#[test]
fn bundle_without_one_time_prekey() {
    let b = PreKeyBundle::new(1, 2, 3, None, 4, key(5), vec![6; 64], IdentityKey::new(key(7)));
    assert_eq!(b.pre_key_id(), None);
    assert!(b.pre_key_public().is_none());
    let b = PreKeyBundle::new(1, 2, 3, Some(key(8)), 4, key(5), vec![6; 64], IdentityKey::new(key(7)));
    assert_eq!(b.pre_key_id(), Some(3));
    assert_eq!(b.pre_key_public().unwrap().key, [8u8; 32]);
    assert_eq!(b.signed_pre_key_signature(), vec![6; 64]);
}

#[test]
fn session_record_queries() {
    let mut record = SessionRecord::new_fresh();
    assert_eq!(record.session_version().unwrap_err(), SignalProtocolError::SessionNotFound);
    assert_eq!(record.has_sender_chain().unwrap_err(), SignalProtocolError::SessionNotFound);
    let mut s = state(3, 4);
    s.add_receiver_chain(key(30), ChainKey { key: [31; 32], index: 0 });
    s.add_receiver_chain(key(40), ChainKey { key: [41; 32], index: 2 });
    record.promote_state(s);
    assert_eq!(record.session_version().unwrap(), 4);
    assert_eq!(record.local_registration_id().unwrap(), 10);
    assert_eq!(record.remote_registration_id().unwrap(), 20);
    assert_eq!(record.has_sender_chain().unwrap(), false);
    assert_eq!(record.get_receiver_chain_key(&key(40)).unwrap(), Some(vec![41; 32]));
    assert_eq!(record.get_receiver_chain_key(&key(50)).unwrap(), None);
    assert_eq!(record.alice_base_key().unwrap()[1..].to_vec(), vec![3u8; 32]);
    assert_eq!(record.get_sender_chain_key_bytes().unwrap_err(), SignalProtocolError::SessionNotFound);
    assert_eq!(record.remote_identity_key_bytes().unwrap().unwrap()[0], 5);
}

#[test]
fn receiver_chains_are_bounded() {
    let mut s = state(3, 4);
    for i in 0..7u8 {
        s.add_receiver_chain(key(i), ChainKey { key: [i; 32], index: 0 });
    }
    assert_eq!(s.receiver_chains.len(), 5);
    assert!(s.get_receiver_chain_key(&key(1)).is_none());
    assert_eq!(s.get_receiver_chain_key(&key(6)).unwrap().key, [6u8; 32]);
}

#[test]
fn archived_states_are_bounded() {
    let mut record = SessionRecord::new_fresh();
    record.archive_current_state().unwrap();
    assert_eq!(record.previous_session_count(), 0);
    for i in 0..45u32 {
        record.promote_state(state(3, i));
    }
    assert_eq!(record.previous_session_count(), ARCHIVED_STATES_MAX_LENGTH);
    record.archive_current_state().unwrap();
    assert_eq!(record.previous_session_count(), ARCHIVED_STATES_MAX_LENGTH);
    assert!(record.session_state().is_none());
}

#[test]
fn identity_changes_are_reported() {
    let mut s = store();
    let bob = ProtocolAddress::new("bob".to_string(), 1);
    assert_eq!(s.get_identity(&bob).unwrap().is_none(), true);
    assert_eq!(s.save_identity(&bob, &IdentityKey::new(key(2))).unwrap(), false);
    assert_eq!(s.save_identity(&bob, &IdentityKey::new(key(2))).unwrap(), false);
    assert_eq!(s.identity_store.is_trusted_identity(&bob, &IdentityKey::new(key(3))).unwrap(), false);
    assert_eq!(s.save_identity(&bob, &IdentityKey::new(key(3))).unwrap(), true);
    assert_eq!(s.get_identity(&bob).unwrap().unwrap().key.key, [3u8; 32]);
    let other = ProtocolAddress::new("bob".to_string(), 2);
    assert!(s.get_identity(&other).unwrap().is_none());
    assert_eq!(s.get_local_registration_id().unwrap(), 99);
}

#[test]
fn prekey_removal_is_idempotent() {
    let mut s = store();
    s.save_pre_key(5, &PreKeyRecord::new(5, &pair(5))).unwrap();
    assert_eq!(s.get_pre_key(5).unwrap().id, 5);
    s.remove_pre_key(5).unwrap();
    s.remove_pre_key(5).unwrap();
    assert_eq!(s.get_pre_key(5).unwrap_err(), SignalProtocolError::InvalidPreKeyId);
    assert_eq!(s.get_signed_pre_key(1).unwrap_err(), SignalProtocolError::InvalidSignedPreKeyId);
    s.save_signed_pre_key(1, SignedPreKeyRecord::new(1, 1000, &pair(6), &[1; 64])).unwrap();
    assert_eq!(s.get_signed_pre_key(1).unwrap().timestamp(), 1000);
}

#[test]
fn sessions_load_absent_then_present() {
    let mut s = store();
    let bob = ProtocolAddress::new("bob".to_string(), 1);
    assert!(s.load_session(&bob).unwrap().is_none());
    s.store_session(&bob, SessionRecord::new(state(3, 4))).unwrap();
    assert_eq!(s.load_session(&bob).unwrap().unwrap().session_version().unwrap(), 4);
}

#[test]
fn sender_keys_by_uuid_text() {
    let mut s = store();
    let alice = ProtocolAddress::new("alice".to_string(), 1);
    let text = "67e55044-10b1-426f-9247-bb680e5fe0c8";
    assert!(s.load_sender_key(&alice, text).unwrap().is_none());
    s.store_sender_key(&alice, text, SenderKeyRecord::new_fresh()).unwrap();
    assert!(s.load_sender_key(&alice, text).unwrap().is_some());
    assert!(s.sender_key_store.load_sender_key(&alice, MyUuid::new()).unwrap().is_some());
    assert_eq!(
        s.store_sender_key(&alice, "not a uuid", SenderKeyRecord::new_fresh()).unwrap_err(),
        SignalProtocolError::InvalidArgument
    );
}

#[test]
fn uuid_text_forms() {
    let expected = MyUuid::new().bytes;
    assert_eq!(MyUuid::parse("67e55044-10b1-426f-9247-bb680e5fe0c8").unwrap().bytes, expected);
    assert_eq!(MyUuid::parse("67e5504410b1426f9247bb680e5fe0c8").unwrap().bytes, expected);
    assert!(MyUuid::parse("67e55044").is_none());
}

#[test]
fn reorder_within_bounds() {
    let mut w = ChainWindow::new(0);
    assert_eq!(w.receive(3).unwrap(), Delivery::Fresh);
    assert_eq!(w.next_counter(), 4);
    assert!(w.has_skipped(0) && w.has_skipped(1) && w.has_skipped(2));
    assert_eq!(w.receive(1).unwrap(), Delivery::Cached);
    assert_eq!(w.receive(0).unwrap(), Delivery::Cached);
    assert_eq!(w.receive(1).unwrap_err(), SignalProtocolError::ReplayOrOrderingViolation);
    assert_eq!(w.receive(2).unwrap(), Delivery::Cached);
    assert_eq!(w.receive(4).unwrap(), Delivery::Fresh);
}

#[test]
fn reorder_beyond_bounds_fails() {
    let mut w = ChainWindow::new(0);
    assert_eq!(
        w.receive(MAX_FORWARD_JUMPS as u32 + 1).unwrap_err(),
        SignalProtocolError::ReplayOrOrderingViolation
    );
    assert_eq!(w.next_counter(), 0);
    let last = MAX_MESSAGE_KEYS as u32 + 10;
    assert_eq!(w.receive(last).unwrap(), Delivery::Fresh);
    assert_eq!(w.receive(5).unwrap_err(), SignalProtocolError::ReplayOrOrderingViolation);
    assert_eq!(w.receive(last - 1).unwrap(), Delivery::Cached);
    assert_eq!(w.receive(last - MAX_MESSAGE_KEYS as u32).unwrap(), Delivery::Cached);
    assert_eq!(w.receive(u32::MAX).unwrap_err(), SignalProtocolError::ReplayOrOrderingViolation);
}

#[test]
fn group_ratchet_monotonicity() {
    let mut s = store();
    let alice = ProtocolAddress::new("alice".to_string(), 1);
    let id = MyUuid::new();
    let skdm = SenderKeyDistributionMessage::new(3, id.bytes, 1, 0, &[7u8; 32], key(8)).unwrap();
    process_sender_key_distribution_message(&alice, &skdm, &mut s.sender_key_store).unwrap();
    let mut record = s.sender_key_store.load_sender_key(&alice, id).unwrap().unwrap().copy();
    let st = record.sender_key_state().unwrap();
    assert_eq!((st.chain_id, st.iteration, st.chain_key), (1, 0, [7u8; 32]));
    assert_eq!(advance_sender_chain(&mut record, [9u8; 32]).unwrap(), 0);
    assert_eq!(record.sender_key_state().unwrap().iteration, 1);
    assert_eq!(record.sender_key_state().unwrap().chain_key, [9u8; 32]);
    let mut peer = ChainWindow::new(0);
    assert_eq!(peer.receive(0).unwrap(), Delivery::Fresh);
    assert_eq!(peer.receive(2).unwrap(), Delivery::Fresh);
    assert_eq!(peer.receive(0).unwrap_err(), SignalProtocolError::ReplayOrOrderingViolation);
    assert_eq!(peer.receive(1).unwrap(), Delivery::Cached);
}

#[test]
fn distribution_message_created_once() {
    let mut s = store();
    let me = ProtocolAddress::new("me".to_string(), 1);
    let id = MyUuid::new();
    let first = create_sender_key_distribution_message(&me, id, &mut s.sender_key_store, 0x0000_0101, [4u8; 32], pair(5)).unwrap();
    assert_eq!(first.chain_id, 0x80);
    assert_eq!(first.iteration, 0);
    assert_eq!(first.chain_key, [4u8; 32]);
    assert_eq!(first.signing_key.key, [5u8; 32]);
    let second = create_sender_key_distribution_message(&me, id, &mut s.sender_key_store, 7, [1u8; 32], pair(6)).unwrap();
    assert_eq!(second.serialized(), first.serialized());
    let state = s.sender_key_store.load_sender_key(&me, id).unwrap().unwrap().sender_key_state().unwrap();
    assert!(state.signing_private_key.is_some());
}

#[test]
fn distribution_replaces_same_chain() {
    let mut s = store();
    let alice = ProtocolAddress::new("alice".to_string(), 1);
    let id = MyUuid::new();
    for (chain, it) in [(1u32, 0u32), (2, 0), (1, 5)] {
        let m = SenderKeyDistributionMessage::new(3, id.bytes, chain, it, &[0u8; 32], key(1)).unwrap();
        process_sender_key_distribution_message(&alice, &m, &mut s.sender_key_store).unwrap();
    }
    let record = s.sender_key_store.load_sender_key(&alice, id).unwrap().unwrap().copy();
    assert_eq!(record.sender_key_state().unwrap().chain_id, 1);
    assert_eq!(record.sender_key_state().unwrap().iteration, 5);
    assert_eq!(record.sender_key_state_for_chain_id(2).unwrap().iteration, 0);
    assert!(record.sender_key_state_for_chain_id(3).is_none());
}

fn sender_certificate(expiration: u64) -> SenderCertificate {
    SenderCertificate {
        sender_uuid: "9d0652a3-dcc3-4d11-975f-74d61598733f".to_string(),
        sender_e164: Some("+14152222222".to_string()),
        key: key(2),
        sender_device_id: 1,
        expiration,
        signer: ServerCertificate::new(1, key(3), vec![3; 64]),
        signature: vec![6; 64],
    }
}

#[test]
fn certificate_validation_end_to_end() {
    let cert = sender_certificate(31337);
    assert!(cert.validate(true, true, 31336));
    assert!(!cert.validate(true, true, 31338));
    assert!(!cert.validate(false, true, 31336));
    assert_eq!(check_certificate_chain(true, true, 31337, 31336), Ok(()));
    assert_eq!(
        check_certificate_chain(true, true, 31337, 31338),
        Err(SignalProtocolError::CertificateExpired)
    );
    assert_eq!(
        check_certificate_chain(false, true, 31337, 31336),
        Err(SignalProtocolError::SignatureVerificationFailed)
    );
    assert_eq!(
        check_certificate_chain(true, false, 31337, 31338),
        Err(SignalProtocolError::SignatureVerificationFailed)
    );
}

#[test]
fn sealed_content_types() {
    let whisper = SignalMessage::new(3, &[2; 32], key(7), 1, 0, &[1], &IdentityKey::new(key(1)), &IdentityKey::new(key(2))).unwrap().serialized();
    let c = UnidentifiedSenderMessageContent::new(2, sender_certificate(10), whisper.clone(), 0, vec![])
        .unwrap();
    assert_eq!(c.msg_type(), 2);
    assert_eq!(c.inner_message().unwrap().serialize(), whisper);
    let wrong = UnidentifiedSenderMessageContent::new(3, sender_certificate(10), whisper, 0, vec![])
        .unwrap();
    assert_eq!(wrong.inner_message().unwrap_err(), SignalProtocolError::InvalidMessage);
    for code in [5u8, 7, 0] {
        assert_eq!(
            UnidentifiedSenderMessageContent::new(code, sender_certificate(10), vec![], 0, vec![])
                .unwrap_err(),
            SignalProtocolError::UnrecognizedMessageType(code)
        );
    }
    assert_eq!(
        UnidentifiedSenderMessageContent::new(4, sender_certificate(10), vec![], 0, vec![])
            .unwrap()
            .msg_type(),
        4
    );
}

#[test]
fn decryption_result_names_sender() {
    let c = UnidentifiedSenderMessageContent::new(2, sender_certificate(10), vec![], 0, vec![1]).unwrap();
    let r = SealedSenderDecryptionResult::new(&c, vec![8, 9]);
    assert_eq!(r.sender_uuid(), "9d0652a3-dcc3-4d11-975f-74d61598733f");
    assert_eq!(r.sender_e164(), Some("+14152222222".to_string()));
    assert_eq!(r.device_id(), 1);
    assert_eq!(r.message(), vec![8, 9]);
}

#[test]
fn bundle_checks_come_first() {
    let mut s = store();
    let bob = ProtocolAddress::new("bob".to_string(), 1);
    let bundle = PreKeyBundle::new(5, 1, 3, Some(key(8)), 4, key(5), vec![6; 64], IdentityKey::new(key(7)));
    assert_eq!(
        process_prekey_bundle(&bob, &mut s.session_store, &mut s.identity_store, &bundle, false, state(3, 4)).unwrap_err(),
        SignalProtocolError::SignatureVerificationFailed
    );
    assert!(s.load_session(&bob).unwrap().is_none());
    assert!(s.get_identity(&bob).unwrap().is_none());
    assert_eq!(
        process_prekey_bundle(&bob, &mut s.session_store, &mut s.identity_store, &bundle, true, state(3, 4)).unwrap_err(),
        SignalProtocolError::InvalidArgument
    );
    assert!(s.get_identity(&bob).unwrap().is_none());
    process_prekey_bundle(&bob, &mut s.session_store, &mut s.identity_store, &bundle, true, fitting_state(3, 7)).unwrap();
    let stored = s.load_session(&bob).unwrap().unwrap();
    assert_eq!(stored.remote_identity_key_bytes().unwrap().unwrap()[1..].to_vec(), vec![7u8; 32]);
    assert_eq!(stored.has_sender_chain().unwrap(), true);
    assert_eq!(s.load_session(&bob).unwrap().unwrap().session_version().unwrap(), 4);
    assert_eq!(s.get_identity(&bob).unwrap().unwrap().key.key, [7u8; 32]);
    let other = PreKeyBundle::new(5, 1, 3, None, 4, key(5), vec![6; 64], IdentityKey::new(key(9)));
    assert_eq!(
        check_prekey_bundle(&bob, &s.identity_store, &other, true).unwrap_err(),
        SignalProtocolError::UntrustedIdentity
    );
}

#[test]
fn one_time_prekey_consumption() {
    let mut s = store();
    let alice = ProtocolAddress::new("alice".to_string(), 1);
    s.save_pre_key(11, &PreKeyRecord::new(11, &pair(11))).unwrap();
    s.save_signed_pre_key(4, SignedPreKeyRecord::new(4, 0, &pair(4), &[0; 64])).unwrap();
    let inner = SignalMessage::new(3, &[2; 32], key(7), 0, 0, &[1], &IdentityKey::new(key(1)), &IdentityKey::new(key(2))).unwrap();
    let m = PreKeySignalMessage::new(3, 1, Some(11), 4, key(20), IdentityKey::new(key(21)), inner.clone())
        .unwrap();
    match pre_key_message_keys(&s.identity_store, &s.session_store, &s.pre_key_store, &s.signed_pre_key_store, &alice, &m).unwrap() {
        PreKeyBootstrap::Fresh { signed_pre_key, one_time_pre_key } => {
            assert_eq!(signed_pre_key.public_key.key, [4u8; 32]);
            assert_eq!(one_time_pre_key.unwrap().public_key.key, [11u8; 32]);
        }
        PreKeyBootstrap::Existing => panic!("expected a fresh session"),
    }
    assert_eq!(complete_pre_key_message(&mut s.identity_store, &mut s.session_store, &mut s.pre_key_store, &alice, &m, state(20, 4)).unwrap_err(), SignalProtocolError::InvalidArgument);
    assert_eq!(s.get_pre_key(11).unwrap().id, 11);
    assert_eq!(complete_pre_key_message(&mut s.identity_store, &mut s.session_store, &mut s.pre_key_store, &alice, &m, fitting_state(20, 21)).unwrap(), Some(11));
    assert_eq!(s.get_pre_key(11).unwrap_err(), SignalProtocolError::InvalidPreKeyId);
    assert!(matches!(pre_key_message_keys(&s.identity_store, &s.session_store, &s.pre_key_store, &s.signed_pre_key_store, &alice, &m).unwrap(), PreKeyBootstrap::Existing));
    let again = PreKeySignalMessage::new(3, 1, Some(11), 4, key(22), IdentityKey::new(key(21)), inner)
        .unwrap();
    assert_eq!(
        pre_key_message_keys(&s.identity_store, &s.session_store, &s.pre_key_store, &s.signed_pre_key_store, &alice, &again).unwrap_err(),
        SignalProtocolError::InvalidPreKeyId
    );
}

#[test]
fn certificate_round_trip() {
    let server = ServerCertificate::new(0x0a0b0c0d, key(3), vec![3; 64]);
    let body = server.certificate();
    assert_eq!(&body[..5], &[0x0a, 0x0b, 0x0c, 0x0d, 5]);
    assert_eq!(body.len(), 37);
    let back = ServerCertificate::deserialize(&server.serialized()).unwrap();
    assert_eq!((back.key_id(), back.public_key().key, back.signature()), (0x0a0b0c0d, [3u8; 32], vec![3u8; 64]));
    let cert = sender_certificate(31337);
    let bytes = cert.serialized().unwrap();
    let back = SenderCertificate::deserialize(&bytes).unwrap();
    assert_eq!(back.sender_uuid(), "9d0652a3-dcc3-4d11-975f-74d61598733f");
    assert_eq!(back.sender_e164(), Some("+14152222222"));
    assert_eq!((back.sender_device_id(), back.expiration()), (1, 31337));
    assert_eq!(back.key().key, [2u8; 32]);
    assert_eq!(back.signer().key_id(), 1);
    assert_eq!(back.signature(), vec![6u8; 64]);
    assert_eq!(back.serialized().unwrap(), bytes);
    let mut no_phone = sender_certificate(5);
    no_phone.sender_e164 = None;
    let back = SenderCertificate::deserialize(&no_phone.serialized().unwrap()).unwrap();
    assert_eq!(back.sender_e164(), None);
    assert_eq!(SenderCertificate::deserialize(&bytes[..20]).unwrap_err(), SignalProtocolError::InvalidMessage);
    assert_eq!(ServerCertificate::deserialize(&[0u8; 36]).unwrap_err(), SignalProtocolError::InvalidMessage);
}

#[test]
fn group_receive_follows_chain_order() {
    let mut s = store();
    let alice = ProtocolAddress::new("alice".to_string(), 1);
    let id = MyUuid::new();
    let skdm = SenderKeyDistributionMessage::new(3, id.bytes, 1, 0, &[7u8; 32], key(8)).unwrap();
    process_sender_key_distribution_message(&alice, &skdm, &mut s.sender_key_store).unwrap();
    let mut record = s.sender_key_store.load_sender_key(&alice, id).unwrap().unwrap().copy();
    let mut window = ChainWindow::new(0);
    assert_eq!(receive_group_message(&mut record, &mut window, 1, 0, [10u8; 32]).unwrap(), Delivery::Fresh);
    assert_eq!(record.sender_key_state().unwrap().iteration, 1);
    assert_eq!(receive_group_message(&mut record, &mut window, 1, 2, [12u8; 32]).unwrap(), Delivery::Fresh);
    assert_eq!(record.sender_key_state().unwrap().iteration, 3);
    assert_eq!(record.sender_key_state().unwrap().chain_key, [12u8; 32]);
    assert_eq!(
        receive_group_message(&mut record, &mut window, 1, 0, [0u8; 32]).unwrap_err(),
        SignalProtocolError::ReplayOrOrderingViolation
    );
    assert_eq!(receive_group_message(&mut record, &mut window, 1, 1, [0u8; 32]).unwrap(), Delivery::Cached);
    assert_eq!(record.sender_key_state().unwrap().iteration, 3);
    assert_eq!(
        receive_group_message(&mut record, &mut window, 9, 4, [0u8; 32]).unwrap_err(),
        SignalProtocolError::NoSenderKeyState
    );
}

#[test]
fn session_receive_follows_chain_order() {
    let mut st = state(3, 4);
    st.add_receiver_chain(key(30), ChainKey { key: [31; 32], index: 0 });
    let mut window = ChainWindow::new(0);
    assert_eq!(st.receive_message(&mut window, &key(30), 2, [32u8; 32]).unwrap(), Delivery::Fresh);
    assert_eq!(st.get_receiver_chain_key(&key(30)).unwrap().index, 3);
    assert_eq!(st.receive_message(&mut window, &key(30), 0, [0u8; 32]).unwrap(), Delivery::Cached);
    assert_eq!(
        st.receive_message(&mut window, &key(30), 0, [0u8; 32]).unwrap_err(),
        SignalProtocolError::ReplayOrOrderingViolation
    );
    assert_eq!(
        st.receive_message(&mut window, &key(31), 0, [0u8; 32]).unwrap_err(),
        SignalProtocolError::SessionNotFound
    );
}

#[test]
fn any_order_within_bounds_is_served() {
    let order = [5u32, 0, 3, 9, 1, 2, 8, 4, 7, 6];
    let mut w = ChainWindow::new(0);
    for c in order {
        assert!(w.receive(c).is_ok());
    }
    for c in order {
        assert_eq!(w.receive(c).unwrap_err(), SignalProtocolError::ReplayOrOrderingViolation);
    }
}
