use vstd::prelude::*;

use crate::address::ProtocolAddress;
use crate::error::{Result, SignalProtocolError};
use crate::identity_key::{IdentityKey, IdentityKeyPair};
use crate::sender_keys::SenderKeyRecord;
use crate::state::{PreKeyId, PreKeyRecord, SessionRecord, SignedPreKeyId, SignedPreKeyRecord};
use crate::table::{Table, TableKey};
use crate::uuid::{uuid_parse, MyUuid};

verus! {

/// The local identity and the identities of remote addresses.
///
/// A backend may fail; a failed call changes nothing. A backend that never
/// fails says so by `identity_store_reliable`.
pub trait IdentityKeyStore {
    /// The backend's own consistency.
    spec fn identity_store_wf(&self) -> bool;

    /// Whether no call can fail.
    spec fn identity_store_reliable(&self) -> bool;

    /// The local identity key pair.
    spec fn local_identity(&self) -> IdentityKeyPair;

    /// The local registration id.
    spec fn local_registration(&self) -> u32;

    /// The identities on record, by address.
    spec fn identities(&self) -> Map<(Seq<char>, u32), IdentityKey>;

    /// The local identity key pair.
    fn get_identity_key_pair(&self) -> (r: Result<IdentityKeyPair>)
        requires
            self.identity_store_wf(),
        ensures
            r matches Ok(k) ==> k == self.local_identity(),
            self.identity_store_reliable() ==> r is Ok,
    ;

    /// The local registration id.
    fn get_local_registration_id(&self) -> (r: Result<u32>)
        requires
            self.identity_store_wf(),
        ensures
            r matches Ok(id) ==> id == self.local_registration(),
            self.identity_store_reliable() ==> r is Ok,
    ;

    /// Records `identity` for `address`; the result tells whether it
    /// replaced a different identity.
    fn save_identity(&mut self, address: &ProtocolAddress, identity: &IdentityKey) -> (r: Result<
        bool,
    >)
        requires
            old(self).identity_store_wf(),
        ensures
            final(self).identity_store_wf(),
            final(self).identity_store_reliable() == old(self).identity_store_reliable(),
            final(self).local_identity() == old(self).local_identity(),
            final(self).local_registration() == old(self).local_registration(),
            r matches Ok(changed) ==> changed == (old(self).identities().contains_key(address@)
                && old(self).identities()[address@]@ != identity@) && final(self).identities()
                == old(self).identities().insert(address@, *identity),
            r is Err ==> final(self).identities() == old(self).identities(),
            old(self).identity_store_reliable() ==> r is Ok,
    ;

    /// The identity on record for `address`, if any.
    fn get_identity(&self, address: &ProtocolAddress) -> (r: Result<Option<IdentityKey>>)
        requires
            self.identity_store_wf(),
        ensures
            r matches Ok(Some(k)) ==> self.identities().contains_key(address@) && k
                == self.identities()[address@],
            r matches Ok(None) ==> !self.identities().contains_key(address@),
            self.identity_store_reliable() ==> r is Ok,
    ;

    /// Whether `identity` may be used for `address`: it is the identity on
    /// record, or there is none yet.
    fn is_trusted_identity(&self, address: &ProtocolAddress, identity: &IdentityKey) -> (r: Result<
        bool,
    >)
        requires
            self.identity_store_wf(),
        ensures
            r matches Ok(b) ==> b == (!self.identities().contains_key(address@)
                || self.identities()[address@]@ == identity@),
            self.identity_store_reliable() ==> r is Ok,
    ;
}

/// The session records, by address.
///
/// A backend may fail; a failed call changes nothing.
pub trait SessionStore {
    /// The backend's own consistency.
    spec fn session_store_wf(&self) -> bool;

    /// Whether no call can fail.
    spec fn session_store_reliable(&self) -> bool;

    /// The session records, by address.
    spec fn sessions(&self) -> Map<(Seq<char>, u32), SessionRecord>;

    /// The session record of `address`; absent when there is none yet.
    fn load_session(&self, address: &ProtocolAddress) -> (r: Result<Option<&SessionRecord>>)
        requires
            self.session_store_wf(),
        ensures
            r matches Ok(Some(s)) ==> self.sessions().contains_key(address@) && *s
                == self.sessions()[address@],
            r matches Ok(None) ==> !self.sessions().contains_key(address@),
            self.session_store_reliable() ==> r is Ok,
    ;

    /// Takes the session record of `address` out of the store, to be
    /// stored back once updated.
    fn take_session(&mut self, address: &ProtocolAddress) -> (r: Result<Option<SessionRecord>>)
        requires
            old(self).session_store_wf(),
        ensures
            final(self).session_store_wf(),
            final(self).session_store_reliable() == old(self).session_store_reliable(),
            r matches Ok(Some(s)) ==> old(self).sessions().contains_key(address@) && s == old(
                self,
            ).sessions()[address@],
            r matches Ok(None) ==> !old(self).sessions().contains_key(address@),
            r is Ok ==> final(self).sessions() == old(self).sessions().remove(address@),
            r is Err ==> final(self).sessions() == old(self).sessions(),
            old(self).session_store_reliable() ==> r is Ok,
    ;

    /// Stores `record` as the session record of `address`.
    fn store_session(&mut self, address: &ProtocolAddress, record: SessionRecord) -> (r: Result<()>)
        requires
            old(self).session_store_wf(),
        ensures
            final(self).session_store_wf(),
            final(self).session_store_reliable() == old(self).session_store_reliable(),
            r is Ok ==> final(self).sessions() == old(self).sessions().insert(address@, record),
            r is Err ==> final(self).sessions() == old(self).sessions(),
            old(self).session_store_reliable() ==> r is Ok,
    ;
}

/// The one-time prekeys, by id.
///
/// A backend may fail; a failed call changes nothing.
pub trait PreKeyStore {
    /// The backend's own consistency.
    spec fn pre_key_store_wf(&self) -> bool;

    /// Whether no call can fail.
    spec fn pre_key_store_reliable(&self) -> bool;

    /// The one-time prekeys, by id.
    spec fn pre_keys(&self) -> Map<u32, PreKeyRecord>;

    /// The prekey `id`; one that is not stored (never saved, or used up)
    /// is reported as unavailable.
    fn get_pre_key(&self, id: PreKeyId) -> (r: Result<PreKeyRecord>)
        requires
            self.pre_key_store_wf(),
        ensures
            r matches Ok(k) ==> self.pre_keys().contains_key(id) && k == self.pre_keys()[id],
            self.pre_key_store_reliable() && self.pre_keys().contains_key(id) ==> r is Ok,
            self.pre_key_store_reliable() && !self.pre_keys().contains_key(id) ==> r == Err::<
                PreKeyRecord,
                _,
            >(SignalProtocolError::InvalidPreKeyId),
    ;

    /// Stores `record` as the prekey `id`.
    fn save_pre_key(&mut self, id: PreKeyId, record: &PreKeyRecord) -> (r: Result<()>)
        requires
            old(self).pre_key_store_wf(),
        ensures
            final(self).pre_key_store_wf(),
            final(self).pre_key_store_reliable() == old(self).pre_key_store_reliable(),
            r is Ok ==> final(self).pre_keys() == old(self).pre_keys().insert(id, *record),
            r is Err ==> final(self).pre_keys() == old(self).pre_keys(),
            old(self).pre_key_store_reliable() ==> r is Ok,
    ;

    /// Removes the prekey `id`; removing one that is not stored is no
    /// error.
    fn remove_pre_key(&mut self, id: PreKeyId) -> (r: Result<()>)
        requires
            old(self).pre_key_store_wf(),
        ensures
            final(self).pre_key_store_wf(),
            final(self).pre_key_store_reliable() == old(self).pre_key_store_reliable(),
            r is Ok ==> final(self).pre_keys() == old(self).pre_keys().remove(id),
            r is Err ==> final(self).pre_keys() == old(self).pre_keys(),
            old(self).pre_key_store_reliable() ==> r is Ok,
    ;
}

/// The signed prekeys, by id.
///
/// A backend may fail; a failed call changes nothing.
pub trait SignedPreKeyStore {
    /// The backend's own consistency.
    spec fn signed_pre_key_store_wf(&self) -> bool;

    /// Whether no call can fail.
    spec fn signed_pre_key_store_reliable(&self) -> bool;

    /// The signed prekeys, by id.
    spec fn signed_pre_keys(&self) -> Map<u32, SignedPreKeyRecord>;

    /// The signed prekey `id`.
    fn get_signed_pre_key(&self, id: SignedPreKeyId) -> (r: Result<&SignedPreKeyRecord>)
        requires
            self.signed_pre_key_store_wf(),
        ensures
            r matches Ok(k) ==> self.signed_pre_keys().contains_key(id) && *k
                == self.signed_pre_keys()[id],
            self.signed_pre_key_store_reliable() && self.signed_pre_keys().contains_key(id) ==> r is Ok,
            self.signed_pre_key_store_reliable() && !self.signed_pre_keys().contains_key(id) ==> r
                == Err::<&SignedPreKeyRecord, _>(SignalProtocolError::InvalidSignedPreKeyId),
    ;

    /// Stores `record` as the signed prekey `id`.
    fn save_signed_pre_key(&mut self, id: SignedPreKeyId, record: SignedPreKeyRecord) -> (r: Result<
        (),
    >)
        requires
            old(self).signed_pre_key_store_wf(),
        ensures
            final(self).signed_pre_key_store_wf(),
            final(self).signed_pre_key_store_reliable() == old(self).signed_pre_key_store_reliable(),
            r is Ok ==> final(self).signed_pre_keys() == old(self).signed_pre_keys().insert(id, record),
            r is Err ==> final(self).signed_pre_keys() == old(self).signed_pre_keys(),
            old(self).signed_pre_key_store_reliable() ==> r is Ok,
    ;
}

/// The sender-key records, by sender and distribution.
///
/// A backend may fail; a failed call changes nothing.
pub trait SenderKeyStore {
    /// The backend's own consistency.
    spec fn sender_key_store_wf(&self) -> bool;

    /// Whether no call can fail.
    spec fn sender_key_store_reliable(&self) -> bool;

    /// The sender-key records, by sender and distribution.
    spec fn sender_keys(&self) -> Map<((Seq<char>, u32), Seq<u8>), SenderKeyRecord>;

    /// Stores `record` for `sender` and the distribution `distribution_id`.
    fn store_sender_key(
        &mut self,
        sender: &ProtocolAddress,
        distribution_id: MyUuid,
        record: SenderKeyRecord,
    ) -> (r: Result<()>)
        requires
            old(self).sender_key_store_wf(),
        ensures
            final(self).sender_key_store_wf(),
            final(self).sender_key_store_reliable() == old(self).sender_key_store_reliable(),
            r is Ok ==> final(self).sender_keys() == old(self).sender_keys().insert(
                (sender@, distribution_id@),
                record,
            ),
            r is Err ==> final(self).sender_keys() == old(self).sender_keys(),
            old(self).sender_key_store_reliable() ==> r is Ok,
    ;

    /// The record for `sender` and the distribution `distribution_id`;
    /// absent when there is none yet.
    fn load_sender_key(&self, sender: &ProtocolAddress, distribution_id: MyUuid) -> (r: Result<
        Option<&SenderKeyRecord>,
    >)
        requires
            self.sender_key_store_wf(),
        ensures
            r matches Ok(Some(k)) ==> self.sender_keys().contains_key((sender@, distribution_id@))
                && *k == self.sender_keys()[(sender@, distribution_id@)],
            r matches Ok(None) ==> !self.sender_keys().contains_key((sender@, distribution_id@)),
            self.sender_key_store_reliable() ==> r is Ok,
    ;
}

/// The key of a sender-key record: the sender and the distribution.
#[derive(Debug, Clone)]
pub struct SenderKeyName {
    pub sender: ProtocolAddress,
    pub distribution_id: MyUuid,
}

impl View for SenderKeyName {
    type V = ((Seq<char>, u32), Seq<u8>);

    open spec fn view(&self) -> ((Seq<char>, u32), Seq<u8>) {
        (self.sender@, self.distribution_id@)
    }
}

impl TableKey for SenderKeyName {
    fn same(&self, other: &SenderKeyName) -> (r: bool) {
        self.sender.same_address(&other.sender) && self.distribution_id.same_id(
            &other.distribution_id,
        )
    }
}

/// The local identity and the remote identities, held in memory.
pub struct InMemIdentityKeyStore {
    identity_key_pair: IdentityKeyPair,
    registration_id: u32,
    identities: Table<ProtocolAddress, IdentityKey>,
}

impl InMemIdentityKeyStore {
    /// A store for the local identity `key_pair`, with no remote identity.
    pub fn new(key_pair: IdentityKeyPair, registration_id: u32) -> (r: InMemIdentityKeyStore)
        ensures
            r.identity_store_wf(),
            r.local_identity() == key_pair,
            r.local_registration() == registration_id,
            r.identities() == Map::<(Seq<char>, u32), IdentityKey>::empty(),
    {
        InMemIdentityKeyStore { identity_key_pair: key_pair, registration_id, identities: Table::new() }
    }
}

impl IdentityKeyStore for InMemIdentityKeyStore {
    closed spec fn identity_store_wf(&self) -> bool {
        self.identities.inv()
    }

    open spec fn identity_store_reliable(&self) -> bool {
        true
    }

    closed spec fn local_identity(&self) -> IdentityKeyPair {
        self.identity_key_pair
    }

    closed spec fn local_registration(&self) -> u32 {
        self.registration_id
    }

    closed spec fn identities(&self) -> Map<(Seq<char>, u32), IdentityKey> {
        self.identities@
    }

    fn get_identity_key_pair(&self) -> (r: Result<IdentityKeyPair>) {
        Ok(self.identity_key_pair)
    }

    fn get_local_registration_id(&self) -> (r: Result<u32>) {
        Ok(self.registration_id)
    }

    fn save_identity(&mut self, address: &ProtocolAddress, identity: &IdentityKey) -> (r: Result<
        bool,
    >) {
        let changed = match self.identities.get(address) {
            Some(known) => !known.same_identity(identity),
            None => false,
        };
        self.identities.insert(address.copy(), *identity);
        Ok(changed)
    }

    fn get_identity(&self, address: &ProtocolAddress) -> (r: Result<Option<IdentityKey>>) {
        match self.identities.get(address) {
            Some(k) => Ok(Some(*k)),
            None => Ok(None),
        }
    }

    fn is_trusted_identity(&self, address: &ProtocolAddress, identity: &IdentityKey) -> (r: Result<
        bool,
    >) {
        match self.identities.get(address) {
            Some(known) => Ok(known.same_identity(identity)),
            None => Ok(true),
        }
    }
}

/// Session records held in memory.
pub struct InMemSessionStore {
    sessions: Table<ProtocolAddress, SessionRecord>,
}

impl InMemSessionStore {
    /// A store with no session.
    pub fn new() -> (r: InMemSessionStore)
        ensures
            r.session_store_wf(),
            r.sessions() == Map::<(Seq<char>, u32), SessionRecord>::empty(),
    {
        InMemSessionStore { sessions: Table::new() }
    }
}

impl SessionStore for InMemSessionStore {
    closed spec fn session_store_wf(&self) -> bool {
        self.sessions.inv()
    }

    open spec fn session_store_reliable(&self) -> bool {
        true
    }

    closed spec fn sessions(&self) -> Map<(Seq<char>, u32), SessionRecord> {
        self.sessions@
    }

    fn load_session(&self, address: &ProtocolAddress) -> (r: Result<Option<&SessionRecord>>) {
        Ok(self.sessions.get(address))
    }

    fn take_session(&mut self, address: &ProtocolAddress) -> (r: Result<Option<SessionRecord>>) {
        Ok(self.sessions.take(address))
    }

    fn store_session(&mut self, address: &ProtocolAddress, record: SessionRecord) -> (r: Result<()>) {
        self.sessions.insert(address.copy(), record);
        Ok(())
    }
}

/// One-time prekeys held in memory.
pub struct InMemPreKeyStore {
    pre_keys: Table<u32, PreKeyRecord>,
}

impl InMemPreKeyStore {
    /// A store with no prekey.
    pub fn new() -> (r: InMemPreKeyStore)
        ensures
            r.pre_key_store_wf(),
            r.pre_keys() == Map::<u32, PreKeyRecord>::empty(),
    {
        InMemPreKeyStore { pre_keys: Table::new() }
    }
}

impl PreKeyStore for InMemPreKeyStore {
    closed spec fn pre_key_store_wf(&self) -> bool {
        self.pre_keys.inv()
    }

    open spec fn pre_key_store_reliable(&self) -> bool {
        true
    }

    closed spec fn pre_keys(&self) -> Map<u32, PreKeyRecord> {
        self.pre_keys@
    }

    fn get_pre_key(&self, id: PreKeyId) -> (r: Result<PreKeyRecord>) {
        match self.pre_keys.get(&id) {
            Some(k) => Ok(*k),
            None => Err(SignalProtocolError::InvalidPreKeyId),
        }
    }

    fn save_pre_key(&mut self, id: PreKeyId, record: &PreKeyRecord) -> (r: Result<()>) {
        self.pre_keys.insert(id, *record);
        Ok(())
    }

    fn remove_pre_key(&mut self, id: PreKeyId) -> (r: Result<()>) {
        self.pre_keys.remove(&id);
        Ok(())
    }
}

/// Signed prekeys held in memory.
pub struct InMemSignedPreKeyStore {
    signed_pre_keys: Table<u32, SignedPreKeyRecord>,
}

impl InMemSignedPreKeyStore {
    /// A store with no signed prekey.
    pub fn new() -> (r: InMemSignedPreKeyStore)
        ensures
            r.signed_pre_key_store_wf(),
            r.signed_pre_keys() == Map::<u32, SignedPreKeyRecord>::empty(),
    {
        InMemSignedPreKeyStore { signed_pre_keys: Table::new() }
    }
}

impl SignedPreKeyStore for InMemSignedPreKeyStore {
    closed spec fn signed_pre_key_store_wf(&self) -> bool {
        self.signed_pre_keys.inv()
    }

    open spec fn signed_pre_key_store_reliable(&self) -> bool {
        true
    }

    closed spec fn signed_pre_keys(&self) -> Map<u32, SignedPreKeyRecord> {
        self.signed_pre_keys@
    }

    fn get_signed_pre_key(&self, id: SignedPreKeyId) -> (r: Result<&SignedPreKeyRecord>) {
        match self.signed_pre_keys.get(&id) {
            Some(k) => Ok(k),
            None => Err(SignalProtocolError::InvalidSignedPreKeyId),
        }
    }

    fn save_signed_pre_key(&mut self, id: SignedPreKeyId, record: SignedPreKeyRecord) -> (r: Result<
        (),
    >) {
        self.signed_pre_keys.insert(id, record);
        Ok(())
    }
}

/// Sender-key records held in memory.
pub struct InMemSenderKeyStore {
    sender_keys: Table<SenderKeyName, SenderKeyRecord>,
}

impl InMemSenderKeyStore {
    /// A store with no record.
    pub fn new() -> (r: InMemSenderKeyStore)
        ensures
            r.sender_key_store_wf(),
            r.sender_keys() == Map::<((Seq<char>, u32), Seq<u8>), SenderKeyRecord>::empty(),
    {
        InMemSenderKeyStore { sender_keys: Table::new() }
    }
}

impl SenderKeyStore for InMemSenderKeyStore {
    closed spec fn sender_key_store_wf(&self) -> bool {
        self.sender_keys.inv()
    }

    open spec fn sender_key_store_reliable(&self) -> bool {
        true
    }

    closed spec fn sender_keys(&self) -> Map<((Seq<char>, u32), Seq<u8>), SenderKeyRecord> {
        self.sender_keys@
    }

    fn store_sender_key(
        &mut self,
        sender: &ProtocolAddress,
        distribution_id: MyUuid,
        record: SenderKeyRecord,
    ) -> (r: Result<()>) {
        let name = SenderKeyName { sender: sender.copy(), distribution_id };
        self.sender_keys.insert(name, record);
        Ok(())
    }

    fn load_sender_key(&self, sender: &ProtocolAddress, distribution_id: MyUuid) -> (r: Result<
        Option<&SenderKeyRecord>,
    >) {
        let name = SenderKeyName { sender: sender.copy(), distribution_id };
        Ok(self.sender_keys.get(&name))
    }
}

/// All five stores, held in memory.
pub struct InMemSignalProtocolStore {
    pub identity_store: InMemIdentityKeyStore,
    pub session_store: InMemSessionStore,
    pub pre_key_store: InMemPreKeyStore,
    pub signed_pre_key_store: InMemSignedPreKeyStore,
    pub sender_key_store: InMemSenderKeyStore,
}

impl InMemSignalProtocolStore {
    /// All five stores are consistent.
    pub open spec fn inv(&self) -> bool {
        &&& self.identity_store.identity_store_wf()
        &&& self.session_store.session_store_wf()
        &&& self.pre_key_store.pre_key_store_wf()
        &&& self.signed_pre_key_store.signed_pre_key_store_wf()
        &&& self.sender_key_store.sender_key_store_wf()
    }

    /// Empty stores for the local identity `key_pair`.
    pub fn new(key_pair: &IdentityKeyPair, registration_id: u32) -> (r: Result<
        InMemSignalProtocolStore,
    >)
        ensures
            r matches Ok(s) && s.inv() && s.identity_store.local_identity() == *key_pair
                && s.identity_store.local_registration() == registration_id
                && s.identity_store.identities().is_empty() && s.session_store.sessions().is_empty()
                && s.pre_key_store.pre_keys().is_empty()
                && s.signed_pre_key_store.signed_pre_keys().is_empty()
                && s.sender_key_store.sender_keys().is_empty(),
    {
        Ok(InMemSignalProtocolStore {
            identity_store: InMemIdentityKeyStore::new(*key_pair, registration_id),
            session_store: InMemSessionStore::new(),
            pre_key_store: InMemPreKeyStore::new(),
            signed_pre_key_store: InMemSignedPreKeyStore::new(),
            sender_key_store: InMemSenderKeyStore::new(),
        })
    }

    /// The local identity key pair.
    pub fn get_identity_key_pair(&self) -> (r: Result<IdentityKeyPair>)
        requires
            self.inv(),
        ensures
            r == Ok::<IdentityKeyPair, SignalProtocolError>(self.identity_store.local_identity()),
    {
        self.identity_store.get_identity_key_pair()
    }

    /// The local registration id.
    pub fn get_local_registration_id(&self) -> (r: Result<u32>)
        requires
            self.inv(),
        ensures
            r == Ok::<u32, SignalProtocolError>(self.identity_store.local_registration()),
    {
        self.identity_store.get_local_registration_id()
    }

    /// Records `identity` for `address`; the result tells whether it
    /// replaced a different identity.
    pub fn save_identity(&mut self, address: &ProtocolAddress, identity: &IdentityKey) -> (r:
        Result<bool>)
        requires
            old(self).inv(),
        ensures
            final(self).inv(),
            r == Ok::<bool, SignalProtocolError>(old(self).identity_store.identities().contains_key(
                address@,
            ) && old(self).identity_store.identities()[address@]@ != identity@),
            final(self).identity_store.identities() == old(self).identity_store.identities().insert(
                address@,
                *identity,
            ),
    {
        self.identity_store.save_identity(address, identity)
    }

    /// The identity on record for `address`, if any.
    pub fn get_identity(&self, address: &ProtocolAddress) -> (r: Result<Option<IdentityKey>>)
        requires
            self.inv(),
        ensures
            r matches Ok(Some(k)) ==> self.identity_store.identities().contains_key(address@) && k
                == self.identity_store.identities()[address@],
            r matches Ok(None) ==> !self.identity_store.identities().contains_key(address@),
            r is Ok,
    {
        self.identity_store.get_identity(address)
    }

    /// The session record of `address`; absent when there is none yet.
    pub fn load_session(&self, address: &ProtocolAddress) -> (r: Result<Option<&SessionRecord>>)
        requires
            self.inv(),
        ensures
            r matches Ok(Some(s)) ==> self.session_store.sessions().contains_key(address@) && *s
                == self.session_store.sessions()[address@],
            r matches Ok(None) ==> !self.session_store.sessions().contains_key(address@),
            r is Ok,
    {
        self.session_store.load_session(address)
    }

    /// Stores `record` as the session record of `address`.
    pub fn store_session(&mut self, address: &ProtocolAddress, record: SessionRecord) -> (r:
        Result<()>)
        requires
            old(self).inv(),
        ensures
            final(self).inv(),
            r is Ok,
            final(self).session_store.sessions() == old(self).session_store.sessions().insert(
                address@,
                record,
            ),
    {
        self.session_store.store_session(address, record)
    }

    /// The one-time prekey `id`; one that is not stored is reported as
    /// unavailable.
    pub fn get_pre_key(&self, id: PreKeyId) -> (r: Result<PreKeyRecord>)
        requires
            self.inv(),
        ensures
            self.pre_key_store.pre_keys().contains_key(id) ==> r == Ok::<
                PreKeyRecord,
                SignalProtocolError,
            >(self.pre_key_store.pre_keys()[id]),
            !self.pre_key_store.pre_keys().contains_key(id) ==> r == Err::<PreKeyRecord, _>(
                SignalProtocolError::InvalidPreKeyId,
            ),
    {
        self.pre_key_store.get_pre_key(id)
    }

    /// Stores `record` as the one-time prekey `id`.
    pub fn save_pre_key(&mut self, id: PreKeyId, record: &PreKeyRecord) -> (r: Result<()>)
        requires
            old(self).inv(),
        ensures
            final(self).inv(),
            r is Ok,
            final(self).pre_key_store.pre_keys() == old(self).pre_key_store.pre_keys().insert(
                id,
                *record,
            ),
    {
        self.pre_key_store.save_pre_key(id, record)
    }

    /// Removes the one-time prekey `id`; removing one that is not stored
    /// is no error.
    pub fn remove_pre_key(&mut self, id: PreKeyId) -> (r: Result<()>)
        requires
            old(self).inv(),
        ensures
            final(self).inv(),
            r is Ok,
            final(self).pre_key_store.pre_keys() == old(self).pre_key_store.pre_keys().remove(id),
    {
        self.pre_key_store.remove_pre_key(id)
    }

    /// The signed prekey `id`.
    pub fn get_signed_pre_key(&self, id: SignedPreKeyId) -> (r: Result<&SignedPreKeyRecord>)
        requires
            self.inv(),
        ensures
            r matches Ok(k) ==> self.signed_pre_key_store.signed_pre_keys().contains_key(id) && *k
                == self.signed_pre_key_store.signed_pre_keys()[id],
            self.signed_pre_key_store.signed_pre_keys().contains_key(id) ==> r is Ok,
            !self.signed_pre_key_store.signed_pre_keys().contains_key(id) ==> r == Err::<
                &SignedPreKeyRecord,
                _,
            >(SignalProtocolError::InvalidSignedPreKeyId),
    {
        self.signed_pre_key_store.get_signed_pre_key(id)
    }

    /// Stores `record` as the signed prekey `id`.
    pub fn save_signed_pre_key(&mut self, id: SignedPreKeyId, record: SignedPreKeyRecord) -> (r:
        Result<()>)
        requires
            old(self).inv(),
        ensures
            final(self).inv(),
            r is Ok,
            final(self).signed_pre_key_store.signed_pre_keys() == old(
                self,
            ).signed_pre_key_store.signed_pre_keys().insert(id, record),
    {
        self.signed_pre_key_store.save_signed_pre_key(id, record)
    }

    /// Stores `record` for `sender` and the distribution whose id is
    /// written in `distribution_id`; text that is no identifier is refused.
    pub fn store_sender_key(
        &mut self,
        sender: &ProtocolAddress,
        distribution_id: &str,
        record: SenderKeyRecord,
    ) -> (r: Result<()>)
        requires
            old(self).inv(),
        ensures
            final(self).inv(),
            match uuid_parse(distribution_id@) {
                Some(id) => r is Ok && final(self).sender_key_store.sender_keys() == old(
                    self,
                ).sender_key_store.sender_keys().insert((sender@, id), record),
                None => r == Err::<(), _>(SignalProtocolError::InvalidArgument)
                    && final(self).sender_key_store.sender_keys() == old(
                    self,
                ).sender_key_store.sender_keys(),
            },
    {
        match MyUuid::parse(distribution_id) {
            Some(id) => self.sender_key_store.store_sender_key(sender, id, record),
            None => Err(SignalProtocolError::InvalidArgument),
        }
    }

    /// The record for `sender` and the distribution whose id is written
    /// in `distribution_id`; absent when there is none yet; text that is
    /// no identifier is refused.
    pub fn load_sender_key(&self, sender: &ProtocolAddress, distribution_id: &str) -> (r: Result<
        Option<&SenderKeyRecord>,
    >)
        requires
            self.inv(),
        ensures
            match uuid_parse(distribution_id@) {
                Some(id) => {
                    &&& r is Ok
                    &&& r matches Ok(Some(k)) ==> self.sender_key_store.sender_keys().contains_key(
                        (sender@, id),
                    ) && *k == self.sender_key_store.sender_keys()[(sender@, id)]
                    &&& r matches Ok(None) ==> !self.sender_key_store.sender_keys().contains_key(
                        (sender@, id),
                    )
                },
                None => r == Err::<Option<&SenderKeyRecord>, _>(
                    SignalProtocolError::InvalidArgument,
                ),
            },
    {
        match MyUuid::parse(distribution_id) {
            Some(id) => self.sender_key_store.load_sender_key(sender, id),
            None => Err(SignalProtocolError::InvalidArgument),
        }
    }
}

} // verus!
