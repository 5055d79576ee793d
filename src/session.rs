use vstd::prelude::*;

use crate::address::ProtocolAddress;
use crate::curve::KeyPair;
use crate::error::{Result, SignalProtocolError};
use crate::identity_key::IdentityKey;
use crate::protocol::PreKeySignalMessage;
use crate::state::{
    archived_with, PreKeyBundle, PreKeyId, PreKeyRecord, SessionRecord, SessionState,
    SignedPreKeyRecord,
};
use crate::storage::{IdentityKeyStore, PreKeyStore, SessionStore, SignedPreKeyStore};

verus! {

/// Whether `identity` may be used for `address` given the identities on
/// record: it is the one on record, or there is none yet.
pub open spec fn trusted(
    identities: Map<(Seq<char>, u32), IdentityKey>,
    address: (Seq<char>, u32),
    identity: Seq<u8>,
) -> bool {
    !identities.contains_key(address) || identities[address]@ == identity
}

/// The decision on a fetched bundle, made before any key is derived from
/// it: the bundle's identity must be trusted for the address, and the
/// signature over its signed prekey must verify (`signature_valid`,
/// checked against the bundle's identity key).
pub fn check_prekey_bundle<I: IdentityKeyStore>(
    remote_address: &ProtocolAddress,
    identity_store: &I,
    bundle: &PreKeyBundle,
    signature_valid: bool,
) -> (r: Result<()>)
    requires
        identity_store.identity_store_wf(),
    ensures
        r is Ok ==> trusted(identity_store.identities(), remote_address@, bundle.identity_key@)
            && signature_valid,
        identity_store.identity_store_reliable() ==> {
            let t = trusted(identity_store.identities(), remote_address@, bundle.identity_key@);
            &&& !t ==> r == Err::<(), _>(SignalProtocolError::UntrustedIdentity)
            &&& t && !signature_valid ==> r == Err::<(), _>(
                SignalProtocolError::SignatureVerificationFailed,
            )
            &&& t && signature_valid ==> r is Ok
        },
{
    let is_trusted = identity_store.is_trusted_identity(remote_address, &bundle.identity_key)?;
    if !is_trusted {
        return Err(SignalProtocolError::UntrustedIdentity);
    }
    if !signature_valid {
        return Err(SignalProtocolError::SignatureVerificationFailed);
    }
    Ok(())
}

/// Whether `record` is what the record of `address` in `sessions` becomes
/// when `state` is made its current session: the earlier current session,
/// if any, is archived.
pub open spec fn sessions_with(
    sessions: Map<(Seq<char>, u32), SessionRecord>,
    address: (Seq<char>, u32),
    state: SessionState,
    record: SessionRecord,
) -> bool {
    &&& record.current() == Some(state)
    &&& record.wf()
    &&& if sessions.contains_key(address) {
        let before = sessions[address];
        record.previous() == match before.current() {
            Some(s) => archived_with(before.previous(), s),
            None => before.previous(),
        }
    } else {
        record.previous().len() == 0
    }
}

/// Every stored session record is well-formed.
pub open spec fn records_wf(sessions: Map<(Seq<char>, u32), SessionRecord>) -> bool {
    forall|k: (Seq<char>, u32)| #[trigger] sessions.contains_key(k) ==> sessions[k].wf()
}

/// Makes `state` the current session of `address`, archiving the earlier
/// one, and stores the record.
fn promote_session<S: SessionStore>(
    session_store: &mut S,
    address: &ProtocolAddress,
    state: SessionState,
) -> (r: Result<()>)
    requires
        old(session_store).session_store_wf(),
        records_wf(old(session_store).sessions()),
    ensures
        final(session_store).session_store_wf(),
        final(session_store).session_store_reliable() == old(session_store).session_store_reliable(),
        old(session_store).session_store_reliable() ==> r is Ok,
        r is Ok ==> final(session_store).sessions().contains_key(address@) && sessions_with(
            old(session_store).sessions(),
            address@,
            state,
            final(session_store).sessions()[address@],
        ) && final(session_store).sessions().remove(address@) == old(
            session_store,
        ).sessions().remove(address@),
        r is Err ==> final(session_store).sessions() == old(session_store).sessions(),
{
    let mut record = match session_store.load_session(address)? {
        Some(existing) => existing.copy(),
        None => SessionRecord::new_fresh(),
    };
    record.promote_state(state);
    let ghost stored = record;
    session_store.store_session(address, record)?;
    assert(session_store.sessions().remove(address@) =~= old(session_store).sessions().remove(
        address@,
    ));
    assert(session_store.sessions()[address@] == stored);
    Ok(())
}

/// Whether `session` is one that an initiator may derive from a bundle
/// with identity `identity`: it names that identity as the remote one and
/// has a sending chain.
pub open spec fn session_fits_bundle(session: SessionState, identity: Seq<u8>) -> bool {
    &&& session.remote_identity_key matches Some(k) && k@ == identity
    &&& session.sender_chain is Some
}

/// Sets up the session that an initiator derived from a fetched bundle:
/// when the bundle passes [`check_prekey_bundle`] and `session` fits it
/// (see [`session_fits_bundle`]; otherwise `InvalidArgument`), the bundle's
/// identity is recorded and `session` becomes the current session of the
/// address (the earlier one is archived). Both stores are written, so they
/// must be stores that never fail; a refused call changes neither.
pub fn process_prekey_bundle<S: SessionStore, I: IdentityKeyStore>(
    remote_address: &ProtocolAddress,
    session_store: &mut S,
    identity_store: &mut I,
    bundle: &PreKeyBundle,
    signature_valid: bool,
    session: SessionState,
) -> (r: Result<()>)
    requires
        old(session_store).session_store_wf(),
        old(identity_store).identity_store_wf(),
        old(session_store).session_store_reliable(),
        old(identity_store).identity_store_reliable(),
        records_wf(old(session_store).sessions()),
    ensures
        final(session_store).session_store_wf(),
        final(identity_store).identity_store_wf(),
        final(session_store).session_store_reliable(),
        final(identity_store).identity_store_reliable(),
        ({
            let t = trusted(old(identity_store).identities(), remote_address@, bundle.identity_key@);
            let fits = session_fits_bundle(session, bundle.identity_key@);
            &&& !t ==> r == Err::<(), _>(SignalProtocolError::UntrustedIdentity)
            &&& t && !signature_valid ==> r == Err::<(), _>(
                SignalProtocolError::SignatureVerificationFailed,
            )
            &&& t && signature_valid && !fits ==> r == Err::<(), _>(
                SignalProtocolError::InvalidArgument,
            )
            &&& t && signature_valid && fits ==> r is Ok
        }),
        r is Err ==> final(session_store).sessions() == old(session_store).sessions()
            && final(identity_store).identities() == old(identity_store).identities(),
        r is Ok ==> {
            &&& final(session_store).sessions().contains_key(remote_address@)
            &&& sessions_with(
                old(session_store).sessions(),
                remote_address@,
                session,
                final(session_store).sessions()[remote_address@],
            )
            &&& final(session_store).sessions().remove(remote_address@) == old(
                session_store,
            ).sessions().remove(remote_address@)
            &&& final(identity_store).identities() == old(identity_store).identities().insert(
                remote_address@,
                bundle.identity_key,
            )
        },
{
    check_prekey_bundle(remote_address, identity_store, bundle, signature_valid)?;
    let fits = match session.remote_identity_key {
        Some(k) => k.same_identity(&bundle.identity_key) && session.sender_chain.is_some(),
        None => false,
    };
    if !fits {
        return Err(SignalProtocolError::InvalidArgument);
    }
    identity_store.save_identity(remote_address, &bundle.identity_key)?;
    promote_session(session_store, remote_address, session)?;
    Ok(())
}

/// What a responder needs to answer a prekey message.
#[derive(Debug, Clone, Copy)]
pub enum PreKeyBootstrap {
    /// The current session was already set up from this message's base key.
    Existing,
    /// A new session is to be derived with these key pairs: the signed
    /// prekey, and the one-time prekey where the message names one.
    Fresh { signed_pre_key: KeyPair, one_time_pre_key: Option<KeyPair> },
}

/// Whether the current session of `address` was set up from `base_key`.
pub open spec fn has_session_from(
    sessions: Map<(Seq<char>, u32), SessionRecord>,
    address: (Seq<char>, u32),
    base_key: Seq<u8>,
) -> bool {
    sessions.contains_key(address) && (sessions[address].current() matches Some(s)
        && s.alice_base_key@ == base_key)
}

/// The first refusal that a prekey message meets, if any: an identity
/// that is not trusted, then (unless the current session already comes
/// from the message's base key) a signed prekey or a one-time prekey that
/// is not, or no longer, in the store.
pub open spec fn pre_key_message_refusal(
    identities: Map<(Seq<char>, u32), IdentityKey>,
    sessions: Map<(Seq<char>, u32), SessionRecord>,
    signed_pre_keys: Map<u32, SignedPreKeyRecord>,
    pre_keys: Map<u32, PreKeyRecord>,
    address: (Seq<char>, u32),
    message: PreKeySignalMessage,
) -> Option<SignalProtocolError> {
    if !trusted(identities, address, message.identity_key@) {
        Some(SignalProtocolError::UntrustedIdentity)
    } else if has_session_from(sessions, address, message.base_key@) {
        None
    } else if !signed_pre_keys.contains_key(message.signed_pre_key_id) {
        Some(SignalProtocolError::InvalidSignedPreKeyId)
    } else if (message.pre_key_id matches Some(id) && !pre_keys.contains_key(id)) {
        Some(SignalProtocolError::InvalidPreKeyId)
    } else {
        None
    }
}

/// Decides how to answer the prekey message `message` from `address`:
/// refused (see [`pre_key_message_refusal`]), already answered, or a new
/// session to derive from the key pairs returned.
pub fn pre_key_message_keys<I: IdentityKeyStore, S: SessionStore, P: PreKeyStore, Q: SignedPreKeyStore>(
    identity_store: &I,
    session_store: &S,
    pre_key_store: &P,
    signed_pre_key_store: &Q,
    address: &ProtocolAddress,
    message: &PreKeySignalMessage,
) -> (r: Result<PreKeyBootstrap>)
    requires
        identity_store.identity_store_wf(),
        session_store.session_store_wf(),
        pre_key_store.pre_key_store_wf(),
        signed_pre_key_store.signed_pre_key_store_wf(),
    ensures
        ({
            let refusal = pre_key_message_refusal(
                identity_store.identities(),
                session_store.sessions(),
                signed_pre_key_store.signed_pre_keys(),
                pre_key_store.pre_keys(),
                address@,
                *message,
            );
            &&& r matches Ok(PreKeyBootstrap::Existing) ==> refusal is None && has_session_from(
                session_store.sessions(),
                address@,
                message.base_key@,
            )
            &&& r matches Ok(PreKeyBootstrap::Fresh { signed_pre_key, one_time_pre_key }) ==> {
                &&& refusal is None
                &&& !has_session_from(session_store.sessions(), address@, message.base_key@)
                &&& signed_pre_key == signed_pre_key_store.signed_pre_keys()[message.signed_pre_key_id].key_pair
                &&& match message.pre_key_id {
                    Some(id) => one_time_pre_key == Some(pre_key_store.pre_keys()[id].key_pair),
                    None => one_time_pre_key is None,
                }
            }
            &&& identity_store.identity_store_reliable() && session_store.session_store_reliable()
                && pre_key_store.pre_key_store_reliable()
                && signed_pre_key_store.signed_pre_key_store_reliable() ==> match refusal {
                Some(e) => r == Err::<PreKeyBootstrap, _>(e),
                None => r is Ok,
            }
        }),
{
    let is_trusted = identity_store.is_trusted_identity(address, &message.identity_key)?;
    if !is_trusted {
        return Err(SignalProtocolError::UntrustedIdentity);
    }
    match session_store.load_session(address)? {
        Some(record) => match record.session_state() {
            Some(state) => {
                if state.alice_base_key.same_key(&message.base_key) {
                    return Ok(PreKeyBootstrap::Existing);
                }
            },
            None => {},
        },
        None => {},
    }
    let signed = signed_pre_key_store.get_signed_pre_key(message.signed_pre_key_id)?;
    let signed_pre_key = signed.key_pair;
    let one_time_pre_key = match message.pre_key_id {
        Some(id) => Some(pre_key_store.get_pre_key(id)?.key_pair),
        None => None,
    };
    Ok(PreKeyBootstrap::Fresh { signed_pre_key, one_time_pre_key })
}

/// Sets up the session that a responder derived for the prekey message
/// `message` from `address`: when `session` names the message's identity
/// as the remote one (otherwise `InvalidArgument`), the identity is
/// recorded, `session` becomes the current session (the earlier one is
/// archived), and the one-time prekey the message names is used up. The
/// result is that prekey's id. Three stores are written, so they must be
/// stores that never fail; a refused call changes none of them.
pub fn complete_pre_key_message<I: IdentityKeyStore, S: SessionStore, P: PreKeyStore>(
    identity_store: &mut I,
    session_store: &mut S,
    pre_key_store: &mut P,
    address: &ProtocolAddress,
    message: &PreKeySignalMessage,
    session: SessionState,
) -> (r: Result<Option<PreKeyId>>)
    requires
        old(identity_store).identity_store_wf(),
        old(session_store).session_store_wf(),
        old(pre_key_store).pre_key_store_wf(),
        old(identity_store).identity_store_reliable(),
        old(session_store).session_store_reliable(),
        old(pre_key_store).pre_key_store_reliable(),
        records_wf(old(session_store).sessions()),
    ensures
        final(identity_store).identity_store_wf(),
        final(session_store).session_store_wf(),
        final(pre_key_store).pre_key_store_wf(),
        final(identity_store).identity_store_reliable(),
        final(session_store).session_store_reliable(),
        final(pre_key_store).pre_key_store_reliable(),
        (session.remote_identity_key matches Some(k) && k@ == message.identity_key@) ==> r
            == Ok::<Option<PreKeyId>, SignalProtocolError>(message.pre_key_id),
        !(session.remote_identity_key matches Some(k) && k@ == message.identity_key@) ==> r
            == Err::<Option<PreKeyId>, _>(SignalProtocolError::InvalidArgument),
        r is Err ==> final(identity_store).identities() == old(identity_store).identities()
            && final(session_store).sessions() == old(session_store).sessions()
            && final(pre_key_store).pre_keys() == old(pre_key_store).pre_keys(),
        r is Ok ==> {
            &&& final(identity_store).identities() == old(identity_store).identities().insert(
                address@,
                message.identity_key,
            )
            &&& final(session_store).sessions().contains_key(address@)
            &&& sessions_with(
                old(session_store).sessions(),
                address@,
                session,
                final(session_store).sessions()[address@],
            )
            &&& final(session_store).sessions().remove(address@) == old(
                session_store,
            ).sessions().remove(address@)
            &&& match message.pre_key_id {
                Some(id) => final(pre_key_store).pre_keys() == old(pre_key_store).pre_keys().remove(
                    id,
                ),
                None => final(pre_key_store).pre_keys() == old(pre_key_store).pre_keys(),
            }
        },
{
    let fits = match session.remote_identity_key {
        Some(k) => k.same_identity(&message.identity_key),
        None => false,
    };
    if !fits {
        return Err(SignalProtocolError::InvalidArgument);
    }
    identity_store.save_identity(address, &message.identity_key)?;
    promote_session(session_store, address, session)?;
    match message.pre_key_id {
        Some(id) => {
            pre_key_store.remove_pre_key(id)?;
        },
        None => {},
    }
    Ok(message.pre_key_id)
}

/// A one-time prekey serves one session only: once a prekey message that
/// names it has been answered, a further message that names it, with a
/// trusted identity, a known signed prekey and a base key of no current
/// session, is refused as naming an unavailable prekey.
pub proof fn lemma_one_time_prekey_consumed(
    pre_keys_before: Map<u32, PreKeyRecord>,
    first: PreKeySignalMessage,
    identities: Map<(Seq<char>, u32), IdentityKey>,
    sessions: Map<(Seq<char>, u32), SessionRecord>,
    signed_pre_keys: Map<u32, SignedPreKeyRecord>,
    second: PreKeySignalMessage,
    second_address: (Seq<char>, u32),
)
    requires
        first.pre_key_id is Some,
        second.pre_key_id == first.pre_key_id,
        trusted(identities, second_address, second.identity_key@),
        !has_session_from(sessions, second_address, second.base_key@),
        signed_pre_keys.contains_key(second.signed_pre_key_id),
    ensures
        pre_key_message_refusal(
            identities,
            sessions,
            signed_pre_keys,
            pre_keys_before.remove(first.pre_key_id.unwrap()),
            second_address,
            second,
        ) == Some(SignalProtocolError::InvalidPreKeyId),
{
}

} // verus!
