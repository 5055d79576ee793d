use vstd::prelude::*;

use crate::address::ProtocolAddress;
use crate::chain::{receive_spec, ChainWindow, Delivery};
use crate::codec::valid_version;
use crate::curve::KeyPair;
use crate::error::{Result, SignalProtocolError};
use crate::protocol::SenderKeyDistributionMessage;
use crate::sender_keys::{states_with, SenderKeyRecord, SenderKeyState};
use crate::storage::SenderKeyStore;
use crate::uuid::MyUuid;

verus! {

/// The message version of the sender-key chains that this library creates.
pub const SENDERKEY_MESSAGE_CURRENT_VERSION: u8 = 3;

/// The state that a distribution message describes, as its recipient
/// keeps it: without the private signing key.
pub open spec fn state_of_distribution(m: SenderKeyDistributionMessage) -> SenderKeyState {
    SenderKeyState {
        message_version: m.message_version,
        chain_id: m.chain_id,
        iteration: m.iteration,
        chain_key: m.chain_key,
        signing_key: m.signing_key,
        signing_private_key: None,
    }
}

/// The states kept for `key` in `keys`, none if there is no record.
pub open spec fn stored_states(
    keys: Map<((Seq<char>, u32), Seq<u8>), SenderKeyRecord>,
    key: ((Seq<char>, u32), Seq<u8>),
) -> Seq<SenderKeyState> {
    if keys.contains_key(key) {
        keys[key].states()
    } else {
        Seq::empty()
    }
}

/// Records the chain that `skdm` publishes for `sender`: it becomes the
/// most recent state of the sender's record for the distribution.
pub fn process_sender_key_distribution_message<K: SenderKeyStore>(
    sender: &ProtocolAddress,
    skdm: &SenderKeyDistributionMessage,
    store: &mut K,
) -> (r: Result<()>)
    requires
        old(store).sender_key_store_wf(),
    ensures
        final(store).sender_key_store_wf(),
        old(store).sender_key_store_reliable() ==> r is Ok,
        r is Ok ==> {
            let key = (sender@, skdm.distribution_id@);
            &&& final(store).sender_keys().contains_key(key)
            &&& final(store).sender_keys()[key].states() == states_with(
                stored_states(old(store).sender_keys(), key),
                state_of_distribution(*skdm),
            )
            &&& final(store).sender_keys().remove(key) == old(store).sender_keys().remove(key)
        },
        r is Err ==> final(store).sender_keys() == old(store).sender_keys(),
{
    let distribution_id = MyUuid::from_bytes(skdm.distribution_id);
    let mut record = match store.load_sender_key(sender, distribution_id)? {
        Some(existing) => existing.copy(),
        None => SenderKeyRecord::new_fresh(),
    };
    let state = SenderKeyState {
        message_version: skdm.message_version,
        chain_id: skdm.chain_id,
        iteration: skdm.iteration,
        chain_key: skdm.chain_key,
        signing_key: skdm.signing_key,
        signing_private_key: None,
    };
    record.add_sender_key_state(state);
    let ghost key = (sender@, skdm.distribution_id@);
    let ghost stored = record;
    store.store_sender_key(sender, distribution_id, record)?;
    assert(store.sender_keys().remove(key) =~= old(store).sender_keys().remove(key));
    assert(store.sender_keys()[key] == stored);
    Ok(())
}

/// The state of a new sender chain made from fresh random values: the
/// chain id keeps 31 bits of `random_chain_id`, the iteration is zero.
pub open spec fn new_sender_state(random_chain_id: u32, chain_key: [u8; 32], signing_key: KeyPair) -> SenderKeyState {
    SenderKeyState {
        message_version: SENDERKEY_MESSAGE_CURRENT_VERSION,
        chain_id: random_chain_id >> 1u32,
        iteration: 0,
        chain_key,
        signing_key: signing_key.public_key,
        signing_private_key: Some(signing_key.private_key),
    }
}

/// The distribution message that publishes `state`.
pub open spec fn distribution_of(distribution_id: MyUuid, state: SenderKeyState) -> SenderKeyDistributionMessage {
    SenderKeyDistributionMessage {
        message_version: state.message_version,
        distribution_id: distribution_id.bytes,
        chain_id: state.chain_id,
        iteration: state.iteration,
        chain_key: state.chain_key,
        signing_key: state.signing_key,
    }
}

/// The distribution message for our own chain for `distribution_id`.
/// Where there is no record yet, a chain is made from the fresh random
/// values `random_chain_id`, `chain_key` and `signing_key` and stored first.
pub fn create_sender_key_distribution_message<K: SenderKeyStore>(
    sender: &ProtocolAddress,
    distribution_id: MyUuid,
    store: &mut K,
    random_chain_id: u32,
    chain_key: [u8; 32],
    signing_key: KeyPair,
) -> (r: Result<SenderKeyDistributionMessage>)
    requires
        old(store).sender_key_store_wf(),
    ensures
        final(store).sender_key_store_wf(),
        ({
            let key = (sender@, distribution_id@);
            let reliable = old(store).sender_key_store_reliable();
            if old(store).sender_keys().contains_key(key) {
                let states = old(store).sender_keys()[key].states();
                &&& final(store).sender_keys() == old(store).sender_keys()
                &&& reliable && states.len() == 0 ==> r == Err::<SenderKeyDistributionMessage, _>(
                    SignalProtocolError::NoSenderKeyState,
                )
                &&& reliable && states.len() > 0 ==> r is Ok
                &&& r matches Ok(m) ==> states.len() > 0 && m.spec_serialize()
                    == distribution_of(distribution_id, states[0]).spec_serialize()
            } else {
                let state = new_sender_state(random_chain_id, chain_key, signing_key);
                &&& reliable ==> r is Ok
                &&& r is Err ==> final(store).sender_keys() == old(store).sender_keys()
                &&& r matches Ok(m) ==> {
                    &&& final(store).sender_keys().contains_key(key)
                    &&& final(store).sender_keys()[key].states() == seq![state]
                    &&& final(store).sender_keys().remove(key) == old(store).sender_keys().remove(key)
                    &&& m.wf()
                    &&& m.spec_serialize() == distribution_of(distribution_id, state).spec_serialize()
                }
            }
        }),
{
    let ghost key = (sender@, distribution_id@);
    let state = match store.load_sender_key(sender, distribution_id)? {
        Some(existing) => existing.sender_key_state()?,
        None => {
            let state = SenderKeyState {
                message_version: SENDERKEY_MESSAGE_CURRENT_VERSION,
                chain_id: random_chain_id >> 1u32,
                iteration: 0,
                chain_key,
                signing_key: signing_key.public_key,
                signing_private_key: Some(signing_key.private_key),
            };
            let mut record = SenderKeyRecord::new_fresh();
            record.add_sender_key_state(state);
            proof {
                reveal(Seq::filter);
                assert(Seq::<SenderKeyState>::empty().filter(
                    crate::sender_keys::other_chain(state.chain_id),
                ) =~= Seq::<SenderKeyState>::empty());
                assert(record.states() =~= seq![state]);
            }
            let ghost stored = record;
            store.store_sender_key(sender, distribution_id, record)?;
            assert(store.sender_keys().remove(key) =~= old(store).sender_keys().remove(key));
            assert(store.sender_keys()[key] == stored);
            state
        },
    };
    let m = SenderKeyDistributionMessage::new(
        state.message_version,
        distribution_id.bytes,
        state.chain_id,
        state.iteration,
        &state.chain_key,
        state.signing_key,
    )?;
    Ok(m)
}

/// Advances our own sending chain for one group message: the most recent
/// state's iteration goes up by one and its chain key becomes
/// `next_chain_key`, the key that the one-way step derives from the old
/// one. The result is the iteration of the message being sent.
pub fn advance_sender_chain(record: &mut SenderKeyRecord, next_chain_key: [u8; 32]) -> (r: Result<u32>)
    requires
        old(record).wf(),
    ensures
        final(record).wf(),
        old(record).states().len() == 0 ==> (r == Err::<u32, _>(
            SignalProtocolError::NoSenderKeyState,
        ) && final(record).states() == old(record).states()),
        (old(record).states().len() > 0 && old(record).states()[0].iteration == u32::MAX) ==> (r
            == Err::<u32, _>(SignalProtocolError::ReplayOrOrderingViolation) && final(record).states() == old(record).states()),
        old(record).states().len() > 0 && old(record).states()[0].iteration < u32::MAX ==> ({
            let s = old(record).states()[0];
            &&& r == Ok::<u32, SignalProtocolError>(s.iteration)
            &&& final(record).states() == old(record).states().update(
                0,
                SenderKeyState { iteration: (s.iteration + 1) as u32, chain_key: next_chain_key, ..s },
            )
        }),
{
    let state = record.sender_key_state()?;
    if state.iteration == u32::MAX {
        return Err(SignalProtocolError::ReplayOrOrderingViolation);
    }
    let next = SenderKeyState { iteration: state.iteration + 1, chain_key: next_chain_key, ..state };
    let _ = record.set_sender_key_state(next);
    Ok(state.iteration)
}

/// Receives a group message of chain `chain_id` at `iteration`, where
/// `window` is the receiving position of that chain (its next counter is
/// the state's iteration). The ordering rule of [`ChainWindow::receive`]
/// decides: a kept skipped iteration is served by its kept key, and the
/// state stays; an iteration at or ahead of the state's, within the
/// bound, moves the state's iteration past it, and its chain key becomes
/// `chain_key_after`, the key that the one-way steps derive for that
/// position; a replay or a jump too far is refused and changes nothing.
pub fn receive_group_message(
    record: &mut SenderKeyRecord,
    window: &mut ChainWindow,
    chain_id: u32,
    iteration: u32,
    chain_key_after: [u8; 32],
) -> (r: Result<Delivery>)
    requires
        old(window).wf(),
    ensures
        final(window).wf(),
        ({
            let states = old(record).states();
            let found = exists|i: int| 0 <= i < states.len() && states[i].chain_id == chain_id;
            let i = choose|i: int|
                0 <= i < states.len() && states[i].chain_id == chain_id && forall|j: int|
                    0 <= j < i ==> states[j].chain_id != chain_id;
            let step = receive_spec(old(window).next(), old(window).skipped(), iteration);
            if !found {
                &&& r == Err::<Delivery, _>(SignalProtocolError::NoSenderKeyState)
                &&& final(record).states() == states
                &&& final(window).next() == old(window).next()
                &&& final(window).skipped() == old(window).skipped()
            } else if old(window).next() != states[i].iteration || iteration == u32::MAX {
                &&& r == Err::<Delivery, _>(if iteration == u32::MAX && old(window).next()
                    == states[i].iteration {
                    SignalProtocolError::ReplayOrOrderingViolation
                } else {
                    SignalProtocolError::InvalidArgument
                })
                &&& final(record).states() == states
                &&& final(window).next() == old(window).next()
                &&& final(window).skipped() == old(window).skipped()
            } else {
                match step {
                    Ok((d, n, sk)) => {
                        &&& r == Ok::<Delivery, SignalProtocolError>(d)
                        &&& final(window).next() == n
                        &&& final(window).skipped() == sk
                        &&& d == Delivery::Cached ==> final(record).states() == states
                        &&& d == Delivery::Fresh ==> final(record).states() == states.update(
                            i,
                            SenderKeyState {
                                iteration: (iteration + 1) as u32,
                                chain_key: chain_key_after,
                                ..states[i]
                            },
                        )
                    },
                    Err(e) => {
                        &&& r == Err::<Delivery, _>(e)
                        &&& final(record).states() == states
                        &&& final(window).next() == old(window).next()
                        &&& final(window).skipped() == old(window).skipped()
                    },
                }
            }
        }),
{
    let i = match record.state_index_for_chain_id(chain_id) {
        Some(i) => i,
        None => {
            return Err(SignalProtocolError::NoSenderKeyState);
        },
    };
    let ghost states = record.states();
    proof {
        let c = choose|c: int|
            0 <= c < states.len() && states[c].chain_id == chain_id && forall|j: int|
                0 <= j < c ==> states[j].chain_id != chain_id;
        if c < i {
        } else if c > i {
            assert(states[i as int].chain_id == chain_id);
        }
        assert(c == i as int);
    }
    let state = record.state_at(i);
    if window.next_counter() != state.iteration as u64 {
        return Err(SignalProtocolError::InvalidArgument);
    }
    if iteration == u32::MAX {
        return Err(SignalProtocolError::ReplayOrOrderingViolation);
    }
    let d = window.receive(iteration)?;
    match d {
        Delivery::Fresh => {
            let next = SenderKeyState { iteration: iteration + 1, chain_key: chain_key_after, ..state };
            record.replace_state(i, next);
        },
        Delivery::Cached => {},
    }
    Ok(d)
}

} // verus!
