use vstd::prelude::*;

use crate::codec::{push_u32, read_u32, u32_be};
use crate::curve::{copy_bytes, push_all, serialized_public_key, PrivateKey, PublicKey, DJB_TYPE};
use crate::error::{Result, SignalProtocolError};

verus! {

/// How many chains a sender-key record keeps.
pub const MAX_SENDER_KEY_STATES: usize = 5;

/// One group chain of a sender: its id, its current iteration and chain
/// key, and the key pair that signs its messages (the private half only
/// on the sender's own side).
#[derive(Debug, Clone, Copy)]
pub struct SenderKeyState {
    pub message_version: u8,
    pub chain_id: u32,
    pub iteration: u32,
    pub chain_key: [u8; 32],
    pub signing_key: PublicKey,
    pub signing_private_key: Option<PrivateKey>,
}

/// Length of the stored form of one state.
pub const SENDER_KEY_STATE_LEN: usize = 107;

/// The stored form of an optional private signing key: a flag byte, then
/// the key's 32 bytes (zeros when there is no key).
pub open spec fn optional_private_bytes(k: Option<PrivateKey>) -> Seq<u8> {
    match k {
        Some(k) => seq![1u8] + k@,
        None => seq![0u8] + Seq::new(32, |i: int| 0u8),
    }
}

/// The stored form of a state: version, chain id, iteration, chain key,
/// serialized signing key, optional private signing key.
pub open spec fn state_bytes(s: SenderKeyState) -> Seq<u8> {
    seq![s.message_version] + u32_be(s.chain_id) + u32_be(s.iteration) + s.chain_key@
        + serialized_public_key(s.signing_key@) + optional_private_bytes(s.signing_private_key)
}

/// The stored form of a list of states: their forms one after another.
pub open spec fn states_bytes(states: Seq<SenderKeyState>) -> Seq<u8>
    decreases states.len(),
{
    if states.len() == 0 {
        Seq::empty()
    } else {
        states_bytes(states.drop_last()) + state_bytes(states.last())
    }
}

/// The stored form of each state takes `SENDER_KEY_STATE_LEN` bytes, and
/// the `i`th such block of a list's form is the form of its `i`th state.
pub proof fn lemma_states_bytes_blocks(states: Seq<SenderKeyState>)
    ensures
        states_bytes(states).len() == SENDER_KEY_STATE_LEN * states.len(),
        forall|i: int|
            0 <= i < states.len() ==> #[trigger] states_bytes(states).subrange(
                SENDER_KEY_STATE_LEN * i,
                SENDER_KEY_STATE_LEN * (i + 1),
            ) == state_bytes(states[i]),
    decreases states.len(),
{
    if states.len() > 0 {
        let init = states.drop_last();
        lemma_states_bytes_blocks(init);
        let b = states_bytes(states);
        assert forall|i: int| 0 <= i < states.len() implies #[trigger] b.subrange(
            SENDER_KEY_STATE_LEN * i,
            SENDER_KEY_STATE_LEN * (i + 1),
        ) == state_bytes(states[i]) by {
            assert(SENDER_KEY_STATE_LEN * (i + 1) == SENDER_KEY_STATE_LEN * i + SENDER_KEY_STATE_LEN);
            if i < init.len() {
                assert(SENDER_KEY_STATE_LEN * (i + 1) <= SENDER_KEY_STATE_LEN * init.len()) by (nonlinear_arith)
                    requires i + 1 <= init.len();
                assert(b.subrange(SENDER_KEY_STATE_LEN * i, SENDER_KEY_STATE_LEN * (i + 1))
                    =~= states_bytes(init).subrange(SENDER_KEY_STATE_LEN * i, SENDER_KEY_STATE_LEN * (i + 1)));
            } else {
                assert(b.subrange(SENDER_KEY_STATE_LEN * i, SENDER_KEY_STATE_LEN * (i + 1))
                    =~= state_bytes(states.last()));
            }
        }
    }
}

/// Appends the stored form of `s` to `out`.
fn push_state(out: &mut Vec<u8>, s: &SenderKeyState)
    ensures
        final(out)@ == old(out)@ + state_bytes(*s),
{
    let ghost start = out@;
    out.push(s.message_version);
    push_u32(out, s.chain_id);
    push_u32(out, s.iteration);
    push_all(out, &s.chain_key);
    let public = s.signing_key.serialize();
    push_all(out, public.as_slice());
    let ghost mid = out@;
    match s.signing_private_key {
        Some(k) => {
            out.push(1u8);
            push_all(out, &k.key);
        },
        None => {
            out.push(0u8);
            let zeros: [u8; 32] = [0u8; 32];
            push_all(out, &zeros);
            assert(zeros@ =~= Seq::new(32, |i: int| 0u8));
        },
    }
    assert(out@ =~= mid + optional_private_bytes(s.signing_private_key));
    assert(out@ =~= start + state_bytes(*s));
}

/// Reads the state stored in the `SENDER_KEY_STATE_LEN` bytes of `data`
/// from `pos`.
fn parse_state(data: &[u8], pos: usize) -> (r: Option<SenderKeyState>)
    requires
        pos + SENDER_KEY_STATE_LEN <= data@.len(),
    ensures
        r matches Some(s) ==> state_bytes(s) == data@.subrange(pos as int, pos + SENDER_KEY_STATE_LEN),
        (exists|s: SenderKeyState| state_bytes(s) == data@.subrange(pos as int, pos + SENDER_KEY_STATE_LEN)) ==> r is Some,
{
    let ghost chunk = data@.subrange(pos as int, pos + SENDER_KEY_STATE_LEN);
    let n: usize = data.len();
    assert(pos + SENDER_KEY_STATE_LEN <= n);
    let flag: u8 = data[pos + 74];
    let mut zero = true;
    let mut i: usize = 0;
    while i < 32
        invariant
            i <= 32,
            n == data@.len(),
            pos + SENDER_KEY_STATE_LEN <= data@.len(),
            zero == forall|j: int| pos + 75 <= j < pos + 75 + i ==> #[trigger] data@[j] == 0u8,
        decreases 32 - i,
    {
        if data[pos + 75 + i] != 0 {
            zero = false;
        }
        i = i + 1;
    }
    if data[pos + 41] != DJB_TYPE || !(flag == 1 || (flag == 0 && zero)) {
        assert forall|s: SenderKeyState| state_bytes(s) == chunk implies false by {
            assert(state_bytes(s)[41] == DJB_TYPE);
            assert(chunk[41] == data@[pos + 41]);
            assert(chunk[74] == data@[pos + 74]);
            assert(state_bytes(s)[74] == optional_private_bytes(s.signing_private_key)[0]);
            if s.signing_private_key is None {
                assert forall|j: int| pos + 75 <= j < pos + 75 + 32 implies #[trigger] data@[j] == 0u8 by {
                    assert(chunk[j - pos] == data@[j]);
                    assert(state_bytes(s)[j - pos] == optional_private_bytes(s.signing_private_key)[j - pos - 74]);
                }
            }
        }
        return None;
    }
    let chain_id: u32 = read_u32(data, pos + 1);
    let iteration: u32 = read_u32(data, pos + 5);
    let chain_key = copy_bytes::<32>(data, pos + 9);
    let signing = copy_bytes::<32>(data, pos + 42);
    let private: Option<PrivateKey> = if flag == 1 {
        Some(PrivateKey { key: copy_bytes::<32>(data, pos + 75) })
    } else {
        None
    };
    let s = SenderKeyState {
        message_version: data[pos],
        chain_id,
        iteration,
        chain_key,
        signing_key: PublicKey { key: signing },
        signing_private_key: private,
    };
    assert(data@.subrange(pos + 74, pos + 107) =~= optional_private_bytes(private));
    assert(state_bytes(s) =~= chunk);
    Some(s)
}

/// Whether a state belongs to a chain other than `chain_id`.
pub open spec fn other_chain(chain_id: u32) -> spec_fn(SenderKeyState) -> bool {
    |s: SenderKeyState| s.chain_id != chain_id
}

/// The states after `state` is added in front of `states`: states of the
/// same chain go, and so do the oldest beyond `MAX_SENDER_KEY_STATES`.
pub open spec fn states_with(states: Seq<SenderKeyState>, state: SenderKeyState) -> Seq<
    SenderKeyState,
> {
    let kept = states.filter(other_chain(state.chain_id));
    if kept.len() < MAX_SENDER_KEY_STATES {
        seq![state] + kept
    } else {
        seq![state] + kept.take(MAX_SENDER_KEY_STATES - 1)
    }
}

/// The group chains of one sender for one distribution, most recent first.
#[derive(Debug, Clone)]
pub struct SenderKeyRecord {
    states: Vec<SenderKeyState>,
}

impl SenderKeyRecord {
    /// The states, most recent first.
    pub closed spec fn states(&self) -> Seq<SenderKeyState> {
        self.states@
    }

    /// Well-formed: at most `MAX_SENDER_KEY_STATES` states.
    pub open spec fn wf(&self) -> bool {
        self.states().len() <= MAX_SENDER_KEY_STATES
    }

    /// A record with no state.
    pub fn new_fresh() -> (r: SenderKeyRecord)
        ensures
            r.states() == Seq::<SenderKeyState>::empty(),
            r.wf(),
    {
        SenderKeyRecord { states: Vec::new() }
    }

    /// A copy of the record.
    pub fn copy(&self) -> (r: SenderKeyRecord)
        ensures
            r.states() == self.states(),
    {
        let mut states: Vec<SenderKeyState> = Vec::new();
        let mut i: usize = 0;
        while i < self.states.len()
            invariant
                i <= self.states@.len(),
                states@ == self.states@.subrange(0, i as int),
            decreases self.states@.len() - i,
        {
            states.push(self.states[i]);
            i = i + 1;
            assert(states@ =~= self.states@.subrange(0, i as int));
        }
        assert(self.states@.subrange(0, self.states@.len() as int) =~= self.states@);
        SenderKeyRecord { states }
    }

    /// The stored form of the record: its states' forms, most recent first.
    pub fn serialize(&self) -> (r: Result<Vec<u8>>)
        ensures
            r matches Ok(b) && b@ == states_bytes(self.states()),
    {
        let mut out: Vec<u8> = Vec::new();
        let mut i: usize = 0;
        while i < self.states.len()
            invariant
                i <= self.states@.len(),
                out@ == states_bytes(self.states@.subrange(0, i as int)),
            decreases self.states@.len() - i,
        {
            push_state(&mut out, &self.states[i]);
            proof {
                let next = self.states@.subrange(0, i + 1);
                assert(next.drop_last() =~= self.states@.subrange(0, i as int));
            }
            i = i + 1;
        }
        assert(self.states@.subrange(0, self.states@.len() as int) =~= self.states@);
        Ok(out)
    }

    /// Reads a record from its stored form; it may hold at most
    /// `MAX_SENDER_KEY_STATES` states.
    pub fn deserialize(data: &[u8]) -> (r: Result<SenderKeyRecord>)
        ensures
            r matches Ok(k) ==> k.wf() && states_bytes(k.states()) == data@,
            r matches Err(e) ==> e == SignalProtocolError::InvalidMessage,
            (exists|k: SenderKeyRecord| k.wf() && states_bytes(k.states()) == data@) ==> r is Ok,
    {
        let n: usize = data.len();
        if n % SENDER_KEY_STATE_LEN != 0 || n / SENDER_KEY_STATE_LEN > MAX_SENDER_KEY_STATES {
            assert forall|k: SenderKeyRecord| k.wf() && states_bytes(k.states()) == data@ implies false by {
                lemma_states_bytes_blocks(k.states());
                let l: int = k.states().len() as int;
                assert(n as int == 107 * l);
                assert((107 * l) % 107 == 0 && (107 * l) / 107 == l) by (nonlinear_arith)
                    requires
                        l >= 0,
                ;
            }
            return Err(SignalProtocolError::InvalidMessage);
        }
        let count: usize = n / SENDER_KEY_STATE_LEN;
        assert(count * SENDER_KEY_STATE_LEN == n) by (nonlinear_arith)
            requires count == n / SENDER_KEY_STATE_LEN, n % SENDER_KEY_STATE_LEN == 0;
        let mut states: Vec<SenderKeyState> = Vec::new();
        let mut i: usize = 0;
        while i < count
            invariant
                i <= count,
                count <= MAX_SENDER_KEY_STATES,
                count * SENDER_KEY_STATE_LEN == n,
                n == data@.len(),
                states@.len() == i,
                states_bytes(states@) == data@.subrange(0, SENDER_KEY_STATE_LEN * i),
            decreases count - i,
        {
            let pos: usize = i * SENDER_KEY_STATE_LEN;
            assert(pos + SENDER_KEY_STATE_LEN <= n) by (nonlinear_arith)
                requires pos == i * SENDER_KEY_STATE_LEN, i < count, count * SENDER_KEY_STATE_LEN == n;
            match parse_state(data, pos) {
                Some(s) => {
                    let ghost before = states@;
                    states.push(s);
                    proof {
                        assert(states@.drop_last() =~= before);
                        assert(data@.subrange(0, SENDER_KEY_STATE_LEN * (i + 1)) =~= data@.subrange(0, SENDER_KEY_STATE_LEN * i)
                            + data@.subrange(pos as int, pos + SENDER_KEY_STATE_LEN));
                    }
                },
                None => {
                    assert forall|k: SenderKeyRecord| k.wf() && states_bytes(k.states()) == data@ implies false by {
                        lemma_states_bytes_blocks(k.states());
                        assert(k.states().len() == count) by (nonlinear_arith)
                            requires SENDER_KEY_STATE_LEN * k.states().len() == n, count * SENDER_KEY_STATE_LEN == n;
                        assert(states_bytes(k.states()).subrange(SENDER_KEY_STATE_LEN * i, SENDER_KEY_STATE_LEN * (i + 1))
                            == state_bytes(k.states()[i as int]));
                        assert(SENDER_KEY_STATE_LEN * (i + 1) == pos + SENDER_KEY_STATE_LEN);
                    }
                    return Err(SignalProtocolError::InvalidMessage);
                },
            }
            i = i + 1;
        }
        assert(data@.subrange(0, SENDER_KEY_STATE_LEN * count) =~= data@);
        Ok(SenderKeyRecord { states })
    }

    /// Whether the record holds no state.
    pub fn is_empty(&self) -> (r: bool)
        ensures
            r == (self.states().len() == 0),
    {
        self.states.len() == 0
    }

    /// The most recent state.
    pub fn sender_key_state(&self) -> (r: Result<SenderKeyState>)
        ensures
            self.states().len() > 0 ==> r == Ok::<SenderKeyState, SignalProtocolError>(
                self.states()[0],
            ),
            self.states().len() == 0 ==> r == Err::<SenderKeyState, _>(
                SignalProtocolError::NoSenderKeyState,
            ),
    {
        if self.states.len() == 0 {
            return Err(SignalProtocolError::NoSenderKeyState);
        }
        Ok(self.states[0])
    }

    /// The first state of chain `chain_id`, if there is one.
    pub fn sender_key_state_for_chain_id(&self, chain_id: u32) -> (r: Option<SenderKeyState>)
        ensures
            r is None <==> forall|i: int|
                0 <= i < self.states().len() ==> self.states()[i].chain_id != chain_id,
            r matches Some(s) ==> exists|i: int|
                0 <= i < self.states().len() && self.states()[i] == s && s.chain_id == chain_id
                    && forall|j: int| 0 <= j < i ==> self.states()[j].chain_id != chain_id,
    {
        let mut i: usize = 0;
        while i < self.states.len()
            invariant
                i <= self.states@.len(),
                forall|j: int| 0 <= j < i ==> self.states@[j].chain_id != chain_id,
            decreases self.states@.len() - i,
        {
            if self.states[i].chain_id == chain_id {
                return Some(self.states[i]);
            }
            i = i + 1;
        }
        None
    }

    /// Adds `state` as the most recent state; earlier states of its chain
    /// go, and so do the oldest beyond `MAX_SENDER_KEY_STATES`.
    pub fn add_sender_key_state(&mut self, state: SenderKeyState)
        ensures
            final(self).states() == states_with(old(self).states(), state),
            final(self).wf(),
    {
        let ghost pred = other_chain(state.chain_id);
        let mut kept: Vec<SenderKeyState> = Vec::new();
        let mut i: usize = 0;
        while i < self.states.len()
            invariant
                i <= self.states@.len(),
                self.states@ == old(self).states@,
                pred == other_chain(state.chain_id),
                kept@ == self.states@.subrange(0, i as int).filter(pred),
            decreases self.states@.len() - i,
        {
            let s = self.states[i];
            proof {
                let next = self.states@.subrange(0, i + 1);
                assert(next.drop_last() =~= self.states@.subrange(0, i as int));
                assert(next.last() == s);
                reveal(Seq::filter);
            }
            if s.chain_id != state.chain_id {
                kept.push(s);
            }
            i = i + 1;
        }
        assert(self.states@.subrange(0, self.states@.len() as int) =~= self.states@);
        let ghost filtered = kept@;
        if kept.len() >= MAX_SENDER_KEY_STATES {
            kept.truncate(MAX_SENDER_KEY_STATES - 1);
        }
        kept.insert(0, state);
        proof {
            if filtered.len() < MAX_SENDER_KEY_STATES {
                assert(kept@ =~= seq![state] + filtered);
            } else {
                assert(kept@ =~= seq![state] + filtered.take(MAX_SENDER_KEY_STATES - 1));
            }
        }
        self.states = kept;
    }

    /// The position of the first state of chain `chain_id`, if there is one.
    pub fn state_index_for_chain_id(&self, chain_id: u32) -> (r: Option<usize>)
        ensures
            r is None <==> forall|i: int|
                0 <= i < self.states().len() ==> self.states()[i].chain_id != chain_id,
            r matches Some(i) ==> i < self.states().len() && self.states()[i as int].chain_id
                == chain_id && forall|j: int| 0 <= j < i ==> self.states()[j].chain_id != chain_id,
    {
        let mut i: usize = 0;
        while i < self.states.len()
            invariant
                i <= self.states@.len(),
                forall|j: int| 0 <= j < i ==> self.states@[j].chain_id != chain_id,
            decreases self.states@.len() - i,
        {
            if self.states[i].chain_id == chain_id {
                return Some(i);
            }
            i = i + 1;
        }
        None
    }

    /// The state at position `i`.
    pub fn state_at(&self, i: usize) -> (r: SenderKeyState)
        requires
            i < self.states().len(),
        ensures
            r == self.states()[i as int],
    {
        self.states[i]
    }

    /// Replaces the state at position `i` by `state`.
    pub fn replace_state(&mut self, i: usize, state: SenderKeyState)
        requires
            i < old(self).states().len(),
        ensures
            final(self).states() == old(self).states().update(i as int, state),
    {
        self.states.set(i, state);
    }

    /// Replaces the most recent state by `state`.
    pub fn set_sender_key_state(&mut self, state: SenderKeyState) -> (r: Result<()>)
        ensures
            old(self).states().len() > 0 ==> r is Ok && final(self).states() == old(
                self,
            ).states().update(0, state),
            old(self).states().len() == 0 ==> r == Err::<(), _>(
                SignalProtocolError::NoSenderKeyState,
            ) && final(self).states() == old(self).states(),
            old(self).wf() ==> final(self).wf(),
    {
        if self.states.len() == 0 {
            return Err(SignalProtocolError::NoSenderKeyState);
        }
        self.states.set(0, state);
        Ok(())
    }
}

} // verus!
