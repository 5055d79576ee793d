use vstd::prelude::*;

use crate::error::{Result, SignalProtocolError};

verus! {

/// The type byte that precedes a Curve25519 public key in its serialized form.
pub const DJB_TYPE: u8 = 5;

/// The length of a Curve25519 key, public or private.
pub const KEY_LEN: usize = 32;

/// The serialized form of a public key: its type byte, then its 32 bytes.
pub open spec fn serialized_public_key(key: Seq<u8>) -> Seq<u8> {
    seq![DJB_TYPE].add(key)
}

/// Whether `bytes` is the serialized form of some public key.
pub open spec fn is_serialized_public_key(bytes: Seq<u8>) -> bool {
    bytes.len() == KEY_LEN + 1 && bytes[0] == DJB_TYPE
}

/// Copies the `N` bytes of `bytes` that start at `start` into an array.
pub fn copy_bytes<const N: usize>(bytes: &[u8], start: usize) -> (r: [u8; N])
    requires
        start + N <= bytes@.len(),
    ensures
        r@ == bytes@.subrange(start as int, start + N),
{
    let mut a: [u8; N] = [0u8; N];
    let n: usize = bytes.len();
    let mut i: usize = 0;
    while i < N
        invariant
            i <= N,
            n == bytes@.len(),
            start + N <= bytes@.len(),
            a@.len() == N,
            forall|j: int| 0 <= j < i ==> a@[j] == bytes@[start + j],
        decreases N - i,
    {
        a[i] = bytes[start + i];
        i = i + 1;
    }
    assert(a@ =~= bytes@.subrange(start as int, start + N));
    a
}

/// Appends the bytes of `src` to `out`.
pub fn push_all(out: &mut Vec<u8>, src: &[u8])
    ensures
        final(out)@ == old(out)@ + src@,
{
    let mut i: usize = 0;
    while i < src.len()
        invariant
            i <= src@.len(),
            out@ == old(out)@ + src@.subrange(0, i as int),
        decreases src@.len() - i,
    {
        out.push(src[i]);
        i = i + 1;
        assert(out@ =~= old(out)@ + src@.subrange(0, i as int));
    }
    assert(src@.subrange(0, src@.len() as int) =~= src@);
}

/// A Curve25519 public key.
#[derive(Debug, Clone, Copy)]
pub struct PublicKey {
    pub key: [u8; 32],
}

impl View for PublicKey {
    type V = Seq<u8>;

    open spec fn view(&self) -> Seq<u8> {
        self.key@
    }
}

impl PublicKey {
    /// Builds a key from its 32 raw bytes.
    pub fn from_djb_public_key_bytes(bytes: &[u8]) -> (r: Result<PublicKey>)
        ensures
            bytes@.len() == KEY_LEN ==> (r matches Ok(k) && k@ == bytes@),
            bytes@.len() != KEY_LEN ==> r == Err::<PublicKey, _>(SignalProtocolError::InvalidKeyMaterial),
    {
        if bytes.len() != KEY_LEN {
            return Err(SignalProtocolError::InvalidKeyMaterial);
        }
        let key = copy_bytes::<32>(bytes, 0);
        assert(bytes@.subrange(0, KEY_LEN as int) =~= bytes@);
        Ok(PublicKey { key })
    }

    /// Reads a key from its serialized form: the type byte, then 32 bytes.
    pub fn deserialize(bytes: &[u8]) -> (r: Result<PublicKey>)
        ensures
            is_serialized_public_key(bytes@) ==> (r matches Ok(k) && serialized_public_key(k@) == bytes@),
            !is_serialized_public_key(bytes@) ==> r == Err::<PublicKey, _>(SignalProtocolError::InvalidKeyMaterial),
    {
        if bytes.len() != KEY_LEN + 1 || bytes[0] != DJB_TYPE {
            return Err(SignalProtocolError::InvalidKeyMaterial);
        }
        let key = copy_bytes::<32>(bytes, 1);
        assert(serialized_public_key(key@) =~= bytes@);
        Ok(PublicKey { key })
    }

    /// The serialized form: the type byte, then the 32 bytes of the key.
    pub fn serialize(&self) -> (r: Vec<u8>)
        ensures
            r@ == serialized_public_key(self@),
    {
        let mut out: Vec<u8> = Vec::new();
        out.push(DJB_TYPE);
        push_all(&mut out, &self.key);
        assert(out@ =~= serialized_public_key(self@));
        out
    }

    /// The 32 raw bytes of the key.
    pub fn public_key_bytes(&self) -> (r: Vec<u8>)
        ensures
            r@ == self@,
    {
        let mut out: Vec<u8> = Vec::new();
        push_all(&mut out, &self.key);
        assert(out@ =~= self@);
        out
    }

    /// Whether two keys hold the same bytes.
    pub fn same_key(&self, other: &PublicKey) -> (r: bool)
        ensures
            r == (self@ == other@),
    {
        let mut i: usize = 0;
        while i < KEY_LEN
            invariant
                i <= KEY_LEN,
                self@.len() == KEY_LEN,
                other@.len() == KEY_LEN,
                forall|j: int| 0 <= j < i ==> self@[j] == other@[j],
            decreases KEY_LEN - i,
        {
            if self.key[i] != other.key[i] {
                return false;
            }
            i = i + 1;
        }
        assert(self@ =~= other@);
        true
    }
}

/// A Curve25519 private key.
#[derive(Debug, Clone, Copy)]
pub struct PrivateKey {
    pub key: [u8; 32],
}

impl View for PrivateKey {
    type V = Seq<u8>;

    open spec fn view(&self) -> Seq<u8> {
        self.key@
    }
}

impl PrivateKey {
    /// Reads a key from its 32 bytes.
    pub fn deserialize(bytes: &[u8]) -> (r: Result<PrivateKey>)
        ensures
            bytes@.len() == KEY_LEN ==> (r matches Ok(k) && k@ == bytes@),
            bytes@.len() != KEY_LEN ==> r == Err::<PrivateKey, _>(SignalProtocolError::InvalidKeyMaterial),
    {
        if bytes.len() != KEY_LEN {
            return Err(SignalProtocolError::InvalidKeyMaterial);
        }
        let key = copy_bytes::<32>(bytes, 0);
        assert(bytes@.subrange(0, KEY_LEN as int) =~= bytes@);
        Ok(PrivateKey { key })
    }

    /// The 32 bytes of the key.
    pub fn serialize(&self) -> (r: Vec<u8>)
        ensures
            r@ == self@,
    {
        let mut out: Vec<u8> = Vec::new();
        push_all(&mut out, &self.key);
        assert(out@ =~= self@);
        out
    }
}

/// A public key together with its private key.
#[derive(Debug, Clone, Copy)]
pub struct KeyPair {
    pub public_key: PublicKey,
    pub private_key: PrivateKey,
}

impl KeyPair {
    /// Pairs a public key with its private key.
    pub fn new(public_key: PublicKey, private_key: PrivateKey) -> (r: KeyPair)
        ensures
            r.public_key@ == public_key@,
            r.private_key@ == private_key@,
    {
        KeyPair { public_key, private_key }
    }

    /// Reads a pair from a serialized public key and the 32 bytes of a
    /// private key.
    pub fn from_public_and_private(public_key: &[u8], private_key: &[u8]) -> (r: Result<KeyPair>)
        ensures
            (is_serialized_public_key(public_key@) && private_key@.len() == KEY_LEN) ==> (r matches Ok(
                p,
            ) && serialized_public_key(p.public_key@) == public_key@ && p.private_key@
                == private_key@),
            !(is_serialized_public_key(public_key@) && private_key@.len() == KEY_LEN) ==> r
                == Err::<KeyPair, _>(SignalProtocolError::InvalidKeyMaterial),
    {
        let public_key = PublicKey::deserialize(public_key)?;
        let private_key = PrivateKey::deserialize(private_key)?;
        Ok(KeyPair { public_key, private_key })
    }
}

} // verus!
