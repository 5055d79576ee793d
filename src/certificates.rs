use vstd::prelude::*;

use vstd::utf8::{encode_utf8, encode_utf8_decode_utf8, encode_utf8_valid_utf8, valid_utf8};

use crate::codec::{copy_vec, push_u32, push_u64, read_u32, read_u64, slice_to_vec, u32_be, u64_be};
use crate::curve::{copy_bytes, push_all, serialized_public_key, PublicKey, DJB_TYPE};
use crate::error::{Result, SignalProtocolError};

verus! {

/// Relies on std's `String::from_utf8`: it succeeds exactly on valid UTF-8,
/// and the string it gives holds those bytes.
#[verifier::external_body]
fn string_from_utf8(bytes: Vec<u8>) -> (r: Option<String>)
    ensures
        r is Some <==> valid_utf8(bytes@),
        r matches Some(s) ==> encode_utf8(s@) == bytes@,
{
    String::from_utf8(bytes).ok()
}

/// The UTF-8 bytes of `s`.
fn string_bytes(s: &String) -> (r: Vec<u8>)
    ensures
        r@ == encode_utf8(s@),
{
    let b: &[u8] = s.as_str().as_bytes();
    let r = slice_to_vec(b, 0, b.len());
    assert(b@.subrange(0, b@.len() as int) =~= b@);
    r
}

/// A field of varying length: its length in four big-endian bytes, then
/// its bytes.
pub open spec fn prefixed(b: Seq<u8>) -> Seq<u8> {
    u32_be(b.len() as u32) + b
}

/// Reads the length-prefixed field that starts at `pos`.
fn read_prefixed(data: &[u8], pos: usize) -> (r: Option<(Vec<u8>, usize)>)
    requires
        pos <= data@.len(),
    ensures
        r matches Some((v, end)) ==> pos <= end <= data@.len() && v@.len() <= u32::MAX
            && end == pos + 4 + v@.len() && data@.subrange(pos as int, end as int) == prefixed(v@),
        forall|v: Seq<u8>|
            v.len() <= u32::MAX && pos + 4 + v.len() <= data@.len() && #[trigger] prefixed(v)
                == data@.subrange(pos as int, pos + 4 + v.len() as int) ==> (r matches Some((w, end))
                && w@ == v && end == pos + 4 + v.len() as int),
{
    let n: usize = data.len();
    if n - pos < 4 {
        return None;
    }
    let len: u32 = read_u32(data, pos);
    if (n - pos - 4) < len as usize {
        proof {
            assert forall|v: Seq<u8>|
                v.len() <= u32::MAX && pos + 4 + v.len() <= data@.len() && #[trigger] prefixed(v)
                    == data@.subrange(pos as int, pos + 4 + v.len() as int) implies false by {
                assert(prefixed(v).subrange(0, 4) =~= u32_be(v.len() as u32));
                assert(data@.subrange(pos as int, pos + 4) =~= prefixed(v).subrange(0, 4));
                crate::codec::lemma_u32_be_injective(len, v.len() as u32);
            }
        }
        return None;
    }
    let end: usize = pos + 4 + len as usize;
    let v = slice_to_vec(data, pos + 4, end);
    assert(data@.subrange(pos as int, end as int) =~= prefixed(v@));
    proof {
        assert forall|w: Seq<u8>|
            w.len() <= u32::MAX && pos + 4 + w.len() <= data@.len() && #[trigger] prefixed(w)
                == data@.subrange(pos as int, pos + 4 + w.len() as int) implies w == v@ && end == pos + 4
            + w.len() by {
            assert(prefixed(w).subrange(0, 4) =~= u32_be(w.len() as u32));
            assert(data@.subrange(pos as int, pos + 4) =~= prefixed(w).subrange(0, 4));
            crate::codec::lemma_u32_be_injective(len, w.len() as u32);
            assert(w =~= prefixed(w).subrange(4, 4 + w.len() as int));
            assert(v@ =~= data@.subrange(pos + 4, end as int));
        }
    }
    Some((v, end))
}

/// Appends the length-prefixed field `b` to `out`.
fn push_prefixed(out: &mut Vec<u8>, b: &[u8])
    requires
        b@.len() <= u32::MAX,
    ensures
        final(out)@ == old(out)@ + prefixed(b@),
{
    push_u32(out, b.len() as u32);
    push_all(out, b);
    assert(out@ =~= old(out)@ + prefixed(b@));
}

/// Length of the signed body of a server certificate.
pub const SERVER_CERTIFICATE_BODY_LEN: usize = 37;

/// A server's key, certified by the trust root: the key id, the key and
/// the trust root's signature over the signed body.
#[derive(Debug, Clone)]
pub struct ServerCertificate {
    pub key_id: u32,
    pub key: PublicKey,
    pub signature: Vec<u8>,
}

impl ServerCertificate {
    /// The signed body: key id, serialized key.
    pub open spec fn spec_certificate(&self) -> Seq<u8> {
        u32_be(self.key_id) + serialized_public_key(self.key@)
    }

    /// The serialized form: the signed body, then the signature.
    pub open spec fn spec_serialized(&self) -> Seq<u8> {
        self.spec_certificate() + self.signature@
    }

    /// A certificate from its parts; `signature` is the trust root's
    /// signature over the body that [`Self::certificate`] gives.
    pub fn new(key_id: u32, key: PublicKey, signature: Vec<u8>) -> (r: ServerCertificate)
        ensures
            r.key_id == key_id,
            r.key@ == key@,
            r.signature@ == signature@,
    {
        ServerCertificate { key_id, key, signature }
    }

    /// The id of the server key.
    pub fn key_id(&self) -> (r: u32)
        ensures
            r == self.key_id,
    {
        self.key_id
    }

    /// The server key.
    pub fn public_key(&self) -> (r: PublicKey)
        ensures
            r@ == self.key@,
    {
        self.key
    }

    /// The signed body.
    pub fn certificate(&self) -> (r: Vec<u8>)
        ensures
            r@ == self.spec_certificate(),
    {
        let mut out: Vec<u8> = Vec::new();
        push_u32(&mut out, self.key_id);
        let key = self.key.serialize();
        push_all(&mut out, key.as_slice());
        out
    }

    /// The trust root's signature over the body.
    pub fn signature(&self) -> (r: Vec<u8>)
        ensures
            r@ == self.signature@,
    {
        copy_vec(&self.signature)
    }

    /// The serialized form of the certificate.
    pub fn serialized(&self) -> (r: Vec<u8>)
        ensures
            r@ == self.spec_serialized(),
    {
        let mut out = self.certificate();
        push_all(&mut out, self.signature.as_slice());
        out
    }

    /// Reads a certificate from its serialized form.
    pub fn deserialize(data: &[u8]) -> (r: Result<ServerCertificate>)
        ensures
            r matches Ok(c) ==> c.spec_serialized() == data@,
            r matches Err(e) ==> e == SignalProtocolError::InvalidMessage,
            (exists|c: ServerCertificate| c.spec_serialized() == data@) ==> r is Ok,
    {
        let n: usize = data.len();
        if n < SERVER_CERTIFICATE_BODY_LEN || data[4] != DJB_TYPE {
            assert forall|c: ServerCertificate| c.spec_serialized() == data@ implies false by {
                assert(c.spec_serialized().len() >= SERVER_CERTIFICATE_BODY_LEN);
                assert(c.spec_serialized()[4] == DJB_TYPE);
            }
            return Err(SignalProtocolError::InvalidMessage);
        }
        let key_id: u32 = read_u32(data, 0);
        let key = copy_bytes::<32>(data, 5);
        let signature = slice_to_vec(data, SERVER_CERTIFICATE_BODY_LEN, n);
        let c = ServerCertificate { key_id, key: PublicKey { key }, signature };
        assert(c.spec_serialized() =~= data@);
        Ok(c)
    }

    /// A copy of the certificate.
    pub fn copy(&self) -> (r: ServerCertificate)
        ensures
            r.key_id == self.key_id,
            r.key@ == self.key@,
            r.signature@ == self.signature@,
    {
        ServerCertificate { key_id: self.key_id, key: self.key, signature: copy_vec(&self.signature) }
    }
}

/// Whether a certificate chain holds, given whether the trust root's
/// signature over the server certificate verifies, whether the server
/// key's signature over the sender certificate verifies, the expiration
/// of the sender certificate and the time of the check (milliseconds since
/// the epoch).
pub open spec fn chain_valid(
    server_signature_valid: bool,
    sender_signature_valid: bool,
    expiration: u64,
    validation_time: u64,
) -> bool {
    server_signature_valid && sender_signature_valid && validation_time < expiration
}

/// Checks a certificate chain: both signatures must verify and the time of
/// the check must come before the expiration. A failed signature is
/// reported before an expiry.
pub fn check_certificate_chain(
    server_signature_valid: bool,
    sender_signature_valid: bool,
    expiration: u64,
    validation_time: u64,
) -> (r: Result<()>)
    ensures
        !server_signature_valid || !sender_signature_valid ==> r == Err::<(), _>(
            SignalProtocolError::SignatureVerificationFailed,
        ),
        server_signature_valid && sender_signature_valid && validation_time >= expiration ==> r
            == Err::<(), _>(SignalProtocolError::CertificateExpired),
        r is Ok <==> chain_valid(
            server_signature_valid,
            sender_signature_valid,
            expiration,
            validation_time,
        ),
{
    if !server_signature_valid || !sender_signature_valid {
        return Err(SignalProtocolError::SignatureVerificationFailed);
    }
    if validation_time >= expiration {
        return Err(SignalProtocolError::CertificateExpired);
    }
    Ok(())
}

/// The serialized form of an optional text: a flag byte, then (when
/// present) the text's UTF-8 bytes as a length-prefixed field.
pub open spec fn optional_text_bytes(t: Option<Seq<char>>) -> Seq<u8> {
    match t {
        Some(t) => seq![1u8] + prefixed(encode_utf8(t)),
        None => seq![0u8],
    }
}

/// The signed body of a sender certificate: uuid, optional phone number,
/// serialized key, device, expiration, serialized server certificate.
pub open spec fn sender_body(
    uuid: Seq<char>,
    e164: Option<Seq<char>>,
    key: Seq<u8>,
    device: u32,
    expiration: u64,
    signer: Seq<u8>,
) -> Seq<u8> {
    prefixed(encode_utf8(uuid)) + optional_text_bytes(e164) + serialized_public_key(key) + u32_be(
        device,
    ) + u64_be(expiration) + prefixed(signer)
}

/// A sender's identity, certified by a server: the sender's uuid and
/// optional phone number, device, identity key and expiration, the server
/// certificate, and the server key's signature over the signed body.
#[derive(Debug, Clone)]
pub struct SenderCertificate {
    pub sender_uuid: String,
    pub sender_e164: Option<String>,
    pub key: PublicKey,
    pub sender_device_id: u32,
    pub expiration: u64,
    pub signer: ServerCertificate,
    pub signature: Vec<u8>,
}

/// The view of an optional string.
pub open spec fn optional_text(t: Option<String>) -> Option<Seq<char>> {
    match t {
        Some(s) => Some(s@),
        None => None,
    }
}

impl SenderCertificate {
    /// Every field of varying length fits its four-byte length.
    pub open spec fn wf(&self) -> bool {
        &&& self.spec_certificate().len() <= u32::MAX
        &&& self.signer.spec_serialized().len() <= u32::MAX
        &&& encode_utf8(self.sender_uuid@).len() <= u32::MAX
        &&& (self.sender_e164 matches Some(e) ==> encode_utf8(e@).len() <= u32::MAX)
    }

    /// The signed body: uuid, optional phone number, serialized key,
    /// device, expiration, serialized server certificate.
    pub open spec fn spec_certificate(&self) -> Seq<u8> {
        sender_body(
            self.sender_uuid@,
            optional_text(self.sender_e164),
            self.key@,
            self.sender_device_id,
            self.expiration,
            self.signer.spec_serialized(),
        )
    }

    /// The serialized form: the signed body as a length-prefixed field,
    /// then the signature.
    pub open spec fn spec_serialized(&self) -> Seq<u8> {
        prefixed(self.spec_certificate()) + self.signature@
    }

    /// A certificate from its parts; `signature` is the server key's
    /// signature over the body that [`Self::certificate`] gives.
    pub fn new(
        sender_uuid: String,
        sender_e164: Option<String>,
        key: PublicKey,
        sender_device_id: u32,
        expiration: u64,
        signer: ServerCertificate,
        signature: Vec<u8>,
    ) -> (r: SenderCertificate)
        ensures
            r == (SenderCertificate {
                sender_uuid,
                sender_e164,
                key,
                sender_device_id,
                expiration,
                signer,
                signature,
            }),
    {
        SenderCertificate { sender_uuid, sender_e164, key, sender_device_id, expiration, signer, signature }
    }

    /// The signed body.
    pub fn certificate(&self) -> (r: Result<Vec<u8>>)
        ensures
            self.wf() ==> (r matches Ok(b) && b@ == self.spec_certificate()),
            !self.wf() ==> r == Err::<Vec<u8>, _>(SignalProtocolError::InvalidArgument),
    {
        let uuid = string_bytes(&self.sender_uuid);
        if uuid.len() > u32::MAX as usize {
            return Err(SignalProtocolError::InvalidArgument);
        }
        let mut out: Vec<u8> = Vec::new();
        push_prefixed(&mut out, uuid.as_slice());
        let ghost head = out@;
        match &self.sender_e164 {
            Some(e) => {
                let eb = string_bytes(e);
                if eb.len() > u32::MAX as usize {
                    return Err(SignalProtocolError::InvalidArgument);
                }
                out.push(1u8);
                push_prefixed(&mut out, eb.as_slice());
            },
            None => {
                out.push(0u8);
            },
        }
        assert(out@ =~= head + optional_text_bytes(optional_text(self.sender_e164)));
        let key = self.key.serialize();
        push_all(&mut out, key.as_slice());
        push_u32(&mut out, self.sender_device_id);
        push_u64(&mut out, self.expiration);
        let signer = self.signer.serialized();
        if signer.len() > u32::MAX as usize {
            return Err(SignalProtocolError::InvalidArgument);
        }
        push_prefixed(&mut out, signer.as_slice());
        if out.len() > u32::MAX as usize {
            return Err(SignalProtocolError::InvalidArgument);
        }
        assert(out@ == self.spec_certificate());
        Ok(out)
    }

    /// The serialized form of the certificate.
    pub fn serialized(&self) -> (r: Result<Vec<u8>>)
        ensures
            self.wf() ==> (r matches Ok(b) && b@ == self.spec_serialized()),
            !self.wf() ==> r == Err::<Vec<u8>, _>(SignalProtocolError::InvalidArgument),
    {
        let body = self.certificate()?;
        let mut out: Vec<u8> = Vec::new();
        push_prefixed(&mut out, body.as_slice());
        push_all(&mut out, self.signature.as_slice());
        assert(out@ =~= self.spec_serialized());
        Ok(out)
    }

    /// Reads a certificate from its serialized form.
    pub fn deserialize(data: &[u8]) -> (r: Result<SenderCertificate>)
        ensures
            r matches Ok(c) ==> c.wf() && c.spec_serialized() == data@,
            r matches Err(e) ==> e == SignalProtocolError::InvalidMessage,
            (exists|c: SenderCertificate| c.wf() && c.spec_serialized() == data@) ==> r is Ok,
    {
        let n: usize = data.len();
        let (body, body_end) = match read_prefixed(data, 0) {
            Some(x) => x,
            None => {
                assert forall|c: SenderCertificate| c.wf() && c.spec_serialized() == data@ implies false by {
                    let b = c.spec_certificate();
                    assert(data@.subrange(0, 4 + b.len() as int) =~= prefixed(b));
                }
                return Err(SignalProtocolError::InvalidMessage);
            },
        };
        let signature = slice_to_vec(data, body_end, n);
        proof {
            assert forall|c: SenderCertificate| c.wf() && c.spec_serialized() == data@ implies c.spec_certificate()
                == body@ && c.signature@ == signature@ by {
                let b = c.spec_certificate();
                assert(data@.subrange(0, 4 + b.len() as int) =~= prefixed(b));
                assert(c.signature@ =~= data@.subrange(4 + b.len() as int, n as int));
            }
        }
        match parse_sender_body(&body) {
            Some((sender_uuid, sender_e164, key, sender_device_id, expiration, signer)) => {
                let c = SenderCertificate {
                    sender_uuid,
                    sender_e164,
                    key,
                    sender_device_id,
                    expiration,
                    signer,
                    signature,
                };
                assert(data@ =~= prefixed(body@) + signature@);
                Ok(c)
            },
            None => Err(SignalProtocolError::InvalidMessage),
        }
    }

    /// Whether the certificate is valid at `validation_time`, given whether
    /// the trust root's signature over the server certificate and the server
    /// key's signature over this certificate verify.
    pub fn validate(
        &self,
        server_signature_valid: bool,
        sender_signature_valid: bool,
        validation_time: u64,
    ) -> (r: bool)
        ensures
            r == chain_valid(
                server_signature_valid,
                sender_signature_valid,
                self.expiration,
                validation_time,
            ),
    {
        check_certificate_chain(
            server_signature_valid,
            sender_signature_valid,
            self.expiration,
            validation_time,
        ).is_ok()
    }

    /// The server certificate.
    pub fn signer(&self) -> (r: &ServerCertificate)
        ensures
            *r == self.signer,
    {
        &self.signer
    }

    /// The sender's identity key.
    pub fn key(&self) -> (r: PublicKey)
        ensures
            r@ == self.key@,
    {
        self.key
    }

    /// The sender's device.
    pub fn sender_device_id(&self) -> (r: u32)
        ensures
            r == self.sender_device_id,
    {
        self.sender_device_id
    }

    /// The sender's uuid.
    pub fn sender_uuid(&self) -> (r: &str)
        ensures
            r@ == self.sender_uuid@,
    {
        self.sender_uuid.as_str()
    }

    /// The sender's phone number, if the certificate carries one.
    pub fn sender_e164(&self) -> (r: Option<&str>)
        ensures
            match self.sender_e164 {
                Some(e) => r matches Some(x) && x@ == e@,
                None => r is None,
            },
    {
        match &self.sender_e164 {
            Some(e) => Some(e.as_str()),
            None => None,
        }
    }

    /// The expiration, in milliseconds since the epoch.
    pub fn expiration(&self) -> (r: u64)
        ensures
            r == self.expiration,
    {
        self.expiration
    }

    /// The server key's signature over the body.
    pub fn signature(&self) -> (r: Vec<u8>)
        ensures
            r@ == self.signature@,
    {
        copy_vec(&self.signature)
    }
}

/// Reads the length-prefixed UTF-8 text that starts at `pos`.
fn read_text(data: &[u8], pos: usize) -> (r: Option<(String, usize)>)
    requires
        pos <= data@.len(),
    ensures
        r matches Some((t, end)) ==> pos <= end <= data@.len() && encode_utf8(t@).len()
            <= u32::MAX && data@.subrange(pos as int, end as int) == prefixed(encode_utf8(t@)),
        forall|t: Seq<char>|
            encode_utf8(t).len() <= u32::MAX && pos + 4 + encode_utf8(t).len() <= data@.len()
                && #[trigger] prefixed(encode_utf8(t)) == data@.subrange(
                pos as int,
                pos + 4 + encode_utf8(t).len(),
            ) ==> (r matches Some((w, end)) && w@ == t && end == pos + 4 + encode_utf8(t).len()),
{
    let (bytes, end) = match read_prefixed(data, pos) {
        Some(x) => x,
        None => {
            return None;
        },
    };
    let ghost b = bytes@;
    match string_from_utf8(bytes) {
        Some(t) => {
            proof {
                assert forall|u: Seq<char>|
                    encode_utf8(u).len() <= u32::MAX && pos + 4 + encode_utf8(u).len() <= data@.len()
                        && #[trigger] prefixed(encode_utf8(u)) == data@.subrange(
                        pos as int,
                        pos + 4 + encode_utf8(u).len(),
                    ) implies t@ == u by {
                    assert(encode_utf8(u) == b);
                    encode_utf8_decode_utf8(u);
                    encode_utf8_decode_utf8(t@);
                }
            }
            Some((t, end))
        },
        None => {
            proof {
                assert forall|u: Seq<char>|
                    encode_utf8(u).len() <= u32::MAX && pos + 4 + encode_utf8(u).len() <= data@.len()
                        && #[trigger] prefixed(encode_utf8(u)) == data@.subrange(
                        pos as int,
                        pos + 4 + encode_utf8(u).len(),
                    ) implies false by {
                    assert(encode_utf8(u) == b);
                    encode_utf8_valid_utf8(u);
                }
            }
            None
        },
    }
}

/// Reads the signed body of a sender certificate.
#[verifier::rlimit(100)]
fn parse_sender_body(body: &Vec<u8>) -> (r: Option<(String, Option<String>, PublicKey, u32, u64, ServerCertificate)>)
    ensures
        r matches Some((u, e, k, d, x, s)) ==> {
            sender_body(u@, optional_text(e), k@, d, x, s.spec_serialized()) == body@
                && encode_utf8(u@).len() <= u32::MAX
                && (e matches Some(t) ==> encode_utf8(t@).len() <= u32::MAX)
                && s.spec_serialized().len() <= u32::MAX
        },
        (exists|c: SenderCertificate| c.wf() && c.spec_certificate() == body@) ==> r is Some,
{
    let data = body.as_slice();
    let n: usize = data.len();
    let ghost witness = exists|c: SenderCertificate| c.wf() && c.spec_certificate() == body@;
    let ghost c = choose|c: SenderCertificate| c.wf() && c.spec_certificate() == body@;
    let ghost pa = prefixed(encode_utf8(c.sender_uuid@));
    let ghost pb = optional_text_bytes(optional_text(c.sender_e164));
    let ghost pc = serialized_public_key(c.key@);
    let ghost pd = u32_be(c.sender_device_id);
    let ghost pe = u64_be(c.expiration);
    let ghost pf = prefixed(c.signer.spec_serialized());
    proof {
        if witness {
            assert(body@ == pa + pb + pc + pd + pe + pf);
            assert(data@.subrange(0, pa.len() as int) =~= pa);
        }
    }
    let (sender_uuid, p1) = match read_text(data, 0) {
        Some(x) => x,
        None => {
            return None;
        },
    };
    proof {
        if witness {
            assert(sender_uuid@ == c.sender_uuid@);
            assert(p1 == pa.len());
        }
    }
    if p1 >= n {
        proof {
            if witness {
                assert(pb.len() >= 1);
            }
        }
        return None;
    }
    let flag: u8 = data[p1];
    proof {
        if witness {
            assert(data@[p1 as int] == pb[0]);
        }
    }
    let mut pos: usize = p1 + 1;
    let sender_e164: Option<String> = if flag == 1 {
        proof {
            if witness {
                let t = c.sender_e164.unwrap()@;
                assert(c.sender_e164 is Some);
                assert(data@.subrange(p1 + 1, p1 + 1 + 4 + encode_utf8(t).len()) =~= prefixed(
                    encode_utf8(t),
                ));
            }
        }
        let (e, p2) = match read_text(data, pos) {
            Some(x) => x,
            None => {
                return None;
            },
        };
        pos = p2;
        Some(e)
    } else if flag == 0 {
        None
    } else {
        return None;
    };
    proof {
        if witness {
            assert(optional_text(sender_e164) == optional_text(c.sender_e164));
            assert(pos == pa.len() + pb.len());
        }
    }
    if n - pos < 45 || data[pos] != DJB_TYPE {
        proof {
            if witness {
                assert(data@[pos as int] == pc[0]);
            }
        }
        return None;
    }
    let key = PublicKey { key: copy_bytes::<32>(data, pos + 1) };
    let sender_device_id: u32 = read_u32(data, pos + 33);
    let expiration: u64 = read_u64(data, pos + 37);
    proof {
        if witness {
            assert(data@.subrange(pos + 1, pos + 33) =~= c.key@);
            assert(data@.subrange(pos + 33, pos + 37) =~= pd);
            crate::codec::lemma_u32_be_injective(sender_device_id, c.sender_device_id);
            assert(data@.subrange(pos + 37, pos + 45) =~= pe);
            assert(u64_be(expiration) == u64_be(c.expiration));
            assert(u32_be((expiration >> 32u64) as u32) =~= u64_be(expiration).subrange(0, 4));
            assert(u32_be(expiration as u32) =~= u64_be(expiration).subrange(4, 8));
            assert(u32_be((c.expiration >> 32u64) as u32) =~= u64_be(c.expiration).subrange(0, 4));
            assert(u32_be(c.expiration as u32) =~= u64_be(c.expiration).subrange(4, 8));
            crate::codec::lemma_u32_be_injective((expiration >> 32u64) as u32, (c.expiration >> 32u64) as u32);
            crate::codec::lemma_u32_be_injective(expiration as u32, c.expiration as u32);
            crate::codec::lemma_u64_halves(expiration, c.expiration);
            assert(data@.subrange(pos + 45, n as int) =~= pf);
        }
    }
    let (signer_bytes, p3) = match read_prefixed(data, pos + 45) {
        Some(x) => x,
        None => {
            return None;
        },
    };
    if p3 != n {
        return None;
    }
    let signer = match ServerCertificate::deserialize(signer_bytes.as_slice()) {
        Ok(s) => s,
        Err(_) => {
            return None;
        },
    };
    let ghost parts = prefixed(encode_utf8(sender_uuid@)) + optional_text_bytes(optional_text(sender_e164))
        + serialized_public_key(key@) + u32_be(sender_device_id) + u64_be(expiration)
        + prefixed(signer.spec_serialized());
    assert(data@.subrange(p1 as int, pos as int) =~= optional_text_bytes(optional_text(sender_e164)));
    assert(data@.subrange(pos as int, pos + 33) =~= serialized_public_key(key@));
    assert(parts =~= body@);
    Some((sender_uuid, sender_e164, key, sender_device_id, expiration, signer))
}

} // verus!
