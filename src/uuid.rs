use vstd::prelude::*;

verus! {

/// What `uuid::Uuid::parse_str` makes of a string: the sixteen bytes of the
/// identifier, or nothing where the string is not one.
pub uninterp spec fn uuid_parse(s: Seq<char>) -> Option<Seq<u8>>;

/// Relies on `uuid::Uuid::parse_str`, which reads the simple, hyphenated,
/// URN and braced forms of an identifier, and on `Uuid::as_bytes`, which
/// gives its sixteen bytes.
#[verifier::external_body]
fn parse_uuid_str(s: &str) -> (r: Option<[u8; 16]>)
    ensures
        match r {
            Some(b) => uuid_parse(s@) == Some(b@),
            None => uuid_parse(s@) is None,
        },
{
    match uuid::Uuid::parse_str(s) {
        Ok(u) => Some(*u.as_bytes()),
        Err(_) => None,
    }
}

/// The identifier of a group distribution: sixteen bytes.
#[derive(Debug, Clone, Copy)]
pub struct MyUuid {
    pub bytes: [u8; 16],
}

impl View for MyUuid {
    type V = Seq<u8>;

    open spec fn view(&self) -> Seq<u8> {
        self.bytes@
    }
}

impl MyUuid {
    /// The identifier 67e55044-10b1-426f-9247-bb680e5fe0c8.
    pub fn new() -> (r: MyUuid)
        ensures
            r@ == seq![
                0x67u8, 0xe5u8, 0x50u8, 0x44u8, 0x10u8, 0xb1u8, 0x42u8, 0x6fu8,
                0x92u8, 0x47u8, 0xbbu8, 0x68u8, 0x0eu8, 0x5fu8, 0xe0u8, 0xc8u8,
            ],
    {
        let r = MyUuid {
            bytes: [
                0x67u8, 0xe5u8, 0x50u8, 0x44u8, 0x10u8, 0xb1u8, 0x42u8, 0x6fu8,
                0x92u8, 0x47u8, 0xbbu8, 0x68u8, 0x0eu8, 0x5fu8, 0xe0u8, 0xc8u8,
            ],
        };
        assert(r@ =~= seq![
            0x67u8, 0xe5u8, 0x50u8, 0x44u8, 0x10u8, 0xb1u8, 0x42u8, 0x6fu8,
            0x92u8, 0x47u8, 0xbbu8, 0x68u8, 0x0eu8, 0x5fu8, 0xe0u8, 0xc8u8,
        ]);
        r
    }

    /// The identifier with the given bytes.
    pub fn from_bytes(bytes: [u8; 16]) -> (r: MyUuid)
        ensures
            r@ == bytes@,
    {
        MyUuid { bytes }
    }

    /// Reads an identifier from its text form; `None` where the text is
    /// not one.
    pub fn parse(s: &str) -> (r: Option<MyUuid>)
        ensures
            match uuid_parse(s@) {
                Some(b) => r matches Some(u) && u@ == b,
                None => r is None,
            },
    {
        match parse_uuid_str(s) {
            Some(b) => Some(MyUuid { bytes: b }),
            None => None,
        }
    }

    /// Whether two identifiers are equal.
    pub fn same_id(&self, other: &MyUuid) -> (r: bool)
        ensures
            r == (self@ == other@),
    {
        let mut i: usize = 0;
        while i < 16
            invariant
                i <= 16,
                self@.len() == 16,
                other@.len() == 16,
                forall|j: int| 0 <= j < i ==> self@[j] == other@[j],
            decreases 16 - i,
        {
            if self.bytes[i] != other.bytes[i] {
                return false;
            }
            i = i + 1;
        }
        assert(self@ =~= other@);
        true
    }
}

} // verus!
