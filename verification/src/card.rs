//! The values that travel between a card and its reader: identities, keys
//! and blocks.

use vstd::prelude::*;

verus! {

/// The six bytes of a sector key.
pub type SectorKey = [u8; 6];

/// The sixteen bytes of a block.
pub type BlockData = [u8; 16];

/// The four access-control bytes of a sector trailer.
pub type AccessBits = [u8; 4];

/// The identity a card gives when it is selected: four or seven bytes.
#[derive(Clone, Copy, Debug, PartialEq, Eq)]
pub enum CardIdentity {
    /// A single-size identity.
    Single([u8; 4]),
    /// A double-size identity.
    Double([u8; 7]),
}

impl View for CardIdentity {
    type V = Seq<u8>;

    open spec fn view(&self) -> Seq<u8> {
        match *self {
            CardIdentity::Single(bytes) => bytes@,
            CardIdentity::Double(bytes) => bytes@,
        }
    }
}

impl CardIdentity {
    /// Reads an identity from its bytes. There is one for four bytes and
    /// for seven, and none for any other length.
    pub fn new(bytes: &[u8]) -> (identity: Option<CardIdentity>)
        ensures
            identity is Some <==> bytes@.len() == 4 || bytes@.len() == 7,
            identity is Some ==> identity->0@ == bytes@,
    {
        if bytes.len() == 4 {
            let id: [u8; 4] = [bytes[0], bytes[1], bytes[2], bytes[3]];
            Some(CardIdentity::Single(id))
        } else if bytes.len() == 7 {
            let id: [u8; 7] = [
                bytes[0],
                bytes[1],
                bytes[2],
                bytes[3],
                bytes[4],
                bytes[5],
                bytes[6],
            ];
            Some(CardIdentity::Double(id))
        } else {
            None
        }
    }

    /// The bytes of the identity.
    pub fn as_bytes(&self) -> (bytes: &[u8])
        ensures
            bytes@ == self@,
    {
        match self {
            CardIdentity::Single(id) => id.as_slice(),
            CardIdentity::Double(id) => id.as_slice(),
        }
    }

    /// Whether two identities name the same card.
    pub fn same_card(&self, other: &CardIdentity) -> (same: bool)
        ensures
            same == (*self == *other),
            same == (self@ == other@),
    {
        let a = self.as_bytes();
        let b = other.as_bytes();
        if a.len() != b.len() {
            return false;
        }
        let mut i: usize = 0;
        while i < a.len()
            invariant
                a@ == self@,
                b@ == other@,
                a@.len() == b@.len(),
                i <= a@.len(),
                forall|j: int| 0 <= j < i ==> a@[j] == b@[j],
            decreases a@.len() - i,
        {
            if a[i] != b[i] {
                return false;
            }
            i += 1;
        }
        proof {
            assert(self@ =~= other@);
            lemma_identity_by_bytes(*self, *other);
        }
        true
    }
}

/// Two identities are the same exactly when their bytes are.
pub proof fn lemma_identity_by_bytes(a: CardIdentity, b: CardIdentity)
    ensures
        a == b <==> a@ == b@,
{
    match (a, b) {
        (CardIdentity::Single(x), CardIdentity::Single(y)) => {
            if x@ == y@ {
                assert(x =~= y);
            }
        },
        (CardIdentity::Double(x), CardIdentity::Double(y)) => {
            if x@ == y@ {
                assert(x =~= y);
            }
        },
        (CardIdentity::Single(x), CardIdentity::Double(y)) => {
            assert(x@.len() == 4 && y@.len() == 7);
        },
        (CardIdentity::Double(x), CardIdentity::Single(y)) => {
            assert(x@.len() == 7 && y@.len() == 4);
        },
    }
}

/// The key that cards carry when they leave the factory.
pub open spec fn factory_key_bytes() -> Seq<u8> {
    seq![0xFFu8, 0xFFu8, 0xFFu8, 0xFFu8, 0xFFu8, 0xFFu8]
}

/// The key that cards carry when they leave the factory: six bytes `FF`.
pub fn factory_key() -> (key: SectorKey)
    ensures
        key@ == factory_key_bytes(),
{
    let key: SectorKey = [0xFF, 0xFF, 0xFF, 0xFF, 0xFF, 0xFF];
    key
}

/// The access bits that cards carry when they leave the factory.
pub open spec fn factory_access_bytes() -> Seq<u8> {
    seq![0xFFu8, 0x07u8, 0x80u8, 0x69u8]
}

/// The access bits that cards carry when they leave the factory:
/// `FF 07 80 69`.
pub fn factory_access_bits() -> (bits: AccessBits)
    ensures
        bits@ == factory_access_bytes(),
{
    let bits: AccessBits = [0xFF, 0x07, 0x80, 0x69];
    bits
}

/// The bytes of a sector trailer: KeyA, then the access bits, then KeyB.
pub open spec fn trailer_bytes(key_a: Seq<u8>, access: Seq<u8>, key_b: Seq<u8>) -> Seq<u8> {
    key_a + access + key_b
}

/// Lays out a whole sector trailer, so that it can be written in one piece.
pub fn build_trailer(key_a: &SectorKey, access: &AccessBits, key_b: &SectorKey) -> (trailer:
    BlockData)
    ensures
        trailer@ == trailer_bytes(key_a@, access@, key_b@),
{
    let trailer: BlockData = [
        key_a[0],
        key_a[1],
        key_a[2],
        key_a[3],
        key_a[4],
        key_a[5],
        access[0],
        access[1],
        access[2],
        access[3],
        key_b[0],
        key_b[1],
        key_b[2],
        key_b[3],
        key_b[4],
        key_b[5],
    ];
    trailer
}

/// The KeyA that a sector trailer holds: its first six bytes.
pub fn trailer_key_a(trailer: &BlockData) -> (key: SectorKey)
    ensures
        key@ == trailer@.subrange(0, 6),
{
    let key: SectorKey = [trailer[0], trailer[1], trailer[2], trailer[3], trailer[4], trailer[5]];
    key
}

} // verus!
