use vstd::prelude::*;

use crate::table::{bytes_clone, bytes_eq, TableKey};

verus! {

/// An account: an opaque 32-byte identifier, compared byte for byte.
#[derive(Clone, Copy, Debug, PartialEq, Eq)]
pub struct AccountId(pub [u8; 32]);

/// Compares two 32-byte strings element by element.
fn same_bytes(a: &[u8; 32], b: &[u8; 32]) -> (r: bool)
    ensures
        r == (a@ == b@),
{
    let mut i: usize = 0;
    while i < 32
        invariant
            0 <= i <= 32,
            forall|j: int| 0 <= j < i ==> a@[j] == b@[j],
        decreases 32 - i,
    {
        if a[i] != b[i] {
            return false;
        }
        i = i + 1;
    }
    assert(a@ =~= b@);
    true
}

impl TableKey for AccountId {
    type Model = AccountId;

    open spec fn model(&self) -> AccountId {
        *self
    }

    fn key_eq(&self, other: &Self) -> (r: bool) {
        let r = same_bytes(&self.0, &other.0);
        proof {
            if r {
                assert(self.0 =~= other.0);
            }
        }
        r
    }

    fn key_clone(&self) -> (r: Self) {
        *self
    }
}

impl AccountId {
    /// The 32 bytes of the identifier.
    pub fn to_bytes(&self) -> (r: Vec<u8>)
        ensures
            r@ == self.0@,
    {
        let mut r: Vec<u8> = Vec::new();
        let mut i: usize = 0;
        while i < 32
            invariant
                0 <= i <= 32,
                r@ == self.0@.subrange(0, i as int),
            decreases 32 - i,
        {
            r.push(self.0[i]);
            i = i + 1;
        }
        assert(r@ =~= self.0@);
        r
    }
}

/// The identifier of a non-fungible token: an unsigned integer of one of
/// several widths, or a byte string.
#[derive(Debug, PartialEq, Eq, PartialOrd, Ord)]
pub enum Id {
    U8(u8),
    U16(u16),
    U32(u32),
    U64(u64),
    U128(u128),
    Bytes(Vec<u8>),
}

/// The mathematical value of an [`Id`]: the same variants, with the bytes as
/// a sequence.
pub enum IdModel {
    U8(u8),
    U16(u16),
    U32(u32),
    U64(u64),
    U128(u128),
    Bytes(Seq<u8>),
}

impl View for Id {
    type V = IdModel;

    open spec fn view(&self) -> IdModel {
        match self {
            Id::U8(v) => IdModel::U8(*v),
            Id::U16(v) => IdModel::U16(*v),
            Id::U32(v) => IdModel::U32(*v),
            Id::U64(v) => IdModel::U64(*v),
            Id::U128(v) => IdModel::U128(*v),
            Id::Bytes(v) => IdModel::Bytes(v@),
        }
    }
}

impl Clone for Id {
    fn clone(&self) -> (r: Id)
        ensures
            r@ == self@,
    {
        match self {
            Id::U8(v) => Id::U8(*v),
            Id::U16(v) => Id::U16(*v),
            Id::U32(v) => Id::U32(*v),
            Id::U64(v) => Id::U64(*v),
            Id::U128(v) => Id::U128(*v),
            Id::Bytes(v) => Id::Bytes(bytes_clone(v)),
        }
    }
}

impl Default for Id {
    fn default() -> (r: Id)
        ensures
            r@ == IdModel::U128(0),
    {
        Id::U128(0)
    }
}

impl TableKey for Id {
    type Model = IdModel;

    open spec fn model(&self) -> IdModel {
        self@
    }

    fn key_eq(&self, other: &Self) -> (r: bool) {
        match (self, other) {
            (Id::U8(a), Id::U8(b)) => *a == *b,
            (Id::U16(a), Id::U16(b)) => *a == *b,
            (Id::U32(a), Id::U32(b)) => *a == *b,
            (Id::U64(a), Id::U64(b)) => *a == *b,
            (Id::U128(a), Id::U128(b)) => *a == *b,
            (Id::Bytes(a), Id::Bytes(b)) => bytes_eq(a, b),
            _ => false,
        }
    }

    fn key_clone(&self) -> (r: Self) {
        self.clone()
    }
}

/// The number that a big-endian byte string denotes.
pub open spec fn be_value(s: Seq<u8>) -> nat
    decreases s.len(),
{
    if s.len() == 0 {
        0
    } else {
        be_value(s.drop_last()) * 256 + s.last() as nat
    }
}

pub open spec fn pow256(n: nat) -> nat
    decreases n,
{
    if n == 0 {
        1
    } else {
        256 * pow256((n - 1) as nat)
    }
}

/// The 128-bit number of an id; a byte string must have exactly 16 bytes.
pub open spec fn id_number(id: IdModel) -> Option<u128> {
    match id {
        IdModel::U8(v) => Some(v as u128),
        IdModel::U16(v) => Some(v as u128),
        IdModel::U32(v) => Some(v as u128),
        IdModel::U64(v) => Some(v as u128),
        IdModel::U128(v) => Some(v),
        IdModel::Bytes(b) => if b.len() == 16 {
            Some(be_value(b) as u128)
        } else {
            None
        },
    }
}

proof fn lemma_be_value_bound(s: Seq<u8>)
    ensures
        be_value(s) < pow256(s.len()),
    decreases s.len(),
{
    if s.len() > 0 {
        lemma_be_value_bound(s.drop_last());
        let a = be_value(s.drop_last());
        let p = pow256(s.drop_last().len());
        let b = s.last() as nat;
        assert(a * 256 + b < p * 256) by (nonlinear_arith)
            requires
                a < p,
                b < 256,
        ;
    }
}

impl Id {
    /// The id as a 128-bit number; `None` for a byte string that does not
    /// have exactly 16 bytes.
    pub fn to_u128(&self) -> (r: Option<u128>)
        ensures
            r == id_number(self@),
    {
        match self {
            Id::U8(v) => Some(*v as u128),
            Id::U16(v) => Some(*v as u128),
            Id::U32(v) => Some(*v as u128),
            Id::U64(v) => Some(*v as u128),
            Id::U128(v) => Some(*v),
            Id::Bytes(b) => {
                if b.len() != 16 {
                    return None;
                }
                let mut acc: u128 = 0;
                let mut i: usize = 0;
                while i < 16
                    invariant
                        b@.len() == 16,
                        0 <= i <= 16,
                        acc as nat == be_value(b@.subrange(0, i as int)),
                    decreases 16 - i,
                {
                    proof {
                        let pre = b@.subrange(0, i as int);
                        let next = b@.subrange(0, i as int + 1);
                        assert(next.drop_last() =~= pre);
                        lemma_be_value_bound(next);
                        assert(pow256(16) == 0x1_0000_0000_0000_0000_0000_0000_0000_0000nat) by {
                            reveal_with_fuel(pow256, 17);
                        }
                        pow256_mono(next.len(), 16);
                    }
                    acc = acc * 256 + b[i] as u128;
                    i = i + 1;
                }
                assert(b@.subrange(0, 16) =~= b@);
                Some(acc)
            },
        }
    }
}

proof fn pow256_mono(a: nat, b: nat)
    requires
        a <= b,
    ensures
        pow256(a) <= pow256(b),
    decreases b,
{
    if a < b {
        pow256_mono(a, (b - 1) as nat);
    }
}

} // verus!
