//! Field elements, held as their 32-byte big-endian encoding.

use vstd::prelude::*;

verus! {

/// A field element of the Starknet prime field, as 32 big-endian bytes.
#[derive(Clone, Copy, Debug)]
pub struct Felt {
    pub bytes: [u8; 32],
}

/// Byte number `k` of `x`, counted from the least significant one.
pub open spec fn byte_of(x: u128, k: nat) -> u8 {
    ((x >> ((8 * k) as u128)) % 256) as u8
}

/// The encoding of a 128-bit unsigned integer as a field element.
pub open spec fn u128_felt(x: u128) -> Seq<u8> {
    Seq::new(32, |i: int| if i < 16 { 0u8 } else { byte_of(x, (31 - i) as nat) })
}

/// The views of a sequence of field elements.
pub open spec fn felts_view(s: Seq<Felt>) -> Seq<Seq<u8>> {
    s.map_values(|f: Felt| f.bytes@)
}

pub(crate) fn exec_byte_of(x: u128, k: u32) -> (r: u8)
    requires
        k < 16,
    ensures
        r == byte_of(x, k as nat),
{
    ((x >> (8 * k)) % 256) as u8
}

impl Felt {
    /// The field element zero.
    pub fn zero() -> (r: Felt)
        ensures
            r.bytes@ == u128_felt(0),
    {
        Felt::from_u128(0)
    }

    /// The field element with the value of `x`.
    pub fn from_u128(x: u128) -> (r: Felt)
        ensures
            r.bytes@ == u128_felt(x),
    {
        let mut b: [u8; 32] = [0u8; 32];
        let mut i: usize = 0;
        while i < 32
            invariant
                0 <= i <= 32,
                b@.len() == 32,
                forall|j: int| 0 <= j < i ==> b@[j] == u128_felt(x)[j],
            decreases 32 - i,
        {
            let v: u8 = if i < 16 { 0u8 } else { exec_byte_of(x, (31 - i) as u32) };
            b[i] = v;
            i = i + 1;
        }
        assert(b@ =~= u128_felt(x));
        Felt { bytes: b }
    }

    /// Whether two field elements have the same encoding.
    pub fn same_as(&self, other: &Felt) -> (r: bool)
        ensures
            r == (self.bytes@ == other.bytes@),
    {
        let mut i: usize = 0;
        while i < 32
            invariant
                0 <= i <= 32,
                forall|j: int| 0 <= j < i ==> self.bytes@[j] == other.bytes@[j],
            decreases 32 - i,
        {
            if self.bytes[i] != other.bytes[i] {
                return false;
            }
            i = i + 1;
        }
        assert(self.bytes@ =~= other.bytes@);
        true
    }
}

/// The big-endian bytes of the field's prime, 2^251 + 17 * 2^192 + 1.
pub open spec fn prime_bytes() -> Seq<u8> {
    Seq::new(32, |i: int| if i == 0 { 8u8 } else if i == 7 { 0x11u8 } else if i == 31 { 1u8 } else { 0u8 })
}

/// Whether the 32 bytes `b` encode a number below the prime: some first byte
/// where they differ from it is smaller.
pub open spec fn is_canonical(b: Seq<u8>) -> bool {
    exists|k: int| 0 <= k < 32 && b.subrange(0, k) == prime_bytes().subrange(0, k) && #[trigger] b[k] < prime_bytes()[k]
}

/// Whether every element of `s` is canonical.
pub open spec fn all_canonical(s: Seq<Felt>) -> bool {
    forall|i: int| 0 <= i < s.len() ==> is_canonical(#[trigger] s[i].bytes@)
}

fn prime_byte(i: usize) -> (r: u8)
    requires
        i < 32,
    ensures
        r == prime_bytes()[i as int],
{
    if i == 0 {
        8u8
    } else if i == 7 {
        0x11u8
    } else if i == 31 {
        1u8
    } else {
        0u8
    }
}

impl Felt {
    /// Whether this encodes an element of the field, that is a number below
    /// the prime.
    pub fn is_canonical(&self) -> (r: bool)
        ensures
            r == is_canonical(self.bytes@),
    {
        let ghost p = prime_bytes();
        let mut i: usize = 0;
        while i < 32
            invariant
                0 <= i <= 32,
                p == prime_bytes(),
                self.bytes@.subrange(0, i as int) == p.subrange(0, i as int),
            decreases 32 - i,
        {
            let b = self.bytes[i];
            let q = prime_byte(i);
            if b < q {
                assert(self.bytes@[i as int] < p[i as int]);
                return true;
            }
            if b > q {
                assert forall|k: int| 0 <= k < 32 && self.bytes@.subrange(0, k) == p.subrange(0, k)
                    implies !(self.bytes@[k] < p[k]) by {
                    if k < i {
                        assert(self.bytes@.subrange(0, i as int)[k] == p.subrange(0, i as int)[k]);
                    } else if k > i {
                        assert(self.bytes@.subrange(0, k)[i as int] == p.subrange(0, k)[i as int]);
                    }
                }
                return false;
            }
            assert(self.bytes@.subrange(0, i + 1) =~= self.bytes@.subrange(0, i as int).push(b));
            assert(p.subrange(0, i + 1) =~= p.subrange(0, i as int).push(q));
            i = i + 1;
        }
        assert forall|k: int| 0 <= k < 32 && self.bytes@.subrange(0, k) == p.subrange(0, k)
            implies !(self.bytes@[k] < p[k]) by {
            assert(self.bytes@.subrange(0, 32)[k] == p.subrange(0, 32)[k]);
        }
        false
    }
}

/// Whether every element of `v` is canonical.
pub fn all_canonical_exec(v: &Vec<Felt>) -> (r: bool)
    ensures
        r == all_canonical(v@),
{
    let mut i: usize = 0;
    while i < v.len()
        invariant
            i <= v@.len(),
            forall|j: int| 0 <= j < i ==> is_canonical(#[trigger] v@[j].bytes@),
        decreases v@.len() - i,
    {
        if !v[i].is_canonical() {
            return false;
        }
        i = i + 1;
    }
    true
}

} // verus!
