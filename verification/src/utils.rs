use vstd::array::ArrayAdditionalExecFns;
use vstd::prelude::*;

verus! {

/// Copy a 32-byte slice into a fixed-size array.
pub fn bytes32_of(key: &[u8]) -> (r: [u8; 32])
    requires
        key@.len() == 32,
    ensures
        r@ == key@,
{
    let mut arr: [u8; 32] = [0u8; 32];
    let mut i: usize = 0;
    while i < 32
        invariant
            i <= 32,
            key@.len() == 32,
            forall|j: int| 0 <= j < i ==> arr@[j] == key@[j],
        decreases 32 - i,
    {
        arr.set(i, key[i]);
        i = i + 1;
    }
    proof {
        assert(arr@ =~= key@);
    }
    arr
}

/// The byte with an upper-case ASCII letter mapped to its lower-case
/// counterpart, and every other byte unchanged.
pub open spec fn ascii_lower_byte(b: u8) -> u8 {
    if 65 <= b && b <= 90 {
        (b + 32) as u8
    } else {
        b
    }
}

/// The byte sequence lowered byte by byte.
pub open spec fn ascii_lower(s: Seq<u8>) -> Seq<u8> {
    s.map_values(|b: u8| ascii_lower_byte(b))
}

fn lower_byte(b: u8) -> (r: u8)
    ensures
        r == ascii_lower_byte(b),
{
    if 65 <= b && b <= 90 {
        b + 32
    } else {
        b
    }
}

/// Case-insensitive comparison against an already-lower-case tag: true
/// exactly when lowering the first slice yields the second.
pub fn eq_lowered(s: &[u8], tag: &[u8]) -> (r: bool)
    ensures
        r <==> ascii_lower(s@) == tag@,
{
    if s.len() != tag.len() {
        return false;
    }
    let mut i: usize = 0;
    while i < s.len()
        invariant
            i <= s@.len(),
            s@.len() == tag@.len(),
            forall|j: int| 0 <= j < i ==> ascii_lower_byte(s@[j]) == tag@[j],
        decreases s@.len() - i,
    {
        if lower_byte(s[i]) != tag[i] {
            return false;
        }
        i = i + 1;
    }
    proof {
        assert(ascii_lower(s@) =~= tag@);
    }
    true
}

/// Byte-for-byte comparison of two slices, true exactly when the views are
/// equal. The loop accumulates the differences instead of stopping at the
/// first mismatch, so the time it takes does not depend on where two equal
/// length inputs diverge — the comparison guards a MAC digest.
pub fn bytes_eq(a: &[u8], b: &[u8]) -> (r: bool)
    ensures
        r <==> a@ == b@,
{
    if a.len() != b.len() {
        return false;
    }
    let mut diff: u8 = 0;
    let mut i: usize = 0;
    while i < a.len()
        invariant
            i <= a@.len(),
            a@.len() == b@.len(),
            (diff == 0) <==> (forall|j: int| 0 <= j < i ==> a@[j] == b@[j]),
        decreases a@.len() - i,
    {
        let ax = a[i];
        let bx = b[i];
        let x = ax ^ bx;
        let ghost d0 = diff;
        diff = diff | x;
        proof {
            assert((ax ^ bx == 0) <==> (ax == bx)) by (bit_vector);
            assert(((d0 | x) == 0) <==> (d0 == 0 && x == 0)) by (bit_vector);
        }
        i = i + 1;
    }
    if diff == 0 {
        proof {
            assert(a@ =~= b@);
        }
        true
    } else {
        false
    }
}

} // verus!
