//! Little-endian byte strings as numbers in base 256.
//!
//! The model is mathematical: a byte string stands for the natural number
//! whose base-256 digits it lists, least significant first. Signed values
//! are carried in two's complement.

use vstd::prelude::*;
use zerocopy::byteorder::{LittleEndian, I64, U128, U16, U32};

verus! {

/// `256` raised to the power `n`.
pub open spec fn pow256(n: nat) -> nat
    decreases n,
{
    if n == 0 {
        1
    } else {
        256 * pow256((n - 1) as nat)
    }
}

/// The `n` low-order base-256 digits of `v`, least significant first.
pub open spec fn le_bytes(v: nat, n: nat) -> Seq<u8>
    decreases n,
{
    if n == 0 {
        Seq::empty()
    } else {
        seq![(v % 256) as u8] + le_bytes(v / 256, (n - 1) as nat)
    }
}

/// The number whose base-256 digits, least significant first, are `s`.
pub open spec fn le_value(s: Seq<u8>) -> nat
    decreases s.len(),
{
    if s.len() == 0 {
        0
    } else {
        s[0] as nat + 256 * le_value(s.drop_first())
    }
}

/// The unsigned number that stands for `v` in two's complement on `n` bytes.
pub open spec fn to_twos_complement(v: int, n: nat) -> nat {
    if v >= 0 {
        v as nat
    } else {
        (v + pow256(n)) as nat
    }
}

/// The signed number that `u` stands for in two's complement on `n` bytes.
pub open spec fn from_twos_complement(u: nat, n: nat) -> int {
    if 2 * u < pow256(n) {
        u as int
    } else {
        u - pow256(n)
    }
}

/// The powers of 256 that bound the header's field widths.
pub proof fn lemma_pow256_values()
    ensures
        pow256(0) == 1,
        pow256(1) == 0x100,
        pow256(2) == 0x1_0000,
        pow256(4) == 0x1_0000_0000,
        pow256(8) == 0x1_0000_0000_0000_0000,
        pow256(16) == 0x1_0000_0000_0000_0000_0000_0000_0000_0000,
{
    reveal_with_fuel(pow256, 17);
}

/// `le_bytes(v, n)` has exactly `n` bytes.
pub proof fn lemma_le_bytes_len(v: nat, n: nat)
    ensures
        le_bytes(v, n).len() == n,
    decreases n,
{
    if n > 0 {
        lemma_le_bytes_len(v / 256, (n - 1) as nat);
    }
}

/// A byte string of length `n` stands for a number below `256^n`.
pub proof fn lemma_le_value_bound(s: Seq<u8>)
    ensures
        le_value(s) < pow256(s.len()),
    decreases s.len(),
{
    if s.len() > 0 {
        lemma_le_value_bound(s.drop_first());
    }
}

/// Reading back the `n` bytes written for `v` gives `v`, when `v` fits.
pub proof fn lemma_le_value_of_bytes(v: nat, n: nat)
    requires
        v < pow256(n),
    ensures
        le_value(le_bytes(v, n)) == v,
    decreases n,
{
    if n > 0 {
        let rest = le_bytes(v / 256, (n - 1) as nat);
        let s = le_bytes(v, n);
        assert(s.drop_first() =~= rest);
        lemma_le_value_of_bytes(v / 256, (n - 1) as nat);
    }
}

/// Writing the number that `s` stands for on `s.len()` bytes gives `s`.
pub proof fn lemma_le_bytes_of_value(s: Seq<u8>)
    ensures
        le_bytes(le_value(s), s.len()) == s,
    decreases s.len(),
{
    if s.len() > 0 {
        let tail = s.drop_first();
        lemma_le_bytes_of_value(tail);
        let v = le_value(s);
        assert(v % 256 == s[0] as nat);
        assert(v / 256 == le_value(tail));
        assert(le_bytes(v, s.len()) =~= s);
    }
}

/// Two's complement on `n` bytes loses nothing of a value in range.
pub proof fn lemma_twos_complement_round_trip(v: int, n: nat)
    requires
        -(pow256(n) as int) <= 2 * v < pow256(n),
    ensures
        to_twos_complement(v, n) < pow256(n),
        from_twos_complement(to_twos_complement(v, n), n) == v,
{
}

/// Every number below `256^n` is the two's complement form of the signed
/// value it is read as.
pub proof fn lemma_twos_complement_inverse(u: nat, n: nat)
    requires
        u < pow256(n),
    ensures
        -(pow256(n) as int) <= 2 * from_twos_complement(u, n) < pow256(n),
        to_twos_complement(from_twos_complement(u, n), n) == u,
{
}

/// Trusted: `zerocopy::byteorder::U128::<LittleEndian>::new`, unwrapped by
/// `to_bytes`. The sixteen bytes it stores are the little-endian
/// representation of `v`.
#[verifier::external_body]
pub(crate) fn u128_to_le(v: u128) -> (r: [u8; 16])
    ensures
        r@ == le_bytes(v as nat, 16),
{
    U128::<LittleEndian>::new(v).to_bytes()
}

/// Trusted: `zerocopy::byteorder::U128::<LittleEndian>::get`, on the value
/// that `from_bytes` wraps round `b`. It reads `b` as a little-endian number.
#[verifier::external_body]
pub(crate) fn u128_from_le(b: [u8; 16]) -> (r: u128)
    ensures
        r == le_value(b@),
{
    U128::<LittleEndian>::from_bytes(b).get()
}

/// Trusted: `zerocopy::byteorder::I64::<LittleEndian>::new`, unwrapped by
/// `to_bytes`. The eight bytes it stores are the little-endian
/// representation of `v` in two's complement.
#[verifier::external_body]
pub(crate) fn i64_to_le(v: i64) -> (r: [u8; 8])
    ensures
        r@ == le_bytes(to_twos_complement(v as int, 8), 8),
{
    I64::<LittleEndian>::new(v).to_bytes()
}

/// Trusted: `zerocopy::byteorder::I64::<LittleEndian>::get`, on the value
/// that `from_bytes` wraps round `b`. It reads `b` as a little-endian number
/// in two's complement.
#[verifier::external_body]
pub(crate) fn i64_from_le(b: [u8; 8]) -> (r: i64)
    ensures
        r == from_twos_complement(le_value(b@), 8),
{
    I64::<LittleEndian>::from_bytes(b).get()
}

/// Trusted: `zerocopy::byteorder::U32::<LittleEndian>::new`, unwrapped by
/// `to_bytes`. The four bytes it stores are the little-endian representation
/// of `v`.
#[verifier::external_body]
pub(crate) fn u32_to_le(v: u32) -> (r: [u8; 4])
    ensures
        r@ == le_bytes(v as nat, 4),
{
    U32::<LittleEndian>::new(v).to_bytes()
}

/// Trusted: `zerocopy::byteorder::U32::<LittleEndian>::get`, on the value
/// that `from_bytes` wraps round `b`. It reads `b` as a little-endian number.
#[verifier::external_body]
pub(crate) fn u32_from_le(b: [u8; 4]) -> (r: u32)
    ensures
        r == le_value(b@),
{
    U32::<LittleEndian>::from_bytes(b).get()
}

/// Trusted: `zerocopy::byteorder::U16::<LittleEndian>::new`, unwrapped by
/// `to_bytes`. The two bytes it stores are the little-endian representation
/// of `v`.
#[verifier::external_body]
pub(crate) fn u16_to_le(v: u16) -> (r: [u8; 2])
    ensures
        r@ == le_bytes(v as nat, 2),
{
    U16::<LittleEndian>::new(v).to_bytes()
}

/// Trusted: `zerocopy::byteorder::U16::<LittleEndian>::get`, on the value
/// that `from_bytes` wraps round `b`. It reads `b` as a little-endian number.
#[verifier::external_body]
pub(crate) fn u16_from_le(b: [u8; 2]) -> (r: u16)
    ensures
        r == le_value(b@),
{
    U16::<LittleEndian>::from_bytes(b).get()
}

/// Copies the `N` bytes of `bytes` that start at `at` into an array.
pub(crate) fn read_array<const N: usize>(bytes: &[u8], at: usize) -> (r: [u8; N])
    requires
        at + N <= bytes@.len(),
    ensures
        r@ == bytes@.subrange(at as int, at + N),
{
    let mut out = [0u8; N];
    let mut i: usize = 0;
    while i < N
        invariant
            i <= N,
            at + N <= bytes.len(),
            forall|j: int| 0 <= j < i ==> out@[j] == bytes@[at + j],
        decreases N - i,
    {
        out[i] = bytes[at + i];
        i += 1;
    }
    out
}

} // verus!
