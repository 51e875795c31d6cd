//! Bit-level specification helpers shared by the whole crate: sign
//! extension of immediate fields, alignment, and the little-endian
//! value of a byte sequence.

use vstd::prelude::*;

verus! {

/// Sign-extend the low 12 bits of `v` to a full 32-bit pattern.
pub open spec fn sext12(v: u32) -> u32 {
    if v & 0x800 != 0 {
        (v & 0xFFF) | 0xFFFF_F000
    } else {
        v & 0xFFF
    }
}

/// Sign-extend the low 13 bits of `v` to a full 32-bit pattern.
pub open spec fn sext13(v: u32) -> u32 {
    if v & 0x1000 != 0 {
        (v & 0x1FFF) | 0xFFFF_E000
    } else {
        v & 0x1FFF
    }
}

/// Sign-extend the low 21 bits of `v` to a full 32-bit pattern.
pub open spec fn sext21(v: u32) -> u32 {
    if v & 0x10_0000 != 0 {
        (v & 0x1F_FFFF) | 0xFFE0_0000
    } else {
        v & 0x1F_FFFF
    }
}

/// Sign-extend the low 8 bits of `v` to a full 32-bit pattern.
pub open spec fn sext8(v: u32) -> u32 {
    if v & 0x80 != 0 {
        (v & 0xFF) | 0xFFFF_FF00
    } else {
        v & 0xFF
    }
}

/// Sign-extend the low 16 bits of `v` to a full 32-bit pattern.
pub open spec fn sext16(v: u32) -> u32 {
    if v & 0x8000 != 0 {
        (v & 0xFFFF) | 0xFFFF_0000
    } else {
        v & 0xFFFF
    }
}

/// Four-byte alignment can be read off the low two bits.
pub proof fn lemma_align4(x: u32)
    by (bit_vector)
    ensures
        (x % 4 == 0) == (x & 3 == 0),
{
}

/// Sign extension is idempotent: once an immediate has been extended
/// from its stored width to 32 bits, extending the result again (at
/// the same width) changes nothing.
pub proof fn lemma_sext_idempotent(v: u32)
    by (bit_vector)
    ensures
        sext12(sext12(v)) == sext12(v),
        sext13(sext13(v)) == sext13(v),
        sext21(sext21(v)) == sext21(v),
{
}

/// Addition that wraps at `2^32` is associative, the law behind all
/// address and ALU arithmetic of the RV32 hart.
pub proof fn lemma_wrapping_add_assoc(a: u32, b: u32, c: u32)
    ensures
        a.wrapping_add(b).wrapping_add(c) == a.wrapping_add(b.wrapping_add(c)),
{
}

/// The value of a byte sequence read as a little-endian integer.
pub open spec fn le_to_nat(s: Seq<u8>) -> nat
    decreases s.len(),
{
    if s.len() == 0 {
        0
    } else {
        s[0] as nat + 256 * le_to_nat(s.skip(1))
    }
}

/// An upper bound for the little-endian value of `n` bytes: `256^n`.
pub open spec fn bytes_bound(n: nat) -> nat
    decreases n,
{
    if n == 0 {
        1
    } else {
        256 * bytes_bound((n - 1) as nat)
    }
}

/// `le_to_nat` of `n` bytes is below `256^n`.
pub proof fn lemma_le_to_nat_bound(s: Seq<u8>)
    ensures
        le_to_nat(s) < bytes_bound(s.len()),
    decreases s.len(),
{
    if s.len() == 0 {
    } else {
        lemma_le_to_nat_bound(s.skip(1));
    }
}


/// The concrete values of `bytes_bound` for the widths the memory bus
/// traffics in.
pub proof fn lemma_bytes_bound_values()
    ensures
        bytes_bound(1) == 0x100,
        bytes_bound(2) == 0x1_0000,
        bytes_bound(4) == 0x1_0000_0000,
        bytes_bound(8) == 0x1_0000_0000_0000_0000,
{
    assert(bytes_bound(0) == 1);
    assert(bytes_bound(1) == 0x100);
    assert(bytes_bound(2) == 0x1_0000);
    assert(bytes_bound(3) == 0x100_0000);
    assert(bytes_bound(4) == 0x1_0000_0000);
    assert(bytes_bound(5) == 0x100_0000_0000);
    assert(bytes_bound(6) == 0x1_0000_0000_0000);
    assert(bytes_bound(7) == 0x100_0000_0000_0000);
    assert(bytes_bound(8) == 0x1_0000_0000_0000_0000);
}

/// The `n` low-order bytes of `v`, least significant first.
pub open spec fn u64_le_bytes(v: u64, n: nat) -> Seq<u8>
    decreases n,
{
    if n == 0 {
        Seq::empty()
    } else {
        seq![(v % 256) as u8] + u64_le_bytes(v / 256, (n - 1) as nat)
    }
}

/// `u64_le_bytes` always yields exactly `n` bytes.
pub proof fn lemma_u64_le_bytes_len(v: u64, n: nat)
    ensures
        u64_le_bytes(v, n).len() == n,
    decreases n,
{
    if n > 0 {
        lemma_u64_le_bytes_len(v / 256, (n - 1) as nat);
    }
}



/// `bytes_bound` grows with the byte count.
pub proof fn lemma_bytes_bound_mono(a: nat, b: nat)
    requires
        a <= b,
    ensures
        bytes_bound(a) <= bytes_bound(b),
    decreases b,
{
    if a < b {
        lemma_bytes_bound_mono(a, (b - 1) as nat);
        assert(bytes_bound(b) == 256 * bytes_bound((b - 1) as nat));
    }
}

} // verus!
