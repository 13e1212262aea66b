//! Reading and writing the fields of stored records. A record is stored as its
//! eight-byte discriminator followed by its fields in their declared order:
//! an identity as its 32 bytes, an integer as its little-endian bytes.

use vstd::prelude::*;
use vstd::bytes::{
    lemma_auto_spec_u64_to_from_le_bytes, spec_u64_from_le_bytes, spec_u64_to_le_bytes, u64_from_le_bytes,
    u64_to_le_bytes,
};
use vstd::slice::slice_subrange;
use crate::pubkey::Pubkey;

verus! {

/// The eight little-endian bytes of a signed integer: those of the unsigned
/// integer with the same bits.
pub open spec fn spec_i64_to_le_bytes(x: i64) -> Seq<u8> {
    spec_u64_to_le_bytes(x as u64)
}

/// Little-endian bytes tell unsigned integers apart.
pub proof fn lemma_u64_bytes_are_one_to_one(a: u64, b: u64)
    ensures
        spec_u64_to_le_bytes(a).len() == 8,
        spec_u64_to_le_bytes(a) == spec_u64_to_le_bytes(b) <==> a == b,
{
    lemma_auto_spec_u64_to_from_le_bytes();
    assert(spec_u64_from_le_bytes(spec_u64_to_le_bytes(a)) == a);
    assert(spec_u64_from_le_bytes(spec_u64_to_le_bytes(b)) == b);
}

/// Little-endian bytes tell signed integers apart.
pub proof fn lemma_i64_bytes_are_one_to_one(a: i64, b: i64)
    ensures
        spec_i64_to_le_bytes(a).len() == 8,
        spec_i64_to_le_bytes(a) == spec_i64_to_le_bytes(b) <==> a == b,
{
    lemma_u64_bytes_are_one_to_one(a as u64, b as u64);
    assert((a as u64) == (b as u64) <==> a == b) by (bit_vector);
}

/// Two byte strings that agree on a field agree on each byte of it.
pub proof fn lemma_field_bytes(x: Seq<u8>, y: Seq<u8>, from: int, to: int, i: int)
    requires
        0 <= from <= i < to <= x.len(),
        to <= y.len(),
        x.subrange(from, to) == y.subrange(from, to),
    ensures
        x[i] == y[i],
{
    assert(x[i] == x.subrange(from, to)[i - from]);
    assert(y[i] == y.subrange(from, to)[i - from]);
}

/// Whether `bytes` holds `tag` at its start.
pub fn starts_with(bytes: &[u8], tag: &[u8; 8]) -> (found: bool)
    ensures
        found == (bytes@.len() >= 8 && bytes@.subrange(0, 8) == tag@),
{
    if bytes.len() < 8 {
        return false;
    }
    let mut i: usize = 0;
    while i < 8
        invariant
            i <= 8,
            bytes@.len() >= 8,
            forall|j: int| 0 <= j < i ==> bytes@[j] == tag@[j],
        decreases 8 - i,
    {
        if bytes[i] != tag[i] {
            assert(bytes@.subrange(0, 8)[i as int] != tag@[i as int]);
            return false;
        }
        i += 1;
    }
    assert(bytes@.subrange(0, 8) =~= tag@);
    true
}

/// Appends the discriminator.
pub fn put_tag(out: &mut Vec<u8>, tag: &[u8; 8])
    ensures
        final(out)@ == old(out)@ + tag@,
{
    let ghost before = out@;
    let mut i: usize = 0;
    while i < 8
        invariant
            i <= 8,
            out@ == before + tag@.subrange(0, i as int),
        decreases 8 - i,
    {
        out.push(tag[i]);
        i += 1;
        assert(out@ =~= before + tag@.subrange(0, i as int));
    }
    assert(tag@.subrange(0, 8) =~= tag@);
}

/// Appends the 32 bytes of an identity.
pub fn put_pubkey(out: &mut Vec<u8>, key: &Pubkey)
    ensures
        final(out)@ == old(out)@ + key@,
{
    let mut bytes = key.to_vec();
    out.append(&mut bytes);
}

/// Appends the eight little-endian bytes of an unsigned integer.
pub fn put_u64(out: &mut Vec<u8>, x: u64)
    ensures
        final(out)@ == old(out)@ + spec_u64_to_le_bytes(x),
{
    let mut bytes = u64_to_le_bytes(x);
    out.append(&mut bytes);
}

/// Appends the eight little-endian bytes of a signed integer.
pub fn put_i64(out: &mut Vec<u8>, x: i64)
    ensures
        final(out)@ == old(out)@ + spec_i64_to_le_bytes(x),
{
    put_u64(out, #[verifier::truncate] (x as u64));
}

/// The identity whose bytes stand at `at`.
pub fn get_pubkey(bytes: &[u8], at: usize) -> (key: Pubkey)
    requires
        at + 32 <= bytes@.len(),
    ensures
        key@ == bytes@.subrange(at as int, at + 32),
{
    let total: usize = bytes.len();
    let mut out = [0u8; 32];
    let mut i: usize = 0;
    while i < 32
        invariant
            i <= 32,
            at + 32 <= bytes@.len() == total,
            forall|j: int| 0 <= j < i ==> out@[j] == bytes@[at + j],
        decreases 32 - i,
    {
        out[i] = bytes[at + i];
        i += 1;
    }
    let key = Pubkey { bytes: out };
    assert(key@ =~= bytes@.subrange(at as int, at + 32));
    key
}

/// The unsigned integer whose little-endian bytes stand at `at`.
pub fn get_u64(bytes: &[u8], at: usize) -> (x: u64)
    requires
        at + 8 <= bytes@.len(),
    ensures
        spec_u64_to_le_bytes(x) == bytes@.subrange(at as int, at + 8),
{
    proof {
        lemma_auto_spec_u64_to_from_le_bytes();
    }
    let total: usize = bytes.len();
    assert(at + 8 <= total);
    u64_from_le_bytes(slice_subrange(bytes, at, at + 8))
}

/// The signed integer whose little-endian bytes stand at `at`.
pub fn get_i64(bytes: &[u8], at: usize) -> (x: i64)
    requires
        at + 8 <= bytes@.len(),
    ensures
        spec_i64_to_le_bytes(x) == bytes@.subrange(at as int, at + 8),
{
    let raw: u64 = get_u64(bytes, at);
    let x: i64 = #[verifier::truncate] (raw as i64);
    assert((raw as i64) as u64 == raw) by (bit_vector);
    x
}

} // verus!
