//! Reading and writing the fixed-width fields that records and payloads are
//! made of.

use crate::pubkey::Pubkey;
use vstd::bytes::{
    lemma_auto_spec_u64_to_from_le_bytes, spec_u64_to_le_bytes, spec_u64_to_le_bytes_open,
    spec_u64_to_le_bytes_to_open, u64_from_le_bytes, u64_to_le_bytes,
};
use vstd::prelude::*;
use vstd::slice::slice_subrange;

verus! {

/// The eight bytes of `value`, lowest first.
pub open spec fn le_bytes(value: u64) -> Seq<u8> {
    spec_u64_to_le_bytes_open(value)
}

/// A number has eight bytes, and two numbers with the same bytes are the same
/// number.
pub proof fn lemma_le_bytes(a: u64, b: u64)
    ensures
        le_bytes(a).len() == 8,
        le_bytes(a) == le_bytes(b) ==> a == b,
{
    lemma_auto_spec_u64_to_from_le_bytes();
    spec_u64_to_le_bytes_to_open(a);
    spec_u64_to_le_bytes_to_open(b);
}

/// Appends `bytes` to `buf`.
pub(crate) fn append(buf: &mut Vec<u8>, bytes: &[u8])
    ensures
        final(buf)@ == old(buf)@ + bytes@,
{
    let mut i: usize = 0;
    while i < bytes.len()
        invariant
            i <= bytes.len(),
            buf@ == old(buf)@ + bytes@.subrange(0, i as int),
        decreases bytes.len() - i,
    {
        buf.push(bytes[i]);
        i += 1;
    }
}

/// Appends the eight bytes of `value` to `buf`.
pub(crate) fn append_u64(buf: &mut Vec<u8>, value: u64)
    ensures
        final(buf)@ == old(buf)@ + le_bytes(value),
{
    let bytes = u64_to_le_bytes(value);
    proof {
        spec_u64_to_le_bytes_to_open(value);
    }
    append(buf, bytes.as_slice());
}

/// The number whose eight bytes stand at `at`.
pub(crate) fn read_u64(data: &[u8], at: usize) -> (value: u64)
    requires
        at + 8 <= data@.len(),
    ensures
        le_bytes(value) == data@.subrange(at as int, at + 8),
{
    let len = data.len();
    let value = u64_from_le_bytes(slice_subrange(data, at, at + 8));
    proof {
        lemma_auto_spec_u64_to_from_le_bytes();
        spec_u64_to_le_bytes_to_open(value);
    }
    value
}

/// The address whose thirty-two bytes stand at `at`.
pub(crate) fn read_pubkey(data: &[u8], at: usize) -> (key: Pubkey)
    requires
        at + 32 <= data@.len(),
    ensures
        key@ == data@.subrange(at as int, at + 32),
{
    let len = data.len();
    let mut bytes: [u8; 32] = [0; 32];
    let mut i: usize = 0;
    while i < 32
        invariant
            i <= 32,
            at + 32 <= data@.len() == len,
            forall|j: int| 0 <= j < i ==> bytes@[j] == data@[at + j],
        decreases 32 - i,
    {
        bytes[i] = data[at + i];
        i += 1;
    }
    Pubkey(bytes)
}

} // verus!
